//! The property token itself: executable operations, each proved against
//! the model.

use vstd::prelude::*;
use vstd::seq_lib::*;
use vstd::string::StringExecFns;
use crate::primitives::{contains_account, views, AccountId};
use crate::table::Table;
use crate::text::{decimal_string, hex_string};
use crate::traits::{PropertyInfo, PropertyMetadata};
use crate::token::model::{
    balance_in, blake2x256_of_transfer, moved_amounts, transfer_stamp, BatchOutcome,
    TokenRecord, TokenState, HOME_CHAIN,
};
use crate::token::types::{
    Approval, ApprovalForAll, BridgedTokenInfo, BridgingStatus, ComplianceInfo,
    ComplianceVerified, DocumentInfo, Error, Event, LegalDocumentAttached, OwnershipTransfer,
    PropertyTokenMinted, TokenBridged, Transfer,
};

verus! {

/// The fingerprint under which a change of ownership is recorded, computed
/// by `ink::env::hash_encoded` with the `Blake2x256` hasher: the Blake2
/// 256-bit hash of the SCALE encoding of the two accounts' bytes and the
/// token identifier. The result depends on these three values alone.
#[verifier::external_body]
fn transfer_fingerprint(from: &AccountId, to: &AccountId, token_id: u64) -> (r:
    crate::primitives::Hash)
    ensures
        r.bytes == blake2x256_of_transfer(from.bytes, to.bytes, token_id),
{
    let mut output = [0u8;32];
    ink::env::hash_encoded::<ink::env::hash::Blake2x256, _>(
        &(from.bytes, to.bytes, token_id),
        &mut output,
    );
    crate::primitives::Hash { bytes: output }
}

/// The storage of one token.
struct TokenSlot {
    owner: AccountId,
    approved: Option<AccountId>,
    property: PropertyInfo,
    history: Vec<OwnershipTransfer>,
    compliance: ComplianceInfo,
    documents: Vec<DocumentInfo>,
}

impl View for TokenSlot {
    type V = TokenRecord;

    closed spec fn view(&self) -> TokenRecord {
        TokenRecord {
            owner: self.owner,
            approved: self.approved,
            property: self.property@,
            history: self.history@,
            compliance: self.compliance@,
            documents: views(self.documents@),
        }
    }
}

/// The property token contract.
pub struct PropertyToken {
    admin: AccountId,
    tokens: Vec<TokenSlot>,
    owner_token_count: Table<AccountId, u32>,
    operator_approvals: Table<(AccountId, AccountId), bool>,
    balances: Table<(AccountId, u64), u128>,
    bridged_tokens: Table<(u64, u64), BridgedTokenInfo>,
    bridge_operators: Vec<AccountId>,
    events: Vec<Event>,
}

impl View for PropertyToken {
    type V = TokenState;

    closed spec fn view(&self) -> TokenState {
        TokenState {
            admin: self.admin,
            tokens: views(self.tokens@),
            owner_token_count: self.owner_token_count@,
            operator_approvals: self.operator_approvals@,
            balances: self.balances@,
            bridged_tokens: self.bridged_tokens@,
            bridge_operators: self.bridge_operators@,
            events: views(self.events@),
        }
    }
}

fn copy_metadata(m: &PropertyMetadata) -> (r: PropertyMetadata)
    ensures
        r@ == m@,
{
    PropertyMetadata {
        location: m.location.clone(),
        size: m.size,
        legal_description: m.legal_description.clone(),
        valuation: m.valuation,
        documents_url: m.documents_url.clone(),
    }
}

fn copy_compliance(c: &ComplianceInfo) -> (r: ComplianceInfo)
    ensures
        r@ == c@,
{
    ComplianceInfo {
        verified: c.verified,
        verification_date: c.verification_date,
        verifier: c.verifier,
        compliance_type: c.compliance_type.clone(),
    }
}

fn copy_documents(list: &Vec<DocumentInfo>) -> (r: Vec<DocumentInfo>)
    ensures
        views(r@) == views(list@),
{
    let mut out: Vec<DocumentInfo> = Vec::new();
    let mut i: usize = 0;
    while i < list.len()
        invariant
            i <= list.len(),
            out@.len() == i,
            forall|j: int| 0 <= j < i ==> (#[trigger] out@[j])@ == list@[j]@,
        decreases list.len() - i,
    {
        let d = &list[i];
        out.push(
            DocumentInfo {
                document_hash: d.document_hash,
                document_type: d.document_type.clone(),
                upload_date: d.upload_date,
                uploader: d.uploader,
            },
        );
        i += 1;
    }
    assert(views(out@) =~= views(list@));
    out
}

fn copy_history(list: &Vec<OwnershipTransfer>) -> (r: Vec<OwnershipTransfer>)
    ensures
        r@ == list@,
{
    let mut out: Vec<OwnershipTransfer> = Vec::new();
    let mut i: usize = 0;
    while i < list.len()
        invariant
            i <= list.len(),
            out@ == list@.take(i as int),
        decreases list.len() - i,
    {
        out.push(list[i]);
        assert(out@ =~= list@.take(i + 1));
        i += 1;
    }
    assert(out@ =~= list@);
    out
}

/// How the rehearsal of a batch of balance transfers ends.
enum Rehearsal {
    Refused,
    Overflow,
    Moved(Table<(AccountId, u64), u128>),
}

impl PropertyToken {
    /// The invariant of the contract.
    pub closed spec fn wf(&self) -> bool {
        &&& self.owner_token_count.wf()
        &&& self.operator_approvals.wf()
        &&& self.balances.wf()
        &&& self.bridged_tokens.wf()
        &&& self@.wf()
    }

    /// A contract without tokens, administered by `admin`, who is its
    /// first bridge operator.
    pub fn new(admin: AccountId) -> (r: Self)
        ensures
            r.wf(),
            r@ == TokenState::initial(admin),
    {
        let mut bridge_operators: Vec<AccountId> = Vec::new();
        bridge_operators.push(admin);
        let r = PropertyToken {
            admin,
            tokens: Vec::new(),
            owner_token_count: Table::new(),
            operator_approvals: Table::new(),
            balances: Table::new(),
            bridged_tokens: Table::new(),
            bridge_operators,
            events: Vec::new(),
        };
        proof {
            let want = TokenState::initial(admin);
            assert(r@.tokens =~= want.tokens);
            assert(r@.bridge_operators =~= want.bridge_operators);
            assert(r@.events =~= want.events);
        }
        r
    }

    /// Queues a notification.
    fn notify(&mut self, event: Event)
        requires
            old(self).wf(),
        ensures
            final(self).wf(),
            final(self)@ == old(self)@.notified(event@),
    {
        self.events.push(event);
        assert(self@.events =~= old(self)@.events.push(event@));
    }

    /// The position of token `token_id` in the store, if it exists.
    fn position(&self, token_id: u64) -> (r: Option<usize>)
        requires
            self.wf(),
        ensures
            match r {
                Some(i) => self@.has_token(token_id) && i == token_id - 1 && i < self.tokens@.len()
                    && self.tokens@[i as int]@ == self@.token(token_id),
                None => !self@.has_token(token_id),
            },
    {
        if token_id >= 1 && token_id - 1 < self.tokens.len() as u64 {
            Some((token_id - 1) as usize)
        } else {
            None
        }
    }

    /// How many tokens `owner` holds.
    pub fn balance_of(&self, owner: AccountId) -> (r: u32)
        requires
            self.wf(),
        ensures
            r == self@.balance_of(owner),
    {
        match self.owner_token_count.get(&owner) {
            Some(count) => *count,
            None => 0,
        }
    }

    /// The owner of a token; the zero account while it is locked for
    /// bridging.
    pub fn owner_of(&self, token_id: u64) -> (r: Option<AccountId>)
        requires
            self.wf(),
        ensures
            r == (if self@.has_token(token_id) {
                Some(self@.token(token_id).owner)
            } else {
                None
            }),
    {
        match self.position(token_id) {
            Some(at) => Some(self.tokens[at].owner),
            None => None,
        }
    }

    /// Counts one more token for `to`.
    fn add_token_to_owner(&mut self, to: AccountId)
        requires
            old(self).wf(),
            old(self)@.balance_of(to) < u32::MAX,
        ensures
            final(self).wf(),
            final(self)@ == old(self)@.counted(to),
    {
        let count = self.balance_of(to);
        self.owner_token_count.insert(to, count + 1);
    }

    /// Counts one token less for `from`, who must have one.
    fn remove_token_from_owner(&mut self, from: AccountId) -> (r: Result<(), Error>)
        requires
            old(self).wf(),
        ensures
            final(self).wf(),
            if old(self)@.balance_of(from) == 0 {
                r == Err::<(), Error>(Error::TokenNotFound) && final(self)@ == old(self)@
            } else {
                r.is_ok() && final(self)@ == old(self)@.discounted(from)
            },
    {
        let count = self.balance_of(from);
        if count == 0 {
            return Err(Error::TokenNotFound);
        }
        self.owner_token_count.insert(from, count - 1);
        Ok(())
    }

    /// Whether `operator` acts for all tokens of `owner`.
    pub fn is_approved_for_all(&self, owner: AccountId, operator: AccountId) -> (r: bool)
        requires
            self.wf(),
        ensures
            r == self@.is_approved_for_all(owner, operator),
    {
        match self.operator_approvals.get(&(owner, operator)) {
            Some(approved) => *approved,
            None => false,
        }
    }

    /// Why a transfer of the token from `from` by `caller` is refused, if
    /// it is.
    fn check_transfer(
        &self,
        caller: AccountId,
        from: AccountId,
        token_id: u64,
    ) -> (r: Option<Error>)
        requires
            self.wf(),
        ensures
            r == self@.transfer_refusal(caller, from, token_id),
    {
        let at = match self.position(token_id) {
            Some(at) => at,
            None => {
                return Some(Error::TokenNotFound);
            },
        };
        if self.tokens[at].owner != from {
            return Some(Error::Unauthorized);
        }
        if caller != from && self.tokens[at].approved != Some(caller) && !self.is_approved_for_all(
            from,
            caller,
        ) {
            return Some(Error::Unauthorized);
        }
        if self.balance_of(from) == 0 {
            return Some(Error::TokenNotFound);
        }
        None
    }

    /// Whether the count of `to` can take the token, if the transfer is
    /// admitted at all.
    pub fn transfer_fits(
        &self,
        caller: AccountId,
        from: AccountId,
        to: AccountId,
        token_id: u64,
    ) -> (r: bool)
        requires
            self.wf(),
        ensures
            r == self@.transfer_fits(caller, from, to, token_id),
    {
        if self.check_transfer(caller, from, token_id).is_some() {
            return true;
        }
        if to == from {
            true
        } else {
            self.balance_of(to) < u32::MAX
        }
    }

    /// Whether one more token can be minted for `owner`.
    pub fn mint_fits(&self, owner: AccountId) -> (r: bool)
        requires
            self.wf(),
        ensures
            r == self@.mint_fits(owner),
    {
        (self.tokens.len() as u64) < u64::MAX && self.balance_of(owner) < u32::MAX
    }

    /// Whether a token can be minted for `recipient`, if `caller` may
    /// receive bridged tokens at all.
    pub fn receive_fits(&self, caller: AccountId, recipient: AccountId) -> (r: bool)
        requires
            self.wf(),
        ensures
            r == self@.receive_fits(caller, recipient),
    {
        !self.is_bridge_operator(caller) || self.mint_fits(recipient)
    }

    /// Transfers a token from `from` to `to` and records the change under
    /// the fingerprint `stamp`. The owner, the account approved for the
    /// token and the owner's operators may.
    pub fn transfer_from_stamped(
        &mut self,
        caller: AccountId,
        now: u64,
        from: AccountId,
        to: AccountId,
        token_id: u64,
        stamp: crate::primitives::Hash,
    ) -> (r: Result<(), Error>)
        requires
            old(self).wf(),
            old(self)@.transfer_fits(caller, from, to, token_id),
        ensures
            final(self).wf(),
            match old(self)@.transfer_refusal(caller, from, token_id) {
                Some(e) => r == Err::<(), Error>(e) && final(self)@ == old(self)@,
                None => r.is_ok() && final(self)@ == old(self)@.after_transfer(
                    now,
                    from,
                    to,
                    token_id,
                    stamp,
                ),
            },
    {
        let at = match self.position(token_id) {
            Some(at) => at,
            None => {
                return Err(Error::TokenNotFound);
            },
        };
        if self.tokens[at].owner != from {
            return Err(Error::Unauthorized);
        }
        if caller != from && self.tokens[at].approved != Some(caller) && !self.is_approved_for_all(
            from,
            caller,
        ) {
            return Err(Error::Unauthorized);
        }
        match self.remove_token_from_owner(from) {
            Ok(_) => {},
            Err(e) => {
                return Err(e);
            },
        }
        self.add_token_to_owner(to);
        let slot = &mut self.tokens[at];
        slot.owner = to;
        slot.approved = None;
        slot.history.push(OwnershipTransfer { from, to, timestamp: now, transaction_hash: stamp });
        proof {
            let t = old(self)@.token(token_id);
            assert(self@.tokens =~= old(self)@.tokens.update(
                at as int,
                (TokenRecord {
                    owner: to,
                    approved: None,
                    history: t.history.push(
                        OwnershipTransfer { from, to, timestamp: now, transaction_hash: stamp },
                    ),
                    ..t
                }),
            ));
        }
        self.notify(Event::Transfer(Transfer { from: Some(from), to: Some(to), id: token_id }));
        Ok(())
    }

    /// Transfers a token from `from` to `to`. The change is recorded in
    /// the token's history under the fingerprint of the two accounts and
    /// the token.
    pub fn transfer_from(
        &mut self,
        caller: AccountId,
        now: u64,
        from: AccountId,
        to: AccountId,
        token_id: u64,
    ) -> (r: Result<(), Error>)
        requires
            old(self).wf(),
            old(self)@.transfer_fits(caller, from, to, token_id),
        ensures
            final(self).wf(),
            match old(self)@.transfer_refusal(caller, from, token_id) {
                Some(e) => r == Err::<(), Error>(e) && final(self)@ == old(self)@,
                None => r.is_ok() && final(self)@ == old(self)@.after_transfer(
                    now,
                    from,
                    to,
                    token_id,
                    transfer_stamp(from, to, token_id),
                ),
            },
    {
        let stamp = transfer_fingerprint(&from, &to, token_id);
        self.transfer_from_stamped(caller, now, from, to, token_id, stamp)
    }

    /// Approves `to` to transfer a token. The owner and the owner's
    /// operators may.
    pub fn approve(
        &mut self,
        caller: AccountId,
        to: AccountId,
        token_id: u64,
    ) -> (r: Result<(), Error>)
        requires
            old(self).wf(),
        ensures
            final(self).wf(),
            match old(self)@.approve_refusal(caller, token_id) {
                Some(e) => r == Err::<(), Error>(e) && final(self)@ == old(self)@,
                None => r.is_ok() && final(self)@ == old(self)@.after_approve(to, token_id),
            },
    {
        let at = match self.position(token_id) {
            Some(at) => at,
            None => {
                return Err(Error::TokenNotFound);
            },
        };
        let token_owner = self.tokens[at].owner;
        if token_owner != caller && !self.is_approved_for_all(token_owner, caller) {
            return Err(Error::Unauthorized);
        }
        self.tokens[at].approved = Some(to);
        assert(self@.tokens =~= old(self)@.tokens.update(
            at as int,
            (TokenRecord { approved: Some(to), ..old(self)@.token(token_id) }),
        ));
        self.notify(Event::Approval(Approval { owner: token_owner, spender: to, id: token_id }));
        Ok(())
    }

    /// Sets or unsets `operator` for all tokens of the caller.
    pub fn set_approval_for_all(
        &mut self,
        caller: AccountId,
        operator: AccountId,
        approved: bool,
    ) -> (r: Result<(), Error>)
        requires
            old(self).wf(),
        ensures
            final(self).wf(),
            r.is_ok(),
            final(self)@ == old(self)@.after_set_approval_for_all(caller, operator, approved),
    {
        self.operator_approvals.insert((caller, operator), approved);
        self.notify(Event::ApprovalForAll(ApprovalForAll { owner: caller, operator, approved }));
        Ok(())
    }

    /// The account approved to transfer a token, if any.
    pub fn get_approved(&self, token_id: u64) -> (r: Option<AccountId>)
        requires
            self.wf(),
        ensures
            r == (if self@.has_token(token_id) {
                self@.token(token_id).approved
            } else {
                None
            }),
    {
        match self.position(token_id) {
            Some(at) => self.tokens[at].approved,
            None => None,
        }
    }

    /// The balance of `owner` in `token_id` among `balances`.
    fn balance_among(
        balances: &Table<(AccountId, u64), u128>,
        owner: AccountId,
        token_id: u64,
    ) -> (r: u128)
        requires
            balances.wf(),
        ensures
            r == balance_in(balances@, owner, token_id),
    {
        match balances.get(&(owner, token_id)) {
            Some(balance) => *balance,
            None => 0,
        }
    }

    /// The balances of the accounts in the tokens at the same positions.
    pub fn balance_of_batch(&self, accounts: Vec<AccountId>, ids: Vec<u64>) -> (r: Vec<u128>)
        requires
            self.wf(),
        ensures
            r@ == self@.balances_of(accounts@, ids@),
    {
        let mut balances: Vec<u128> = Vec::new();
        let mut i: usize = 0;
        while i < accounts.len()
            invariant
                self.wf(),
                i <= accounts.len(),
                balances@.len() == i,
                forall|j: int| 0 <= j < i ==> balances@[j] == self@.balances_of(accounts@, ids@)[j],
            decreases accounts.len() - i,
        {
            if i < ids.len() {
                balances.push(Self::balance_among(&self.balances, accounts[i], ids[i]));
            } else {
                balances.push(0);
            }
            i += 1;
        }
        assert(balances@ =~= self@.balances_of(accounts@, ids@));
        balances
    }

    /// Rehearses a batch of balance transfers on a copy of the balances.
    fn rehearse(&self, from: AccountId, to: AccountId, ids: &Vec<u64>, amounts: &Vec<u128>) -> (r:
        Rehearsal)
        requires
            self.wf(),
            ids@.len() == amounts@.len(),
        ensures
            match r {
                Rehearsal::Refused => moved_amounts(
                    self@.balances,
                    from,
                    to,
                    ids@,
                    amounts@,
                    ids@.len(),
                ) is Refused,
                Rehearsal::Overflow => moved_amounts(
                    self@.balances,
                    from,
                    to,
                    ids@,
                    amounts@,
                    ids@.len(),
                ) is Overflow,
                Rehearsal::Moved(balances) => balances.wf() && moved_amounts(
                    self@.balances,
                    from,
                    to,
                    ids@,
                    amounts@,
                    ids@.len(),
                ) == BatchOutcome::Moved(balances@),
            },
    {
        let mut balances = self.balances.duplicate();
        let mut i: usize = 0;
        while i < ids.len()
            invariant
                self.wf(),
                balances.wf(),
                i <= ids.len(),
                ids.len() == amounts.len(),
                moved_amounts(self@.balances, from, to, ids@, amounts@, i as nat)
                    == BatchOutcome::Moved(balances@),
            decreases ids.len() - i,
        {
            proof {
                lemma_batch_outcome_sticks(
                    self@.balances,
                    from,
                    to,
                    ids@,
                    amounts@,
                    (i + 1) as nat,
                    ids@.len(),
                );
            }
            let token_id = ids[i];
            let amount = amounts[i];
            let from_balance = Self::balance_among(&balances, from, token_id);
            if from_balance < amount {
                return Rehearsal::Refused;
            }
            balances.insert((from, token_id), from_balance - amount);
            let to_balance = Self::balance_among(&balances, to, token_id);
            if to_balance > u128::MAX - amount {
                return Rehearsal::Overflow;
            }
            balances.insert((to, token_id), to_balance + amount);
            i += 1;
        }
        Rehearsal::Moved(balances)
    }

    /// Whether every balance that the batch raises stays representable.
    pub fn batch_fits(
        &self,
        caller: AccountId,
        from: AccountId,
        to: AccountId,
        ids: &Vec<u64>,
        amounts: &Vec<u128>,
    ) -> (r: bool)
        requires
            self.wf(),
        ensures
            r == self@.batch_fits(caller, from, to, ids@, amounts@),
    {
        if from != caller && !self.is_approved_for_all(from, caller) {
            return true;
        }
        if ids.len() != amounts.len() {
            return true;
        }
        match self.rehearse(from, to, ids, amounts) {
            Rehearsal::Overflow => false,
            _ => true,
        }
    }

    /// Moves amounts of several tokens from `from` to `to`. The owner of
    /// the balances and its operators may. Either every amount is moved,
    /// or none.
    pub fn safe_batch_transfer_from(
        &mut self,
        caller: AccountId,
        from: AccountId,
        to: AccountId,
        ids: Vec<u64>,
        amounts: Vec<u128>,
        data: Vec<u8>,
    ) -> (r: Result<(), Error>)
        requires
            old(self).wf(),
            old(self)@.batch_fits(caller, from, to, ids@, amounts@),
        ensures
            final(self).wf(),
            match old(self)@.batch_refusal(caller, from, to, ids@, amounts@) {
                Some(e) => r == Err::<(), Error>(e) && final(self)@ == old(self)@,
                None => r.is_ok() && final(self)@ == old(self)@.after_batch(
                    from,
                    to,
                    ids@,
                    amounts@,
                ),
            },
    {
        if from != caller && !self.is_approved_for_all(from, caller) {
            return Err(Error::Unauthorized);
        }
        if ids.len() != amounts.len() {
            return Err(Error::Unauthorized);
        }
        let balances = match self.rehearse(from, to, &ids, &amounts) {
            Rehearsal::Moved(balances) => balances,
            _ => {
                return Err(Error::Unauthorized);
            },
        };
        let ghost moved = balances@;
        self.balances = balances;
        assert(TokenState::batch_events(from, to, ids@.take(0)) =~= Seq::empty());
        assert(self@.events =~= old(self)@.events + TokenState::batch_events(
            from,
            to,
            ids@.take(0),
        ));
        let mut k: usize = 0;
        while k < ids.len()
            invariant
                self.wf(),
                k <= ids.len(),
                self@ == (TokenState {
                    balances: moved,
                    events: old(self)@.events + TokenState::batch_events(from, to, ids@.take(k as int)),
                    ..old(self)@
                }),
            decreases ids.len() - k,
        {
            let ghost before = self@.events;
            self.notify(Event::Transfer(Transfer { from: Some(from), to: Some(to), id: ids[k] }));
            proof {
                assert(ids@.take(k + 1) =~= ids@.take(k as int).push(ids@[k as int]));
                assert(self@.events =~= old(self)@.events + TokenState::batch_events(
                    from,
                    to,
                    ids@.take(k + 1),
                ));
            }
            k += 1;
        }
        assert(ids@.take(ids@.len() as int) =~= ids@);
        Ok(())
    }

    /// The address of the metadata of a token, given the account the
    /// contract is deployed at.
    pub fn uri(&self, contract: AccountId, token_id: u64) -> (r: Option<String>)
        requires
            self.wf(),
        ensures
            match r {
                Some(address) => self@.has_token(token_id) && address@ == TokenState::uri_of(
                    contract,
                    token_id,
                ),
                None => !self@.has_token(token_id),
            },
    {
        match self.position(token_id) {
            Some(_) => Some(
                "ipfs://property/".to_owned().concat(hex_string(&contract.bytes).as_str()).concat(
                    "/",
                ).concat(decimal_string(token_id as u128).as_str()).concat("/metadata.json"),
            ),
            None => None,
        }
    }

    /// Adds `slot` as the next token, counts it and credits its owner with
    /// a balance of one.
    fn mint(&mut self, slot: TokenSlot)
        requires
            old(self).wf(),
            old(self)@.mint_fits(slot.owner),
        ensures
            final(self).wf(),
            final(self)@ == old(self)@.minted(slot@),
    {
        let token_id: u64 = self.tokens.len() as u64 + 1;
        let owner = slot.owner;
        let ghost added = slot@;
        self.tokens.push(slot);
        assert(self@.tokens =~= old(self)@.tokens.push(added));
        self.add_token_to_owner(owner);
        self.balances.insert((owner, token_id), 1);
    }

    /// Registers a property and mints its token for the caller, recording
    /// the minting under the fingerprint `stamp`. Returns the identifier
    /// of the token, which is the identifier of the property too.
    pub fn register_property_with_token_stamped(
        &mut self,
        caller: AccountId,
        now: u64,
        metadata: PropertyMetadata,
        stamp: crate::primitives::Hash,
    ) -> (r: Result<u64, Error>)
        requires
            old(self).wf(),
            old(self)@.mint_fits(caller),
        ensures
            final(self).wf(),
            r == Ok::<u64, Error>(old(self)@.next_token_id()),
            final(self)@ == old(self)@.after_register(caller, now, metadata@, stamp),
    {
        let token_id: u64 = self.tokens.len() as u64 + 1;
        let mut history: Vec<OwnershipTransfer> = Vec::new();
        history.push(
            OwnershipTransfer {
                from: AccountId::zeroed(),
                to: caller,
                timestamp: now,
                transaction_hash: stamp,
            },
        );
        let slot = TokenSlot {
            owner: caller,
            approved: None,
            property: PropertyInfo { id: token_id, owner: caller, metadata, registered_at: now },
            history,
            compliance: ComplianceInfo {
                verified: false,
                verification_date: 0,
                verifier: AccountId::zeroed(),
                compliance_type: "KYC".to_owned(),
            },
            documents: Vec::new(),
        };
        proof {
            assert(slot@.history =~= seq![TokenState::minting(caller, now, stamp)]);
            assert(slot@.documents =~= Seq::empty());
        }
        self.mint(slot);
        self.notify(
            Event::PropertyTokenMinted(
                PropertyTokenMinted { token_id, property_id: token_id, owner: caller },
            ),
        );
        Ok(token_id)
    }

    /// Registers a property and mints its token for the caller.
    pub fn register_property_with_token(
        &mut self,
        caller: AccountId,
        now: u64,
        metadata: PropertyMetadata,
    ) -> (r: Result<u64, Error>)
        requires
            old(self).wf(),
            old(self)@.mint_fits(caller),
        ensures
            final(self).wf(),
            r == Ok::<u64, Error>(old(self)@.next_token_id()),
            final(self)@ == old(self)@.after_register(
                caller,
                now,
                metadata@,
                transfer_stamp(AccountId::zero(), caller, old(self)@.next_token_id()),
            ),
    {
        let token_id: u64 = self.tokens.len() as u64 + 1;
        let stamp = transfer_fingerprint(&AccountId::zeroed(), &caller, token_id);
        self.register_property_with_token_stamped(caller, now, metadata, stamp)
    }

    /// Attaches a legal document to a token. Only its owner may.
    pub fn attach_legal_document(
        &mut self,
        caller: AccountId,
        now: u64,
        token_id: u64,
        document_hash: crate::primitives::Hash,
        document_type: String,
    ) -> (r: Result<(), Error>)
        requires
            old(self).wf(),
        ensures
            final(self).wf(),
            match old(self)@.owner_refusal(caller, token_id) {
                Some(e) => r == Err::<(), Error>(e) && final(self)@ == old(self)@,
                None => r.is_ok() && final(self)@ == old(self)@.after_attach(
                    caller,
                    now,
                    token_id,
                    document_hash,
                    document_type@,
                ),
            },
    {
        let at = match self.position(token_id) {
            Some(at) => at,
            None => {
                return Err(Error::TokenNotFound);
            },
        };
        if self.tokens[at].owner != caller {
            return Err(Error::Unauthorized);
        }
        let document = DocumentInfo {
            document_hash,
            document_type: document_type.clone(),
            upload_date: now,
            uploader: caller,
        };
        let ghost added = document@;
        self.tokens[at].documents.push(document);
        proof {
            let t = old(self)@.token(token_id);
            assert(self.tokens@[at as int]@.documents =~= t.documents.push(added));
            assert(self@.tokens =~= old(self)@.tokens.update(
                at as int,
                (TokenRecord { documents: t.documents.push(added), ..t }),
            ));
        }
        self.notify(
            Event::LegalDocumentAttached(
                LegalDocumentAttached { token_id, document_hash, document_type },
            ),
        );
        Ok(())
    }

    /// Whether `who` is a bridge operator.
    pub fn is_bridge_operator(&self, who: AccountId) -> (r: bool)
        ensures
            r == self@.is_bridge_operator(who),
    {
        contains_account(&self.bridge_operators, who)
    }

    /// Records whether a token passes compliance. The administrator and
    /// the bridge operators may.
    pub fn verify_compliance(
        &mut self,
        caller: AccountId,
        now: u64,
        token_id: u64,
        verification_status: bool,
    ) -> (r: Result<(), Error>)
        requires
            old(self).wf(),
        ensures
            final(self).wf(),
            match old(self)@.verify_refusal(caller, token_id) {
                Some(e) => r == Err::<(), Error>(e) && final(self)@ == old(self)@,
                None => r.is_ok() && final(self)@ == old(self)@.after_verify(
                    caller,
                    now,
                    token_id,
                    verification_status,
                ),
            },
    {
        if caller != self.admin && !self.is_bridge_operator(caller) {
            return Err(Error::Unauthorized);
        }
        let at = match self.position(token_id) {
            Some(at) => at,
            None => {
                return Err(Error::TokenNotFound);
            },
        };
        let compliance = &mut self.tokens[at].compliance;
        compliance.verified = verification_status;
        compliance.verification_date = now;
        compliance.verifier = caller;
        proof {
            assert(self@.tokens =~= old(self)@.after_verify(
                caller,
                now,
                token_id,
                verification_status,
            ).tokens);
        }
        self.notify(
            Event::ComplianceVerified(
                ComplianceVerified { token_id, verified: verification_status, verifier: caller },
            ),
        );
        Ok(())
    }

    /// The compliance record of a token.
    pub fn get_compliance(&self, token_id: u64) -> (r: Option<ComplianceInfo>)
        requires
            self.wf(),
        ensures
            match r {
                Some(info) => self@.has_token(token_id) && info@ == self@.token(token_id).compliance,
                None => !self@.has_token(token_id),
            },
    {
        match self.position(token_id) {
            Some(at) => Some(copy_compliance(&self.tokens[at].compliance)),
            None => None,
        }
    }

    /// Every change of ownership of a token, oldest first.
    pub fn get_ownership_history(&self, token_id: u64) -> (r: Option<Vec<OwnershipTransfer>>)
        requires
            self.wf(),
        ensures
            match r {
                Some(history) => self@.has_token(token_id) && history@ == self@.token(
                    token_id,
                ).history,
                None => !self@.has_token(token_id),
            },
    {
        match self.position(token_id) {
            Some(at) => Some(copy_history(&self.tokens[at].history)),
            None => None,
        }
    }

    /// Locks a token for bridging to another chain. Only its owner may,
    /// and only once its compliance is verified.
    pub fn bridge_to_chain(
        &mut self,
        caller: AccountId,
        now: u64,
        destination_chain: u64,
        token_id: u64,
        recipient: AccountId,
    ) -> (r: Result<(), Error>)
        requires
            old(self).wf(),
        ensures
            final(self).wf(),
            match old(self)@.bridge_refusal(caller, token_id) {
                Some(e) => r == Err::<(), Error>(e) && final(self)@ == old(self)@,
                None => r.is_ok() && final(self)@ == old(self)@.after_bridge(
                    now,
                    destination_chain,
                    token_id,
                    recipient,
                ),
            },
    {
        let at = match self.position(token_id) {
            Some(at) => at,
            None => {
                return Err(Error::TokenNotFound);
            },
        };
        let token_owner = self.tokens[at].owner;
        if token_owner != caller {
            return Err(Error::Unauthorized);
        }
        if !self.tokens[at].compliance.verified {
            return Err(Error::ComplianceFailed);
        }
        self.balances.insert((token_owner, token_id), 0);
        self.tokens[at].owner = AccountId::zeroed();
        self.bridged_tokens.insert(
            (destination_chain, token_id),
            BridgedTokenInfo {
                original_chain: HOME_CHAIN,
                original_token_id: token_id,
                destination_chain,
                destination_token_id: token_id,
                bridged_at: now,
                status: BridgingStatus::Locked,
            },
        );
        proof {
            assert(self@.tokens =~= old(self)@.after_bridge(
                now,
                destination_chain,
                token_id,
                recipient,
            ).tokens);
        }
        self.notify(Event::TokenBridged(TokenBridged { token_id, destination_chain, recipient }));
        Ok(())
    }

    /// Mints a token for one bridged in from `source_chain`, recording the
    /// minting under the fingerprint `stamp`. Only bridge operators may.
    pub fn receive_bridged_token_stamped(
        &mut self,
        caller: AccountId,
        now: u64,
        source_chain: u64,
        original_token_id: u64,
        recipient: AccountId,
        stamp: crate::primitives::Hash,
    ) -> (r: Result<(), Error>)
        requires
            old(self).wf(),
            old(self)@.receive_fits(caller, recipient),
        ensures
            final(self).wf(),
            match old(self)@.receive_refusal(caller) {
                Some(e) => r == Err::<(), Error>(e) && final(self)@ == old(self)@,
                None => r.is_ok() && final(self)@ == old(self)@.after_receive(
                    caller,
                    now,
                    source_chain,
                    original_token_id,
                    recipient,
                    stamp,
                ),
            },
    {
        if !self.is_bridge_operator(caller) {
            return Err(Error::Unauthorized);
        }
        let new_token_id: u64 = self.tokens.len() as u64 + 1;
        let mut history: Vec<OwnershipTransfer> = Vec::new();
        history.push(
            OwnershipTransfer {
                from: AccountId::zeroed(),
                to: recipient,
                timestamp: now,
                transaction_hash: stamp,
            },
        );
        let slot = match self.position(original_token_id) {
            Some(at) => {
                let original = &self.tokens[at];
                TokenSlot {
                    owner: recipient,
                    approved: None,
                    property: PropertyInfo {
                        id: original.property.id,
                        owner: recipient,
                        metadata: copy_metadata(&original.property.metadata),
                        registered_at: original.property.registered_at,
                    },
                    history,
                    compliance: copy_compliance(&original.compliance),
                    documents: copy_documents(&original.documents),
                }
            },
            None => TokenSlot {
                owner: recipient,
                approved: None,
                property: PropertyInfo {
                    id: new_token_id,
                    owner: recipient,
                    metadata: PropertyMetadata {
                        location: "Bridged Property".to_owned(),
                        size: 0,
                        legal_description: "Property bridged from another chain".to_owned(),
                        valuation: 0,
                        documents_url: String::new(),
                    },
                    registered_at: now,
                },
                history,
                compliance: ComplianceInfo {
                    verified: true,
                    verification_date: now,
                    verifier: caller,
                    compliance_type: "Bridge".to_owned(),
                },
                documents: Vec::new(),
            },
        };
        proof {
            let want = old(self)@.received_token(caller, now, original_token_id, recipient, stamp);
            assert(slot@.history =~= want.history);
            assert(slot@.documents =~= want.documents);
            assert(slot@ == want);
        }
        self.mint(slot);
        match self.bridged_tokens.get(&(source_chain, original_token_id)) {
            Some(info) => {
                let mut info = *info;
                info.status = BridgingStatus::Completed;
                info.destination_token_id = new_token_id;
                self.bridged_tokens.insert((source_chain, original_token_id), info);
            },
            None => {},
        }
        self.notify(Event::Transfer(Transfer { from: None, to: Some(recipient), id: new_token_id }));
        Ok(())
    }

    /// Mints a token for one bridged in from `source_chain`.
    pub fn receive_bridged_token(
        &mut self,
        caller: AccountId,
        now: u64,
        source_chain: u64,
        original_token_id: u64,
        recipient: AccountId,
    ) -> (r: Result<(), Error>)
        requires
            old(self).wf(),
            old(self)@.receive_fits(caller, recipient),
        ensures
            final(self).wf(),
            match old(self)@.receive_refusal(caller) {
                Some(e) => r == Err::<(), Error>(e) && final(self)@ == old(self)@,
                None => r.is_ok() && final(self)@ == old(self)@.after_receive(
                    caller,
                    now,
                    source_chain,
                    original_token_id,
                    recipient,
                    transfer_stamp(AccountId::zero(), recipient, old(self)@.next_token_id()),
                ),
            },
    {
        if !self.is_bridge_operator(caller) {
            return Err(Error::Unauthorized);
        }
        let new_token_id: u64 = self.tokens.len() as u64 + 1;
        let stamp = transfer_fingerprint(&AccountId::zeroed(), &recipient, new_token_id);
        self.receive_bridged_token_stamped(
            caller,
            now,
            source_chain,
            original_token_id,
            recipient,
            stamp,
        )
    }

    /// What is known of the bridging of a token to or from a chain.
    pub fn get_bridged_token(&self, chain: u64, token_id: u64) -> (r: Option<BridgedTokenInfo>)
        requires
            self.wf(),
        ensures
            match r {
                Some(info) => self@.bridged_tokens.contains_key((chain, token_id)) && info
                    == self@.bridged_tokens[(chain, token_id)],
                None => !self@.bridged_tokens.contains_key((chain, token_id)),
            },
    {
        match self.bridged_tokens.get(&(chain, token_id)) {
            Some(info) => Some(*info),
            None => None,
        }
    }

    /// Makes `operator` a bridge operator, if it is none yet. Only the
    /// administrator may.
    pub fn add_bridge_operator(&mut self, caller: AccountId, operator: AccountId) -> (r: Result<
        (),
        Error,
    >)
        requires
            old(self).wf(),
        ensures
            final(self).wf(),
            match old(self)@.admin_refusal(caller) {
                Some(e) => r == Err::<(), Error>(e) && final(self)@ == old(self)@,
                None => r.is_ok() && final(self)@ == old(self)@.after_add_operator(operator),
            },
    {
        if caller != self.admin {
            return Err(Error::Unauthorized);
        }
        if !contains_account(&self.bridge_operators, operator) {
            self.bridge_operators.push(operator);
        }
        Ok(())
    }

    /// Dismisses a bridge operator. Only the administrator may.
    pub fn remove_bridge_operator(&mut self, caller: AccountId, operator: AccountId) -> (r: Result<
        (),
        Error,
    >)
        requires
            old(self).wf(),
        ensures
            final(self).wf(),
            match old(self)@.admin_refusal(caller) {
                Some(e) => r == Err::<(), Error>(e) && final(self)@ == old(self)@,
                None => r.is_ok() && final(self)@ == old(self)@.after_remove_operator(operator),
            },
    {
        if caller != self.admin {
            return Err(Error::Unauthorized);
        }
        let ghost keep = TokenState::other_than(operator);
        let mut kept: Vec<AccountId> = Vec::new();
        let mut i: usize = 0;
        assert(self.bridge_operators@.take(0).filter(keep) =~= Seq::empty()) by {
            reveal(Seq::filter);
        }
        while i < self.bridge_operators.len()
            invariant
                *self == *old(self),
                i <= self.bridge_operators.len(),
                keep == TokenState::other_than(operator),
                kept@ == self.bridge_operators@.take(i as int).filter(keep),
            decreases self.bridge_operators.len() - i,
        {
            proof {
                let all = self.bridge_operators@;
                assert(all.take(i + 1) =~= all.take(i as int).push(all[i as int]));
                all.take(i as int).lemma_filter_push(all[i as int], keep);
            }
            if self.bridge_operators[i] != operator {
                kept.push(self.bridge_operators[i]);
            }
            i += 1;
        }
        assert(self.bridge_operators@.take(self.bridge_operators@.len() as int)
            =~= self.bridge_operators@);
        self.bridge_operators = kept;
        Ok(())
    }

    /// How many tokens have been minted.
    pub fn total_supply(&self) -> (r: u64)
        requires
            self.wf(),
        ensures
            r == self@.tokens.len(),
    {
        self.tokens.len() as u64
    }

    /// The identifier of the token minted last; zero if there is none.
    pub fn current_token_id(&self) -> (r: u64)
        requires
            self.wf(),
        ensures
            r == self@.tokens.len(),
    {
        self.tokens.len() as u64
    }

    /// The administrator.
    pub fn admin(&self) -> (r: AccountId)
        ensures
            r == self@.admin,
    {
        self.admin
    }

    /// Hands over the queued notifications, oldest first, and empties the
    /// queue.
    pub fn take_events(&mut self) -> (r: Vec<Event>)
        requires
            old(self).wf(),
        ensures
            final(self).wf(),
            views(r@) == old(self)@.events,
            final(self)@ == (TokenState { events: Seq::empty(), ..old(self)@ }),
    {
        let mut taken: Vec<Event> = Vec::new();
        core::mem::swap(&mut self.events, &mut taken);
        assert(self@.events =~= Seq::empty());
        taken
    }
}

/// Once a batch is refused or overflows, it stays so however many more
/// amounts are considered.
proof fn lemma_batch_outcome_sticks(
    balances: Map<(AccountId, u64), u128>,
    from: AccountId,
    to: AccountId,
    ids: Seq<u64>,
    amounts: Seq<u128>,
    n: nat,
    m: nat,
)
    requires
        n <= m,
    ensures
        !(moved_amounts(balances, from, to, ids, amounts, n) is Moved) ==> moved_amounts(
            balances,
            from,
            to,
            ids,
            amounts,
            m,
        ) == moved_amounts(balances, from, to, ids, amounts, n),
    decreases m,
{
    if n < m {
        lemma_batch_outcome_sticks(balances, from, to, ids, amounts, n, (m - 1) as nat);
    }
}

} // verus!
