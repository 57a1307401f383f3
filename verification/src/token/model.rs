//! The mathematical model of the property token.

use vstd::prelude::*;
use crate::primitives::AccountId;
use crate::traits::{PropertyInfoView, PropertyMetadataView};
use crate::token::types::{
    Approval, ApprovalForAll, BridgedTokenInfo, BridgingStatus, ComplianceInfoView,
    ComplianceVerified, DocumentInfoView, Error, EventView, LegalDocumentAttachedView,
    OwnershipTransfer, PropertyTokenMinted, TokenBridged, Transfer,
};

verus! {

/// The identifier of the chain the token lives on.
pub const HOME_CHAIN: u64 = 1;

/// The Blake2 256-bit hash of the SCALE encoding of the triple of the
/// bytes of `from`, the bytes of `to`, and `token_id`.
pub uninterp spec fn blake2x256_of_transfer(
    from: [u8; 32],
    to: [u8; 32],
    token_id: u64,
) -> [u8; 32];

/// The fingerprint under which a change of ownership is recorded.
pub open spec fn transfer_stamp(
    from: AccountId,
    to: AccountId,
    token_id: u64,
) -> crate::primitives::Hash {
    crate::primitives::Hash { bytes: blake2x256_of_transfer(from.bytes, to.bytes, token_id) }
}

/// Everything the contract keeps for one token.
pub struct TokenRecord {
    /// The owner; the zero account while the token is locked for bridging.
    pub owner: AccountId,
    /// The account approved to transfer the token, if any.
    pub approved: Option<AccountId>,
    pub property: PropertyInfoView,
    /// Every change of ownership, oldest first, from the minting on.
    pub history: Seq<OwnershipTransfer>,
    pub compliance: ComplianceInfoView,
    pub documents: Seq<DocumentInfoView>,
}

/// How a batch of balance transfers ends.
pub enum BatchOutcome {
    /// A balance did not cover its amount.
    Refused,
    /// A balance would have exceeded what can be represented.
    Overflow,
    /// Every amount was moved; these are the balances after.
    Moved(Map<(AccountId, u64), u128>),
}

/// The balance of `owner` in `token_id`; zero where none is recorded.
pub open spec fn balance_in(
    balances: Map<(AccountId, u64), u128>,
    owner: AccountId,
    token_id: u64,
) -> u128 {
    if balances.contains_key((owner, token_id)) {
        balances[(owner, token_id)]
    } else {
        0
    }
}

/// Moves `amount` of `token_id` from `from` to `to`. The sender is
/// debited first, so moving to oneself changes nothing.
pub open spec fn moved_amount(
    balances: Map<(AccountId, u64), u128>,
    from: AccountId,
    to: AccountId,
    token_id: u64,
    amount: u128,
) -> BatchOutcome {
    if balance_in(balances, from, token_id) < amount {
        BatchOutcome::Refused
    } else {
        let debited = balances.insert(
            (from, token_id),
            (balance_in(balances, from, token_id) - amount) as u128,
        );
        if balance_in(debited, to, token_id) + amount > u128::MAX {
            BatchOutcome::Overflow
        } else {
            BatchOutcome::Moved(
                debited.insert((to, token_id), (balance_in(debited, to, token_id) + amount) as u128),
            )
        }
    }
}

/// Moves the first `n` amounts, one after the other, stopping at the first
/// that cannot be moved.
pub open spec fn moved_amounts(
    balances: Map<(AccountId, u64), u128>,
    from: AccountId,
    to: AccountId,
    ids: Seq<u64>,
    amounts: Seq<u128>,
    n: nat,
) -> BatchOutcome
    decreases n,
{
    if n == 0 {
        BatchOutcome::Moved(balances)
    } else {
        match moved_amounts(balances, from, to, ids, amounts, (n - 1) as nat) {
            BatchOutcome::Moved(before) => moved_amount(
                before,
                from,
                to,
                ids[n - 1],
                amounts[n - 1],
            ),
            other => other,
        }
    }
}

/// The whole contract.
pub struct TokenState {
    pub admin: AccountId,
    /// The token with identifier `id` is at index `id - 1`.
    pub tokens: Seq<TokenRecord>,
    /// How many tokens each account holds.
    pub owner_token_count: Map<AccountId, u32>,
    /// Whether an operator acts for all tokens of an owner, by the pair of
    /// owner and operator.
    pub operator_approvals: Map<(AccountId, AccountId), bool>,
    /// The balance of each account in each token.
    pub balances: Map<(AccountId, u64), u128>,
    /// What is known of a bridging, by the pair of chain and token.
    pub bridged_tokens: Map<(u64, u64), BridgedTokenInfo>,
    pub bridge_operators: Seq<AccountId>,
    /// Notifications queued and not yet taken by the host, oldest first.
    pub events: Seq<EventView>,
}

impl TokenState {
    // ---- reading -----------------------------------------------------------

    /// Whether a token with this identifier exists.
    pub open spec fn has_token(self, token_id: u64) -> bool {
        1 <= token_id <= self.tokens.len()
    }

    /// The token with this identifier.
    pub open spec fn token(self, token_id: u64) -> TokenRecord
        recommends
            self.has_token(token_id),
    {
        self.tokens[token_id - 1]
    }

    /// How many tokens `owner` holds.
    pub open spec fn balance_of(self, owner: AccountId) -> u32 {
        if self.owner_token_count.contains_key(owner) {
            self.owner_token_count[owner]
        } else {
            0
        }
    }

    /// Whether `operator` acts for all tokens of `owner`.
    pub open spec fn is_approved_for_all(self, owner: AccountId, operator: AccountId) -> bool {
        self.operator_approvals.contains_key((owner, operator)) && self.operator_approvals[(
            owner,
            operator,
        )]
    }

    /// Whether `who` is a bridge operator.
    pub open spec fn is_bridge_operator(self, who: AccountId) -> bool {
        self.bridge_operators.contains(who)
    }

    /// The invariant of the contract.
    pub open spec fn wf(self) -> bool {
        self.tokens.len() <= u64::MAX
    }

    /// The contract as created by `admin`, who is its first bridge
    /// operator.
    pub open spec fn initial(admin: AccountId) -> TokenState {
        TokenState {
            admin,
            tokens: Seq::empty(),
            owner_token_count: Map::empty(),
            operator_approvals: Map::empty(),
            balances: Map::empty(),
            bridged_tokens: Map::empty(),
            bridge_operators: seq![admin],
            events: Seq::empty(),
        }
    }

    // ---- building blocks ---------------------------------------------------

    /// The contract with one more notification.
    pub open spec fn notified(self, event: EventView) -> TokenState {
        TokenState { events: self.events.push(event), ..self }
    }

    /// The contract with token `token_id` replaced.
    pub open spec fn with_token(self, token_id: u64, token: TokenRecord) -> TokenState {
        TokenState { tokens: self.tokens.update(token_id - 1, token), ..self }
    }

    /// The contract with one more token counted for `owner`.
    pub open spec fn counted(self, owner: AccountId) -> TokenState {
        TokenState {
            owner_token_count: self.owner_token_count.insert(
                owner,
                (self.balance_of(owner) + 1) as u32,
            ),
            ..self
        }
    }

    /// The contract with one token less counted for `owner`.
    pub open spec fn discounted(self, owner: AccountId) -> TokenState {
        TokenState {
            owner_token_count: self.owner_token_count.insert(
                owner,
                (self.balance_of(owner) - 1) as u32,
            ),
            ..self
        }
    }

    /// The record of minting a token for `owner`.
    pub open spec fn minting(
        owner: AccountId,
        now: u64,
        stamp: crate::primitives::Hash,
    ) -> OwnershipTransfer {
        OwnershipTransfer {
            from: AccountId::zero(),
            to: owner,
            timestamp: now,
            transaction_hash: stamp,
        }
    }

    /// The identifier the next token gets.
    pub open spec fn next_token_id(self) -> u64 {
        (self.tokens.len() + 1) as u64
    }

    /// Whether one more token can be minted for `owner`.
    pub open spec fn mint_fits(self, owner: AccountId) -> bool {
        self.tokens.len() < u64::MAX && self.balance_of(owner) < u32::MAX
    }

    // ---- transfers ---------------------------------------------------------

    /// A transfer is refused for an unknown token; unless `from` owns it;
    /// to a caller who is neither `from`, nor approved for the token, nor
    /// an operator of `from`; and where no token is counted for `from`.
    pub open spec fn transfer_refusal(
        self,
        caller: AccountId,
        from: AccountId,
        token_id: u64,
    ) -> Option<Error> {
        if !self.has_token(token_id) {
            Some(Error::TokenNotFound)
        } else if self.token(token_id).owner != from {
            Some(Error::Unauthorized)
        } else if caller != from && self.token(token_id).approved != Some(caller)
            && !self.is_approved_for_all(from, caller) {
            Some(Error::Unauthorized)
        } else if self.balance_of(from) == 0 {
            Some(Error::TokenNotFound)
        } else {
            None
        }
    }

    /// Whether the count of `to` can take the token.
    pub open spec fn transfer_fits(
        self,
        caller: AccountId,
        from: AccountId,
        to: AccountId,
        token_id: u64,
    ) -> bool {
        self.transfer_refusal(caller, from, token_id).is_none() ==> self.discounted(
            from,
        ).balance_of(to) < u32::MAX
    }

    /// The token goes to `to`, its approval is used up, and the change is
    /// added to its history under `stamp`.
    pub open spec fn after_transfer(
        self,
        now: u64,
        from: AccountId,
        to: AccountId,
        token_id: u64,
        stamp: crate::primitives::Hash,
    ) -> TokenState {
        let t = self.token(token_id);
        self.discounted(from).counted(to).with_token(
            token_id,
            TokenRecord {
                owner: to,
                approved: None,
                history: t.history.push(
                    OwnershipTransfer { from, to, timestamp: now, transaction_hash: stamp },
                ),
                ..t
            },
        ).notified(EventView::Transfer(Transfer { from: Some(from), to: Some(to), id: token_id }))
    }

    /// An approval is refused for an unknown token, and to a caller who is
    /// neither its owner nor an operator of its owner.
    pub open spec fn approve_refusal(self, caller: AccountId, token_id: u64) -> Option<Error> {
        if !self.has_token(token_id) {
            Some(Error::TokenNotFound)
        } else if self.token(token_id).owner != caller && !self.is_approved_for_all(
            self.token(token_id).owner,
            caller,
        ) {
            Some(Error::Unauthorized)
        } else {
            None
        }
    }

    /// The contract after an approval, which is notified.
    pub open spec fn after_approve(self, to: AccountId, token_id: u64) -> TokenState {
        let t = self.token(token_id);
        self.with_token(token_id, TokenRecord { approved: Some(to), ..t }).notified(
            EventView::Approval(Approval { owner: t.owner, spender: to, id: token_id }),
        )
    }

    /// The contract after an operator was set or unset, which is notified.
    pub open spec fn after_set_approval_for_all(
        self,
        caller: AccountId,
        operator: AccountId,
        approved: bool,
    ) -> TokenState {
        TokenState {
            operator_approvals: self.operator_approvals.insert((caller, operator), approved),
            ..self
        }.notified(
            EventView::ApprovalForAll(ApprovalForAll { owner: caller, operator, approved }),
        )
    }

    /// Whether `caller` may move balances of `from`.
    pub open spec fn may_move(self, caller: AccountId, from: AccountId) -> bool {
        from == caller || self.is_approved_for_all(from, caller)
    }

    /// A batch transfer is refused, always as `Unauthorized`, to a caller
    /// who may not move the balances of `from`, for lists of different
    /// lengths, and where a balance does not cover its amount.
    pub open spec fn batch_refusal(
        self,
        caller: AccountId,
        from: AccountId,
        to: AccountId,
        ids: Seq<u64>,
        amounts: Seq<u128>,
    ) -> Option<Error> {
        if !self.may_move(caller, from) || ids.len() != amounts.len() || moved_amounts(
            self.balances,
            from,
            to,
            ids,
            amounts,
            ids.len(),
        ) is Refused {
            Some(Error::Unauthorized)
        } else {
            None
        }
    }

    /// Whether every balance the batch raises stays representable.
    pub open spec fn batch_fits(
        self,
        caller: AccountId,
        from: AccountId,
        to: AccountId,
        ids: Seq<u64>,
        amounts: Seq<u128>,
    ) -> bool {
        self.may_move(caller, from) && ids.len() == amounts.len() ==> !(moved_amounts(
            self.balances,
            from,
            to,
            ids,
            amounts,
            ids.len(),
        ) is Overflow)
    }

    /// The notifications of a batch transfer: one per token, in order.
    pub open spec fn batch_events(from: AccountId, to: AccountId, ids: Seq<u64>) -> Seq<EventView> {
        ids.map_values(
            |id: u64| EventView::Transfer(Transfer { from: Some(from), to: Some(to), id }),
        )
    }

    /// The contract after a batch transfer: the balances are moved, and one
    /// notification per token is queued.
    pub open spec fn after_batch(
        self,
        from: AccountId,
        to: AccountId,
        ids: Seq<u64>,
        amounts: Seq<u128>,
    ) -> TokenState {
        TokenState {
            balances: moved_amounts(
                self.balances,
                from,
                to,
                ids,
                amounts,
                ids.len(),
            )->Moved_0,
            events: self.events + Self::batch_events(from, to, ids),
            ..self
        }
    }

    /// The balances of the accounts in the tokens at the same positions;
    /// zero where there is no token at the position of an account.
    pub open spec fn balances_of(self, accounts: Seq<AccountId>, ids: Seq<u64>) -> Seq<u128> {
        Seq::new(
            accounts.len(),
            |i: int|
                if i < ids.len() {
                    balance_in(self.balances, accounts[i], ids[i])
                } else {
                    0
                },
        )
    }

    // ---- minting -----------------------------------------------------------

    /// The compliance of a freshly minted token: not verified.
    pub open spec fn unverified() -> ComplianceInfoView {
        ComplianceInfoView {
            verified: false,
            verification_date: 0,
            verifier: AccountId::zero(),
            compliance_type: "KYC"@,
        }
    }

    /// The contract with `token` added as the next token, counted and
    /// credited with a balance of one for its owner.
    pub open spec fn minted(self, token: TokenRecord) -> TokenState {
        let id = self.next_token_id();
        TokenState {
            tokens: self.tokens.push(token),
            balances: self.balances.insert((token.owner, id), 1),
            ..self.counted(token.owner)
        }
    }

    /// The contract after a registration: the token is minted for the
    /// caller, unverified, with the minting as its history.
    pub open spec fn after_register(
        self,
        caller: AccountId,
        now: u64,
        metadata: PropertyMetadataView,
        stamp: crate::primitives::Hash,
    ) -> TokenState {
        let id = self.next_token_id();
        self.minted(
            TokenRecord {
                owner: caller,
                approved: None,
                property: PropertyInfoView { id, owner: caller, metadata, registered_at: now },
                history: seq![Self::minting(caller, now, stamp)],
                compliance: Self::unverified(),
                documents: Seq::empty(),
            },
        ).notified(
            EventView::PropertyTokenMinted(
                PropertyTokenMinted { token_id: id, property_id: id, owner: caller },
            ),
        )
    }

    // ---- documents and compliance ------------------------------------------

    /// Only the owner of a token acts on it.
    pub open spec fn owner_refusal(self, caller: AccountId, token_id: u64) -> Option<Error> {
        if !self.has_token(token_id) {
            Some(Error::TokenNotFound)
        } else if self.token(token_id).owner != caller {
            Some(Error::Unauthorized)
        } else {
            None
        }
    }

    /// The contract after a document was attached to a token.
    pub open spec fn after_attach(
        self,
        caller: AccountId,
        now: u64,
        token_id: u64,
        document_hash: crate::primitives::Hash,
        document_type: Seq<char>,
    ) -> TokenState {
        let t = self.token(token_id);
        self.with_token(
            token_id,
            TokenRecord {
                documents: t.documents.push(
                    DocumentInfoView {
                        document_hash,
                        document_type,
                        upload_date: now,
                        uploader: caller,
                    },
                ),
                ..t
            },
        ).notified(
            EventView::LegalDocumentAttached(
                LegalDocumentAttachedView { token_id, document_hash, document_type },
            ),
        )
    }

    /// Compliance is verified by the administrator and by bridge operators.
    pub open spec fn verify_refusal(self, caller: AccountId, token_id: u64) -> Option<Error> {
        if caller != self.admin && !self.is_bridge_operator(caller) {
            Some(Error::Unauthorized)
        } else if !self.has_token(token_id) {
            Some(Error::TokenNotFound)
        } else {
            None
        }
    }

    /// The contract after the compliance of a token was recorded.
    pub open spec fn after_verify(
        self,
        caller: AccountId,
        now: u64,
        token_id: u64,
        verification_status: bool,
    ) -> TokenState {
        let t = self.token(token_id);
        self.with_token(
            token_id,
            TokenRecord {
                compliance: ComplianceInfoView {
                    verified: verification_status,
                    verification_date: now,
                    verifier: caller,
                    ..t.compliance
                },
                ..t
            },
        ).notified(
            EventView::ComplianceVerified(
                ComplianceVerified { token_id, verified: verification_status, verifier: caller },
            ),
        )
    }

    // ---- bridging ----------------------------------------------------------

    /// Bridging is refused for an unknown token, to a caller who does not
    /// own it, and for a token whose compliance is not verified.
    pub open spec fn bridge_refusal(self, caller: AccountId, token_id: u64) -> Option<Error> {
        if !self.has_token(token_id) {
            Some(Error::TokenNotFound)
        } else if self.token(token_id).owner != caller {
            Some(Error::Unauthorized)
        } else if !self.token(token_id).compliance.verified {
            Some(Error::ComplianceFailed)
        } else {
            None
        }
    }

    /// The token is locked: its owner's balance in it drops to zero and
    /// the zero account owns it for the time being.
    pub open spec fn after_bridge(
        self,
        now: u64,
        destination_chain: u64,
        token_id: u64,
        recipient: AccountId,
    ) -> TokenState {
        let t = self.token(token_id);
        TokenState {
            balances: self.balances.insert((t.owner, token_id), 0),
            bridged_tokens: self.bridged_tokens.insert(
                (destination_chain, token_id),
                BridgedTokenInfo {
                    original_chain: HOME_CHAIN,
                    original_token_id: token_id,
                    destination_chain,
                    destination_token_id: token_id,
                    bridged_at: now,
                    status: BridgingStatus::Locked,
                },
            ),
            ..self.with_token(token_id, TokenRecord { owner: AccountId::zero(), ..t })
        }.notified(EventView::TokenBridged(TokenBridged { token_id, destination_chain, recipient }))
    }

    /// Only bridge operators receive bridged tokens.
    pub open spec fn receive_refusal(self, caller: AccountId) -> Option<Error> {
        if !self.is_bridge_operator(caller) {
            Some(Error::Unauthorized)
        } else {
            None
        }
    }

    /// Whether a token can be minted for `recipient`, if `caller` may
    /// receive bridged tokens at all.
    pub open spec fn receive_fits(self, caller: AccountId, recipient: AccountId) -> bool {
        self.receive_refusal(caller).is_none() ==> self.mint_fits(recipient)
    }

    /// What is recorded about a property that arrives without a record.
    pub open spec fn bridged_metadata() -> PropertyMetadataView {
        PropertyMetadataView {
            location: "Bridged Property"@,
            size: 0,
            legal_description: "Property bridged from another chain"@,
            valuation: 0,
            documents_url: Seq::empty(),
        }
    }

    /// The token minted for a bridged token: where a token with the
    /// original identifier exists here, its property record (with the new
    /// owner), its compliance and its documents are taken over; otherwise
    /// the token gets a stand-in record and counts as verified by the
    /// bridge.
    pub open spec fn received_token(
        self,
        caller: AccountId,
        now: u64,
        original_token_id: u64,
        recipient: AccountId,
        stamp: crate::primitives::Hash,
    ) -> TokenRecord {
        let history = seq![Self::minting(recipient, now, stamp)];
        if self.has_token(original_token_id) {
            let original = self.token(original_token_id);
            TokenRecord {
                owner: recipient,
                approved: None,
                property: PropertyInfoView { owner: recipient, ..original.property },
                history,
                compliance: original.compliance,
                documents: original.documents,
            }
        } else {
            TokenRecord {
                owner: recipient,
                approved: None,
                property: PropertyInfoView {
                    id: self.next_token_id(),
                    owner: recipient,
                    metadata: Self::bridged_metadata(),
                    registered_at: now,
                },
                history,
                compliance: ComplianceInfoView {
                    verified: true,
                    verification_date: now,
                    verifier: caller,
                    compliance_type: "Bridge"@,
                },
                documents: Seq::empty(),
            }
        }
    }

    /// The contract after a bridged token was received: a token is minted
    /// for the recipient, and the bridging, if it is on record, is completed.
    pub open spec fn after_receive(
        self,
        caller: AccountId,
        now: u64,
        source_chain: u64,
        original_token_id: u64,
        recipient: AccountId,
        stamp: crate::primitives::Hash,
    ) -> TokenState {
        let id = self.next_token_id();
        let minted = self.minted(
            self.received_token(caller, now, original_token_id, recipient, stamp),
        );
        TokenState {
            bridged_tokens: if self.bridged_tokens.contains_key((source_chain, original_token_id)) {
                self.bridged_tokens.insert(
                    (source_chain, original_token_id),
                    BridgedTokenInfo {
                        status: BridgingStatus::Completed,
                        destination_token_id: id,
                        ..self.bridged_tokens[(source_chain, original_token_id)]
                    },
                )
            } else {
                self.bridged_tokens
            },
            ..minted
        }.notified(EventView::Transfer(Transfer { from: None, to: Some(recipient), id }))
    }

    /// Refuses whoever is not the administrator.
    pub open spec fn admin_refusal(self, caller: AccountId) -> Option<Error> {
        if caller != self.admin {
            Some(Error::Unauthorized)
        } else {
            None
        }
    }

    /// The contract with one more bridge operator, unless it is one already.
    pub open spec fn after_add_operator(self, operator: AccountId) -> TokenState {
        if self.is_bridge_operator(operator) {
            self
        } else {
            TokenState { bridge_operators: self.bridge_operators.push(operator), ..self }
        }
    }

    /// The test that an account is another one than `operator`.
    pub open spec fn other_than(operator: AccountId) -> spec_fn(AccountId) -> bool {
        |a: AccountId| a != operator
    }

    /// The contract without the bridge operator.
    pub open spec fn after_remove_operator(self, operator: AccountId) -> TokenState {
        TokenState {
            bridge_operators: self.bridge_operators.filter(Self::other_than(operator)),
            ..self
        }
    }

    /// The address of the metadata of a token of the contract deployed at
    /// `contract`.
    pub open spec fn uri_of(contract: AccountId, token_id: u64) -> Seq<char> {
        "ipfs://property/"@ + crate::text::hex(contract.bytes@) + "/"@ + crate::text::decimal(
            token_id as nat,
        ) + "/metadata.json"@
    }
}

} // verus!
