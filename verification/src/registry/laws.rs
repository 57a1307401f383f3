//! What holds of the registry's bookkeeping of ownership.

use vstd::prelude::*;
use crate::primitives::AccountId;
use crate::registry::model::{other_than, RegistryState};
use crate::traits::PropertyMetadataView;

verus! {

impl RegistryState {
    /// Whether the lists of holdings agree with the owners of the
    /// properties: the list of an account holds exactly the properties the
    /// account owns, each of them once.
    pub open spec fn holdings_match(self) -> bool {
        &&& forall|p: u64| #[trigger]
            self.has_property(p) ==> self.owned_by(self.property(p).info.owner).contains(p)
        &&& forall|a: AccountId, i: int|
            0 <= i < self.owned_by(a).len() ==> self.has_property(#[trigger] self.owned_by(a)[i])
                && self.property(self.owned_by(a)[i]).info.owner == a
        &&& forall|a: AccountId| #[trigger] self.owned_by(a).no_duplicates()
    }
}

/// A list without every occurrence of `id` holds what the list held, but
/// for `id`, and repeats nothing that the list did not repeat.
pub proof fn law_without(list: Seq<u64>, id: u64)
    ensures
        !list.filter(other_than(id)).contains(id),
        forall|x: u64|
            #[trigger] list.filter(other_than(id)).contains(x) <==> list.contains(x) && x != id,
        list.no_duplicates() ==> list.filter(other_than(id)).no_duplicates(),
    decreases list.len(),
{
    reveal(Seq::filter);
    let keep = other_than(id);
    let kept = list.filter(keep);
    if list.len() > 0 {
        let rest = list.drop_last();
        let last = list.last();
        law_without(rest, id);
        let kept_rest = rest.filter(keep);
        assert forall|x: u64| #[trigger] kept.contains(x) <==> list.contains(x) && x != id by {
            if kept.contains(x) {
                let i = choose|i: int| 0 <= i < kept.len() && kept[i] == x;
                if keep(last) && i == kept.len() - 1 {
                    assert(list[list.len() - 1] == x);
                } else {
                    assert(kept_rest[i] == x);
                    assert(kept_rest.contains(x));
                    let j = choose|j: int| 0 <= j < rest.len() && rest[j] == x;
                    assert(list[j] == x);
                }
            }
            if list.contains(x) && x != id {
                let j = choose|j: int| 0 <= j < list.len() && list[j] == x;
                if j == list.len() - 1 {
                    assert(kept[kept.len() - 1] == x);
                } else {
                    assert(rest[j] == x);
                    assert(rest.contains(x));
                    assert(kept_rest.contains(x));
                    let i = choose|i: int| 0 <= i < kept_rest.len() && kept_rest[i] == x;
                    assert(kept[i] == x);
                }
            }
        }
        if list.no_duplicates() {
            assert(rest.no_duplicates());
            if keep(last) {
                assert(!rest.contains(last)) by {
                    if rest.contains(last) {
                        let j = choose|j: int| 0 <= j < rest.len() && rest[j] == last;
                        assert(list[j] == list[list.len() - 1]);
                    }
                }
                assert(!kept_rest.contains(last));
                assert forall|i: int, j: int|
                    0 <= i < kept.len() && 0 <= j < kept.len() && i != j implies kept[i]
                    != kept[j] by {
                    if i == kept.len() - 1 {
                        assert(kept_rest[j] == kept[j]);
                        assert(kept_rest.contains(kept[j]));
                    } else if j == kept.len() - 1 {
                        assert(kept_rest[i] == kept[i]);
                        assert(kept_rest.contains(kept[i]));
                    } else {
                        assert(kept_rest[i] == kept[i] && kept_rest[j] == kept[j]);
                    }
                }
            }
        }
    }
}

/// A freshly created registry has no holdings and no properties, so they
/// agree.
pub proof fn law_initial_holdings(admin: AccountId, now: u64, block_number: u32)
    ensures
        RegistryState::initial(admin, now, block_number).wf(),
        RegistryState::initial(admin, now, block_number).holdings_match(),
{
}

/// Registering a property keeps the holdings in agreement with the
/// owners: the new property joins the end of the list of its owner.
pub proof fn law_register_keeps_holdings(
    s: RegistryState,
    caller: AccountId,
    now: u64,
    block_number: u32,
    metadata: PropertyMetadataView,
)
    requires
        s.wf(),
        s.holdings_match(),
        s.register_fits(1),
    ensures
        s.after_register(caller, now, block_number, metadata).wf(),
        s.after_register(caller, now, block_number, metadata).holdings_match(),
{
    let n = s.after_register(caller, now, block_number, metadata);
    let id = s.next_property_id();
    assert forall|p: u64| #[trigger] n.has_property(p) implies n.owned_by(
        n.property(p).info.owner,
    ).contains(p) by {
        if p == id {
            assert(n.owned_by(caller)[s.owned_by(caller).len() as int] == id);
        } else {
            assert(s.has_property(p));
            let owner = s.property(p).info.owner;
            let i = choose|i: int| 0 <= i < s.owned_by(owner).len() && s.owned_by(owner)[i] == p;
            assert(n.owned_by(owner)[i] == p);
        }
    }
    assert forall|a: AccountId, i: int| 0 <= i < n.owned_by(a).len() implies n.has_property(
        #[trigger] n.owned_by(a)[i],
    ) && n.property(n.owned_by(a)[i]).info.owner == a by {
        if a == caller && i == s.owned_by(caller).len() {
        } else {
            assert(n.owned_by(a)[i] == s.owned_by(a)[i]);
        }
    }
    assert forall|a: AccountId| #[trigger] n.owned_by(a).no_duplicates() by {
        assert(s.owned_by(a).no_duplicates());
        if a == caller {
            assert forall|i: int| 0 <= i < s.owned_by(a).len() implies s.owned_by(a)[i] != id by {
                assert(s.has_property(s.owned_by(a)[i]));
            }
        }
    }
}

/// Handing a property to another account keeps the holdings in agreement
/// with the owners: the property leaves the list of its owner and joins
/// the end of the list of the recipient.
pub proof fn law_move_keeps_holdings(s: RegistryState, property_id: u64, to: AccountId)
    requires
        s.wf(),
        s.holdings_match(),
        s.has_property(property_id),
    ensures
        s.moved(property_id, to).wf(),
        s.moved(property_id, to).holdings_match(),
        s.moved(property_id, to).property(property_id).info.owner == to,
        s.moved(property_id, to).properties.len() == s.properties.len(),
{
    let n = s.moved(property_id, to);
    let from = s.property(property_id).info.owner;
    law_without(s.owned_by(from), property_id);
    let left = s.owned_by(from).filter(other_than(property_id));
    assert(s.owned_by(from).no_duplicates());
    assert(s.owned_by(to).no_duplicates());
    // What the recipient holds after the property has left its owner's list.
    let held = if to == from {
        left
    } else {
        s.owned_by(to)
    };
    assert(n.owned_by(to) == held.push(property_id));
    assert(!held.contains(property_id)) by {
        if to != from && held.contains(property_id) {
            let i = choose|i: int| 0 <= i < held.len() && held[i] == property_id;
            assert(s.property(s.owned_by(to)[i]).info.owner == to);
        }
    }
    assert forall|a: AccountId| a != to && a != from implies n.owned_by(a) == s.owned_by(a) by {}
    assert(to != from ==> n.owned_by(from) == left);
    assert forall|p: u64| #[trigger] n.has_property(p) implies n.owned_by(
        n.property(p).info.owner,
    ).contains(p) by {
        assert(s.has_property(p));
        if p == property_id {
            assert(n.owned_by(to)[held.len() as int] == p);
        } else {
            let owner = s.property(p).info.owner;
            assert(n.property(p).info.owner == owner);
            assert(s.owned_by(owner).contains(p));
            if owner == to {
                assert(held.contains(p));
                let i = choose|i: int| 0 <= i < held.len() && held[i] == p;
                assert(n.owned_by(to)[i] == p);
            } else if owner == from {
                assert(left.contains(p));
            }
        }
    }
    assert forall|a: AccountId, i: int| 0 <= i < n.owned_by(a).len() implies n.has_property(
        #[trigger] n.owned_by(a)[i],
    ) && n.property(n.owned_by(a)[i]).info.owner == a by {
        let p = n.owned_by(a)[i];
        if a == to {
            if i < held.len() {
                assert(held[i] == p);
                assert(held.contains(p));
                assert(p != property_id);
                if to == from {
                    assert(s.owned_by(from).contains(p));
                    let j = choose|j: int| 0 <= j < s.owned_by(from).len() && s.owned_by(from)[j] == p;
                    assert(s.has_property(s.owned_by(from)[j]));
                } else {
                    assert(s.has_property(s.owned_by(to)[i]));
                }
            }
        } else if a == from {
            assert(left.contains(left[i]));
            assert(s.owned_by(from).contains(p));
            let j = choose|j: int| 0 <= j < s.owned_by(from).len() && s.owned_by(from)[j] == p;
            assert(s.has_property(s.owned_by(from)[j]));
        } else {
            assert(s.has_property(s.owned_by(a)[i]));
        }
    }
    assert forall|a: AccountId| #[trigger] n.owned_by(a).no_duplicates() by {
        assert(s.owned_by(a).no_duplicates());
        if a == to {
            assert(held.no_duplicates());
            assert forall|i: int, j: int|
                0 <= i < held.len() + 1 && 0 <= j < held.len() + 1 && i != j implies held.push(
                property_id,
            )[i] != held.push(property_id)[j] by {
                if i < held.len() {
                    assert(held.contains(held[i]));
                }
                if j < held.len() {
                    assert(held.contains(held[j]));
                }
            }
        }
    }
}

/// Handing over several properties, one after the other, keeps the
/// holdings in agreement with the owners.
pub proof fn law_moves_keep_holdings(s: RegistryState, ids: Seq<u64>, to: AccountId, n: nat)
    requires
        s.wf(),
        s.holdings_match(),
        n <= ids.len(),
        forall|j: int| 0 <= j < ids.len() ==> s.has_property(#[trigger] ids[j]),
    ensures
        s.moved_all(ids, to, n).wf(),
        s.moved_all(ids, to, n).holdings_match(),
        s.moved_all(ids, to, n).properties.len() == s.properties.len(),
    decreases n,
{
    if n > 0 {
        law_moves_keep_holdings(s, ids, to, (n - 1) as nat);
        let before = s.moved_all(ids, to, (n - 1) as nat);
        assert(s.has_property(ids[n - 1]));
        law_move_keeps_holdings(before, ids[n - 1], to);
    }
}

/// Carrying out several transfers, each to its own recipient, keeps the
/// holdings in agreement with the owners.
pub proof fn law_transfers_keep_holdings(s: RegistryState, transfers: Seq<(u64, AccountId)>, n: nat)
    requires
        s.wf(),
        s.holdings_match(),
        n <= transfers.len(),
        forall|j: int| 0 <= j < transfers.len() ==> s.has_property((#[trigger] transfers[j]).0),
    ensures
        s.moved_each(transfers, n).wf(),
        s.moved_each(transfers, n).holdings_match(),
        s.moved_each(transfers, n).properties.len() == s.properties.len(),
    decreases n,
{
    if n > 0 {
        law_transfers_keep_holdings(s, transfers, (n - 1) as nat);
        let before = s.moved_each(transfers, (n - 1) as nat);
        assert(s.has_property(transfers[n - 1].0));
        law_move_keeps_holdings(before, transfers[n - 1].0, transfers[n - 1].1);
    }
}

/// Two small counts added up stay small: the sum of two numbers under 100
/// is under 200, and fits.
pub proof fn verify_arithmetic_overflow(a: u64, b: u64)
    requires
        a < 100,
        b < 100,
    ensures
        a + b < 200,
        a + b <= u64::MAX,
{
}

/// Every registered property is stored under its own identifier, and
/// identifiers start at one.
pub proof fn verify_property_info_struct(s: RegistryState, property_id: u64)
    requires
        s.wf(),
        s.has_property(property_id),
    ensures
        s.property(property_id).info.id == property_id,
        s.property(property_id).info.id > 0,
{
}

} // verus!
