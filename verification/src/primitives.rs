//! Fixed-size identifiers shared by every contract in the crate.

use vstd::prelude::*;
use vstd::std_specs::cmp::PartialEqSpecImpl;
use vstd::std_specs::convert::FromSpecImpl;

verus! {

/// A 32-byte principal identifier.
#[derive(Clone, Copy, Debug, Eq, Hash)]
pub struct AccountId {
    pub bytes: [u8; 32],
}

/// A 32-byte content fingerprint.
#[derive(Clone, Copy, Debug, Eq, Hash)]
pub struct Hash {
    pub bytes: [u8; 32],
}

impl AccountId {
    /// The account whose bytes are all zero.
    pub open spec fn zero() -> AccountId {
        AccountId { bytes: vstd::array::spec_array_fill_for_copy_type::<u8, 32>(0u8) }
    }

    /// The account whose bytes are all zero.
    pub fn zeroed() -> (r: AccountId)
        ensures
            r == AccountId::zero(),
    {
        AccountId { bytes: [0u8;32] }
    }
}

impl Hash {
    /// The fingerprint whose bytes are all zero.
    pub open spec fn zero() -> Hash {
        Hash { bytes: vstd::array::spec_array_fill_for_copy_type::<u8, 32>(0u8) }
    }

    /// The fingerprint whose bytes are all zero.
    pub fn zeroed() -> (r: Hash)
        ensures
            r == Hash::zero(),
    {
        Hash { bytes: [0u8;32] }
    }
}

/// Whether two 32-byte arrays hold the same bytes.
pub fn bytes_equal(a: &[u8; 32], b: &[u8; 32]) -> (r: bool)
    ensures
        r == (*a == *b),
{
    let mut i: usize = 0;
    while i < 32
        invariant
            i <= 32,
            forall|j: int| 0 <= j < i ==> a[j] == b[j],
        decreases 32 - i,
    {
        if a[i] != b[i] {
            return false;
        }
        i += 1;
    }
    assert(*a =~= *b);
    true
}

impl PartialEq for AccountId {
    fn eq(&self, other: &Self) -> (r: bool) {
        bytes_equal(&self.bytes, &other.bytes)
    }
}

impl PartialEqSpecImpl for AccountId {
    open spec fn obeys_eq_spec() -> bool {
        true
    }

    open spec fn eq_spec(&self, other: &Self) -> bool {
        *self == *other
    }
}

impl From<[u8; 32]> for AccountId {
    fn from(bytes: [u8; 32]) -> (r: Self) {
        AccountId { bytes }
    }
}

impl FromSpecImpl<[u8; 32]> for AccountId {
    open spec fn obeys_from_spec() -> bool {
        true
    }

    open spec fn from_spec(bytes: [u8; 32]) -> Self {
        AccountId { bytes }
    }
}

impl PartialEq for Hash {
    fn eq(&self, other: &Self) -> (r: bool) {
        bytes_equal(&self.bytes, &other.bytes)
    }
}

impl PartialEqSpecImpl for Hash {
    open spec fn obeys_eq_spec() -> bool {
        true
    }

    open spec fn eq_spec(&self, other: &Self) -> bool {
        *self == *other
    }
}

impl From<[u8; 32]> for Hash {
    fn from(bytes: [u8; 32]) -> (r: Self) {
        Hash { bytes }
    }
}

impl FromSpecImpl<[u8; 32]> for Hash {
    open spec fn obeys_from_spec() -> bool {
        true
    }

    open spec fn from_spec(bytes: [u8; 32]) -> Self {
        Hash { bytes }
    }
}

/// The views of a sequence of records, in order.
pub open spec fn views<T: View>(items: Seq<T>) -> Seq<T::V> {
    items.map_values(|item: T| item@)
}

/// Whether `who` occurs in `list`.
pub fn contains_account(list: &Vec<AccountId>, who: AccountId) -> (r: bool)
    ensures
        r == list@.contains(who),
{
    let mut i: usize = 0;
    while i < list.len()
        invariant
            i <= list.len(),
            forall|j: int| 0 <= j < i ==> list@[j] != who,
        decreases list.len() - i,
    {
        if list[i] == who {
            return true;
        }
        i += 1;
    }
    false
}

/// A fresh vector holding the same accounts in the same order.
pub fn copy_accounts(list: &Vec<AccountId>) -> (r: Vec<AccountId>)
    ensures
        r@ == list@,
{
    let mut out: Vec<AccountId> = Vec::new();
    let mut i: usize = 0;
    while i < list.len()
        invariant
            i <= list.len(),
            out@ == list@.subrange(0, i as int),
        decreases list.len() - i,
    {
        out.push(list[i]);
        assert(out@ =~= list@.subrange(0, i + 1));
        i += 1;
    }
    assert(out@ =~= list@);
    out
}

} // verus!

