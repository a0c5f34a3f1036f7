use vstd::prelude::*;

verus! {

/// A 32-byte account identifier.
#[derive(Clone, Copy, Debug, PartialEq, Eq)]
pub struct AccountId {
    pub bytes: [u8; 32],
}

/// A 32-byte hash, used to identify messages, groups and lists.
#[derive(Clone, Copy, Debug, PartialEq, Eq)]
pub struct Hash32 {
    pub bytes: [u8; 32],
}

impl View for AccountId {
    type V = AccountId;

    open spec fn view(&self) -> AccountId {
        *self
    }
}

impl View for Hash32 {
    type V = Hash32;

    open spec fn view(&self) -> Hash32 {
        *self
    }
}

/// Keys whose equality can be decided at run time, in agreement with the
/// equality of their views.
pub trait KeyEq: View + Sized {
    fn key_eq(&self, other: &Self) -> (r: bool)
        ensures
            r == (self@ == other@),
    ;
}

/// Identifiers whose equality can be decided at run time.
pub trait IdEq: Copy + Sized {
    fn id_eq(&self, other: &Self) -> (r: bool)
        ensures
            r == (*self == *other),
    ;
}

fn bytes32_eq(a: &[u8; 32], b: &[u8; 32]) -> (r: bool)
    ensures
        r == (*a == *b),
{
    let mut i: usize = 0;
    while i < 32
        invariant
            0 <= i <= 32,
            forall|j: int| 0 <= j < i ==> a[j] == b[j],
        decreases 32 - i,
    {
        if a[i] != b[i] {
            return false;
        }
        i = i + 1;
    }
    assert(*a =~= *b);
    true
}

impl AccountId {
    /// The all-zero account.
    pub fn zero() -> (r: AccountId)
        ensures
            r == AccountId::spec_zero(),
    {
        AccountId { bytes: [0u8; 32usize] }
    }

    pub open spec fn spec_zero() -> AccountId {
        AccountId { bytes: [0u8; 32usize] }
    }
}

impl Hash32 {
    /// The all-zero hash.
    pub fn zero() -> (r: Hash32)
        ensures
            r == Hash32::spec_zero(),
    {
        Hash32 { bytes: [0u8; 32usize] }
    }

    pub open spec fn spec_zero() -> Hash32 {
        Hash32 { bytes: [0u8; 32usize] }
    }
}

impl Default for AccountId {
    fn default() -> (r: AccountId)
        ensures
            r == AccountId::spec_zero(),
    {
        AccountId::zero()
    }
}

impl Default for Hash32 {
    fn default() -> (r: Hash32)
        ensures
            r == Hash32::spec_zero(),
    {
        Hash32::zero()
    }
}

impl IdEq for AccountId {
    fn id_eq(&self, other: &Self) -> (r: bool) {
        bytes32_eq(&self.bytes, &other.bytes)
    }
}

impl IdEq for Hash32 {
    fn id_eq(&self, other: &Self) -> (r: bool) {
        bytes32_eq(&self.bytes, &other.bytes)
    }
}

impl KeyEq for AccountId {
    fn key_eq(&self, other: &Self) -> (r: bool) {
        bytes32_eq(&self.bytes, &other.bytes)
    }
}

impl KeyEq for Hash32 {
    fn key_eq(&self, other: &Self) -> (r: bool) {
        bytes32_eq(&self.bytes, &other.bytes)
    }
}

impl KeyEq for (AccountId, AccountId) {
    fn key_eq(&self, other: &Self) -> (r: bool) {
        self.0.key_eq(&other.0) && self.1.key_eq(&other.1)
    }
}

impl KeyEq for (AccountId, Hash32) {
    fn key_eq(&self, other: &Self) -> (r: bool) {
        self.0.key_eq(&other.0) && self.1.key_eq(&other.1)
    }
}

impl KeyEq for Vec<u8> {
    fn key_eq(&self, other: &Self) -> (r: bool) {
        if self.len() != other.len() {
            return false;
        }
        let mut i: usize = 0;
        while i < self.len()
            invariant
                0 <= i <= self.len(),
                self.len() == other.len(),
                forall|j: int| 0 <= j < i ==> self@[j] == other@[j],
            decreases self.len() - i,
        {
            if self[i] != other[i] {
                return false;
            }
            i = i + 1;
        }
        assert(self@ =~= other@);
        true
    }
}

} // verus!
