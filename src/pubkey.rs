//! Account identities.
use vstd::prelude::*;

verus! {

/// A 32-byte account identity, held as four little-endian 64-bit words.
///
/// The all-zero key is the "no account" key: it is what an unset identity
/// field holds.
#[derive(Debug, Clone, Copy, PartialEq, Eq, Structural, Hash)]
pub struct Pubkey {
    pub w0: u64,
    pub w1: u64,
    pub w2: u64,
    pub w3: u64,
}

impl Pubkey {
    /// The all-zero key.
    pub open spec fn spec_zeroed() -> Pubkey {
        Pubkey { w0: 0, w1: 0, w2: 0, w3: 0 }
    }

    pub fn zeroed() -> (k: Pubkey)
        ensures
            k == Pubkey::spec_zeroed(),
    {
        Pubkey { w0: 0, w1: 0, w2: 0, w3: 0 }
    }

    pub fn is_zeroed(&self) -> (r: bool)
        ensures
            r == (*self == Pubkey::spec_zeroed()),
    {
        self.w0 == 0 && self.w1 == 0 && self.w2 == 0 && self.w3 == 0
    }
}

/// Whether `k` occurs in `keys`.
pub fn contains_key(keys: &Vec<Pubkey>, k: &Pubkey) -> (r: bool)
    ensures
        r == keys@.contains(*k),
{
    let mut i: usize = 0;
    while i < keys.len()
        invariant
            i <= keys.len(),
            forall|j: int| 0 <= j < i ==> keys@[j] != *k,
        decreases keys.len() - i,
    {
        if keys[i] == *k {
            return true;
        }
        i = i + 1;
    }
    false
}

/// The position of the first occurrence of `k` in `keys`.
pub fn position_of(keys: &Vec<Pubkey>, k: &Pubkey) -> (r: Option<usize>)
    ensures
        match r {
            Some(i) => i < keys@.len() && keys@[i as int] == *k && forall|j: int|
                0 <= j < i ==> keys@[j] != *k,
            None => !keys@.contains(*k),
        },
{
    let mut i: usize = 0;
    while i < keys.len()
        invariant
            i <= keys.len(),
            forall|j: int| 0 <= j < i ==> keys@[j] != *k,
        decreases keys.len() - i,
    {
        if keys[i] == *k {
            return Some(i);
        }
        i = i + 1;
    }
    None
}

} // verus!
