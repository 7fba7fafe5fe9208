//! Checked conversions and canonical ordering of asset pairs.

use crate::error::ErrorCode;
use vstd::prelude::*;

verus! {

/// Widens a 64-bit amount to the 128-bit working precision; this never fails.
pub fn to_u128(val: u64) -> (r: Result<u128, ErrorCode>)
    ensures
        r == Ok::<u128, ErrorCode>(val as u128),
{
    Ok(val as u128)
}

/// Narrows a 128-bit amount to 64 bits, failing rather than truncating.
pub fn to_u64(val: u128) -> (r: Result<u64, ErrorCode>)
    ensures
        val <= u64::MAX ==> r == Ok::<u64, ErrorCode>(val as u64),
        val > u64::MAX ==> r == Err::<u64, ErrorCode>(ErrorCode::ConversionFailure),
{
    if val > u64::MAX as u128 {
        Err(ErrorCode::ConversionFailure)
    } else {
        Ok(val as u64)
    }
}

/// A 32-byte asset or account identity, held as its first and last sixteen bytes read
/// big-endian, so that identities order as their bytes do.
#[derive(Clone, Copy, Debug, Default, PartialEq, Eq, Hash, Structural)]
pub struct Pubkey {
    /// The first sixteen bytes, big-endian.
    pub hi: u128,
    /// The last sixteen bytes, big-endian.
    pub lo: u128,
}

/// `a` orders strictly before `b`.
pub open spec fn key_lt(a: Pubkey, b: Pubkey) -> bool {
    a.hi < b.hi || (a.hi == b.hi && a.lo < b.lo)
}

impl Pubkey {
    /// The identity with the given halves.
    pub fn new(hi: u128, lo: u128) -> (r: Pubkey)
        ensures
            r == (Pubkey { hi, lo }),
    {
        Pubkey { hi, lo }
    }

    /// Whether this identity orders strictly before `other`.
    pub fn less_than(&self, other: &Pubkey) -> (r: bool)
        ensures
            r == key_lt(*self, *other),
    {
        self.hi < other.hi || (self.hi == other.hi && self.lo < other.lo)
    }
}

/// Canonical ordering by a pair of identities.
pub trait PubkeyPairExt: Sized {
    /// `Some(true)` when the first identity orders first, `Some(false)` when the second does,
    /// `None` when they are equal.
    spec fn spec_first_is_lower(&self) -> Option<bool>;

    /// The pair in increasing order.
    spec fn spec_sorted(&self) -> Self;

    /// Orders `v1` and `v2` as the identities of the pair order; fails on equal identities.
    fn sort<T>(&self, v1: T, v2: T) -> (r: Result<(T, T), ErrorCode>)
        ensures
            self.spec_first_is_lower() is None ==> r == Err::<(T, T), ErrorCode>(ErrorCode::SameToken),
            self.spec_first_is_lower() == Some(true) ==> r == Ok::<(T, T), ErrorCode>((v1, v2)),
            self.spec_first_is_lower() == Some(false) ==> r == Ok::<(T, T), ErrorCode>((v2, v1)),
    ;

    /// The pair itself in increasing order; fails on equal identities.
    fn sort_self(self) -> (r: Result<Self, ErrorCode>)
        ensures
            self.spec_first_is_lower() is None ==> r == Err::<Self, ErrorCode>(ErrorCode::SameToken),
            self.spec_first_is_lower() is Some ==> r == Ok::<Self, ErrorCode>(self.spec_sorted()),
    ;
}

impl PubkeyPairExt for (Pubkey, Pubkey) {
    open spec fn spec_first_is_lower(&self) -> Option<bool> {
        if self.0 == self.1 {
            None
        } else {
            Some(key_lt(self.0, self.1))
        }
    }

    open spec fn spec_sorted(&self) -> (Pubkey, Pubkey) {
        if key_lt(self.0, self.1) {
            (self.0, self.1)
        } else {
            (self.1, self.0)
        }
    }

    fn sort<T>(&self, v1: T, v2: T) -> (r: Result<(T, T), ErrorCode>) {
        if self.0.less_than(&self.1) {
            Ok((v1, v2))
        } else if self.0 == self.1 {
            Err(ErrorCode::SameToken)
        } else {
            Ok((v2, v1))
        }
    }

    fn sort_self(self) -> (r: Result<(Pubkey, Pubkey), ErrorCode>) {
        if self.0.less_than(&self.1) {
            Ok((self.0, self.1))
        } else if self.0 == self.1 {
            Err(ErrorCode::SameToken)
        } else {
            Ok((self.1, self.0))
        }
    }
}

/// Membership in a pair.
pub trait TupleExt {
    /// The element type of the pair.
    type Elem;

    /// Whether `e` is one of the two elements.
    spec fn spec_contains(&self, e: &Self::Elem) -> bool;

    /// Whether `e` is one of the two elements.
    fn contains(&self, e: &Self::Elem) -> (r: bool)
        ensures
            r == self.spec_contains(e),
    ;
}

impl TupleExt for (Pubkey, Pubkey) {
    type Elem = Pubkey;

    open spec fn spec_contains(&self, e: &Pubkey) -> bool {
        self.0 == *e || self.1 == *e
    }

    fn contains(&self, e: &Pubkey) -> (r: bool) {
        self.0 == *e || self.1 == *e
    }
}

} // verus!
