//! A `u16` whose additions saturate at `u16::MAX` instead of overflowing.

use vstd::prelude::*;
use vstd::std_specs::cmp::PartialEqSpecImpl;
use vstd::std_specs::cmp::PartialEqSpec;
use vstd::std_specs::convert::FromSpecImpl;
use vstd::std_specs::convert::FromSpec;
use vstd::std_specs::ops::AddSpecImpl;
use vstd::std_specs::ops::AddSpec;
use core::ops::Add;

verus! {

/// The sum of `a` and `b`, cut off at `u16::MAX`.
pub open spec fn saturating_sum(a: u16, b: u16) -> u16 {
    if a + b > u16::MAX {
        u16::MAX
    } else {
        (a + b) as u16
    }
}

/// A 16-bit unsigned integer whose additions saturate.
#[derive(Debug, Clone, Copy, Eq)]
pub struct SaturatingU16(u16);

impl View for SaturatingU16 {
    type V = u16;

    closed spec fn view(&self) -> u16 {
        self.0
    }
}

impl SaturatingU16 {
    /// Two values are equal exactly when they hold the same number.
    pub proof fn lemma_view_injective(a: SaturatingU16, b: SaturatingU16)
        ensures
            a@ == b@ <==> a == b,
    {
    }
}

// ---------------------------------------------------------------- From

impl From<u16> for SaturatingU16 {
    fn from(value: u16) -> (r: Self)
        ensures
            r@ == value,
    {
        SaturatingU16(value)
    }
}

impl FromSpecImpl<u16> for SaturatingU16 {
    open spec fn obeys_from_spec() -> bool {
        true
    }

    closed spec fn from_spec(v: u16) -> SaturatingU16 {
        SaturatingU16(v)
    }
}

impl From<u8> for SaturatingU16 {
    fn from(value: u8) -> (r: Self)
        ensures
            r@ == value as u16,
    {
        SaturatingU16(value.into())
    }
}

impl FromSpecImpl<u8> for SaturatingU16 {
    open spec fn obeys_from_spec() -> bool {
        true
    }

    closed spec fn from_spec(v: u8) -> SaturatingU16 {
        SaturatingU16(v as u16)
    }
}

impl From<&u16> for SaturatingU16 {
    fn from(value: &u16) -> (r: Self)
        ensures
            r@ == *value,
    {
        SaturatingU16(*value)
    }
}

impl FromSpecImpl<&u16> for SaturatingU16 {
    open spec fn obeys_from_spec() -> bool {
        true
    }

    closed spec fn from_spec(v: &u16) -> SaturatingU16 {
        SaturatingU16(*v)
    }
}

impl From<&u8> for SaturatingU16 {
    fn from(value: &u8) -> (r: Self)
        ensures
            r@ == *value as u16,
    {
        SaturatingU16((*value).into())
    }
}

impl FromSpecImpl<&u8> for SaturatingU16 {
    open spec fn obeys_from_spec() -> bool {
        true
    }

    closed spec fn from_spec(v: &u8) -> SaturatingU16 {
        SaturatingU16(*v as u16)
    }
}

// ---------------------------------------------------------------- Add

impl Add for SaturatingU16 {
    type Output = Self;

    fn add(self, rhs: Self) -> (r: Self)
        ensures
            r@ == saturating_sum(self@, rhs@),
    {
        SaturatingU16(self.0.saturating_add(rhs.0))
    }
}

impl AddSpecImpl for SaturatingU16 {
    open spec fn obeys_add_spec() -> bool {
        true
    }

    open spec fn add_req(self, rhs: SaturatingU16) -> bool {
        true
    }

    closed spec fn add_spec(self, rhs: SaturatingU16) -> SaturatingU16 {
        SaturatingU16(saturating_sum(self.0, rhs.0))
    }
}

impl Add<&SaturatingU16> for SaturatingU16 {
    type Output = Self;

    fn add(self, rhs: &SaturatingU16) -> (r: Self)
        ensures
            r@ == saturating_sum(self@, rhs@),
    {
        self + *rhs
    }
}

impl AddSpecImpl<&SaturatingU16> for SaturatingU16 {
    open spec fn obeys_add_spec() -> bool {
        true
    }

    open spec fn add_req(self, rhs: &SaturatingU16) -> bool {
        true
    }

    closed spec fn add_spec(self, rhs: &SaturatingU16) -> SaturatingU16 {
        SaturatingU16(saturating_sum(self.0, rhs.0))
    }
}

impl Add<u16> for SaturatingU16 {
    type Output = Self;

    fn add(self, rhs: u16) -> (r: Self)
        ensures
            r@ == saturating_sum(self@, rhs),
    {
        self + Self::from(rhs)
    }
}

impl AddSpecImpl<u16> for SaturatingU16 {
    open spec fn obeys_add_spec() -> bool {
        true
    }

    open spec fn add_req(self, rhs: u16) -> bool {
        true
    }

    closed spec fn add_spec(self, rhs: u16) -> SaturatingU16 {
        SaturatingU16(saturating_sum(self.0, rhs))
    }
}

impl Add<&u16> for SaturatingU16 {
    type Output = Self;

    fn add(self, rhs: &u16) -> (r: Self)
        ensures
            r@ == saturating_sum(self@, *rhs),
    {
        self + Self::from(*rhs)
    }
}

impl AddSpecImpl<&u16> for SaturatingU16 {
    open spec fn obeys_add_spec() -> bool {
        true
    }

    open spec fn add_req(self, rhs: &u16) -> bool {
        true
    }

    closed spec fn add_spec(self, rhs: &u16) -> SaturatingU16 {
        SaturatingU16(saturating_sum(self.0, *rhs))
    }
}

// ---------------------------------------------------------------- ==

impl PartialEq for SaturatingU16 {
    fn eq(&self, other: &Self) -> (r: bool)
        ensures
            r == (self@ == other@),
    {
        self.0 == other.0
    }
}

impl PartialEqSpecImpl for SaturatingU16 {
    open spec fn obeys_eq_spec() -> bool {
        true
    }

    closed spec fn eq_spec(&self, other: &SaturatingU16) -> bool {
        self.0 == other.0
    }
}

impl PartialEq<u16> for SaturatingU16 {
    fn eq(&self, other: &u16) -> (r: bool)
        ensures
            r == (self@ == *other),
    {
        self.0 == *other
    }
}

impl PartialEqSpecImpl<u16> for SaturatingU16 {
    open spec fn obeys_eq_spec() -> bool {
        true
    }

    closed spec fn eq_spec(&self, other: &u16) -> bool {
        self.0 == *other
    }
}

impl PartialEq<SaturatingU16> for u16 {
    fn eq(&self, other: &SaturatingU16) -> (r: bool)
        ensures
            r == (*self == other@),
    {
        *self == other.0
    }
}

impl PartialEqSpecImpl<SaturatingU16> for u16 {
    open spec fn obeys_eq_spec() -> bool {
        true
    }

    closed spec fn eq_spec(&self, other: &SaturatingU16) -> bool {
        *self == other.0
    }
}

// ---------------------------------------------------------------- laws

/// Saturating addition is commutative.
pub proof fn lemma_add_commutative(a: u16, b: u16)
    ensures
        saturating_sum(a, b) == saturating_sum(b, a),
{
}

/// Saturating addition is associative: the cut-off at `u16::MAX` may be
/// applied after each step or only once at the end.
pub proof fn lemma_add_associative(a: u16, b: u16, c: u16)
    ensures
        saturating_sum(saturating_sum(a, b), c) == saturating_sum(a, saturating_sum(b, c)),
{
}

/// Zero is neutral for saturating addition, and `u16::MAX` absorbs it.
pub proof fn lemma_add_identity_and_ceiling(a: u16)
    ensures
        saturating_sum(a, 0) == a,
        saturating_sum(a, u16::MAX) == u16::MAX,
{
}

/// Saturating addition never goes below either operand.
pub proof fn lemma_add_monotone(a: u16, b: u16)
    ensures
        a <= saturating_sum(a, b),
        b <= saturating_sum(a, b),
{
}

/// Whichever of the four right-hand sides carries the number, the sum is the
/// same.
pub proof fn lemma_add_forms_agree(a: SaturatingU16, b: SaturatingU16)
    ensures
        AddSpec::<SaturatingU16>::add_spec(a, b) == AddSpec::<&SaturatingU16>::add_spec(a, &b),
        AddSpec::<SaturatingU16>::add_spec(a, b) == AddSpec::<u16>::add_spec(a, b@),
        AddSpec::<SaturatingU16>::add_spec(a, b) == AddSpec::<&u16>::add_spec(a, &b@),
        AddSpec::<SaturatingU16>::add_spec(a, b)@ == saturating_sum(a@, b@),
{
}

/// A `u8` converts to the same value as the `u16` holding the same number,
/// and converting from a reference is the same as converting from the value.
pub proof fn lemma_from_forms_agree(v: u8)
    ensures
        <SaturatingU16 as FromSpec<u8>>::from_spec(v) == <SaturatingU16 as FromSpec<u16>>::from_spec(v as u16),
        <SaturatingU16 as FromSpec<&u8>>::from_spec(&v) == <SaturatingU16 as FromSpec<u8>>::from_spec(v),
        <SaturatingU16 as FromSpec<&u16>>::from_spec(&(v as u16)) == <SaturatingU16 as FromSpec<u16>>::from_spec(v as u16),
        <SaturatingU16 as FromSpec<u16>>::from_spec(v as u16)@ == v as u16,
{
}

/// Comparing with a `u16` gives the same answer from either side, and it
/// agrees with comparing against the value converted from that `u16`.
pub proof fn lemma_eq_forms_agree(a: SaturatingU16, n: u16)
    ensures
        PartialEqSpec::<u16>::eq_spec(&a, &n) == PartialEqSpec::<SaturatingU16>::eq_spec(&n, &a),
        PartialEqSpec::<u16>::eq_spec(&a, &n) == PartialEqSpec::<SaturatingU16>::eq_spec(
            &a,
            &<SaturatingU16 as FromSpec<u16>>::from_spec(n),
        ),
        PartialEqSpec::<u16>::eq_spec(&a, &n) == (a@ == n),
{
}

} // verus!
