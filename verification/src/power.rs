//! Raising a `u32` to a power given as `u16`, `u32` or `&u32`.

use vstd::prelude::*;
use vstd::arithmetic::power::pow;

verus! {

/// `u32::pow`: by its documentation it raises `x` to the power `exp`; on
/// overflow it panics in debug builds, so inputs whose power does not fit in
/// a `u32` are left out.
pub assume_specification[<u32>::pow](x: u32, exp: u32) -> (r: u32)
    requires
        pow(x as int, exp as nat) <= u32::MAX,
    ensures
        r as int == pow(x as int, exp as nat),
;

/// The mathematical value of `base` raised to `exponent`.
pub open spec fn power_value(base: u32, exponent: nat) -> int {
    pow(base as int, exponent)
}

/// Raising `self` to the power of an exponent of type `T`.
pub trait Power<T>: Sized {
    /// Whether `self` to the power `n` can be represented in `Self`.
    spec fn power_fits(&self, n: T) -> bool;

    /// The value of `self` to the power `n`, where it fits.
    spec fn power_spec(&self, n: T) -> Self;

    fn power(&self, n: T) -> (r: Self)
        requires
            self.power_fits(n),
        ensures
            r == self.power_spec(n),
    ;
}

impl Power<u16> for u32 {
    open spec fn power_fits(&self, n: u16) -> bool {
        power_value(*self, n as nat) <= u32::MAX
    }

    open spec fn power_spec(&self, n: u16) -> u32 {
        power_value(*self, n as nat) as u32
    }

    fn power(&self, n: u16) -> (r: u32)
        ensures
            r as int == pow(*self as int, n as nat),
    {
        self.pow(n.into())
    }
}

impl Power<u32> for u32 {
    open spec fn power_fits(&self, n: u32) -> bool {
        power_value(*self, n as nat) <= u32::MAX
    }

    open spec fn power_spec(&self, n: u32) -> u32 {
        power_value(*self, n as nat) as u32
    }

    fn power(&self, n: u32) -> (r: u32)
        ensures
            r as int == pow(*self as int, n as nat),
    {
        self.pow(n)
    }
}

impl Power<&u32> for u32 {
    open spec fn power_fits(&self, n: &u32) -> bool {
        power_value(*self, *n as nat) <= u32::MAX
    }

    open spec fn power_spec(&self, n: &u32) -> u32 {
        power_value(*self, *n as nat) as u32
    }

    fn power(&self, n: &u32) -> (r: u32)
        ensures
            r as int == pow(*self as int, *n as nat),
    {
        self.pow(*n)
    }
}

/// The exponent may be passed as `u16`, `u32` or `&u32`: for the same base
/// and the same exponent value, all three agree on whether the power fits and
/// on its value (the `u16` form where the exponent is a `u16`).
pub proof fn lemma_exponent_types_agree(base: u32, n: u32)
    ensures
        Power::<u32>::power_fits(&base, n) == Power::<&u32>::power_fits(&base, &n),
        Power::<u32>::power_spec(&base, n) == Power::<&u32>::power_spec(&base, &n),
        n <= u16::MAX ==> Power::<u16>::power_fits(&base, n as u16) == Power::<u32>::power_fits(
            &base,
            n,
        ),
        n <= u16::MAX ==> Power::<u16>::power_spec(&base, n as u16) == Power::<u32>::power_spec(
            &base,
            n,
        ),
{
}

/// Powers follow their recurrence: anything to the power 0 is 1, and where
/// `base` to the power `e + 1` fits, so does `base` to the power `e`, and the
/// former is `base` times the latter.
pub proof fn lemma_power_recurrence(base: u32, e: u32)
    ensures
        Power::<u32>::power_fits(&base, 0),
        Power::<u32>::power_spec(&base, 0) == 1,
        e < u32::MAX && Power::<u32>::power_fits(&base, (e + 1) as u32) ==> {
            &&& Power::<u32>::power_fits(&base, e)
            &&& Power::<u32>::power_spec(&base, (e + 1) as u32) as int == base as int
                * Power::<u32>::power_spec(&base, e) as int
        },
{
    reveal(pow);
    if e < u32::MAX {
        let next = pow(base as int, (e + 1) as nat);
        let cur = pow(base as int, e as nat);
        assert(next == base * cur);
        if next <= u32::MAX && base >= 1 {
            vstd::arithmetic::power::lemma_pow_positive(base as int, e as nat);
            assert(cur <= base * cur) by (nonlinear_arith)
                requires
                    base >= 1,
                    cur > 0,
            ;
        }
    }
}

} // verus!
