use core::cell::Cell;
use vstd::prelude::*;

verus! {

/// `'b: 'a` states that `b_str` lives at least as long as `a_str`.
pub struct OutlivesExample<'a, 'b: 'a> {
    pub a_str: &'a str,
    pub b_str: &'b str,
}

/// One lifetime parameter for each variance that a field can give it:
/// - `'a` is covariant: it only appears behind a shared reference;
/// - `'b` is invariant: it sits inside the mutable `Cell`;
/// - `'d1` is covariant: it is the lifetime of the `&mut` itself;
/// - `'d2` is invariant: it sits inside the `&mut`.
pub struct Multi<'a, 'b, 'd1, 'd2> {
    pub a: &'a str,
    pub b: Cell<&'b str>,
    pub d: &'d1 mut &'d2 str,
}

/// Shortens the covariant `'a` from `'static`.
pub fn a<'a, 'b, 'd1, 'd2>(x: Multi<'static, 'b, 'd1, 'd2>) -> (r: Multi<'a, 'b, 'd1, 'd2>)
    ensures
        r == x,
{
    x
}

/// Shortens the covariant `'d1` from `'static`: the outer `&mut` may be held
/// for less time, while what it points to keeps its lifetime `'d2`.
pub fn d1<'a, 'b, 'd1, 'd2>(x: Multi<'a, 'b, 'static, 'd2>) -> (r: Multi<'a, 'b, 'd1, 'd2>)
    ensures
        r == x,
{
    x
}

/// A lifetime used in spots whose variances disagree is invariant: `foo`
/// alone would make `'a` covariant, `bar` makes it invariant.
pub struct TwoSpots<'a> {
    pub foo: &'a str,
    pub bar: Cell<&'a str>,
}

} // verus!
