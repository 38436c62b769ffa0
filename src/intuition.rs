use vstd::prelude::*;

verus! {

/// A string that lives for the whole process also lives for any part of it:
/// `&'static str` is accepted where `&'a str` is expected.
pub fn lifetime_shortener<'a>(s: &'static str) -> (r: &'a str)
    ensures
        r@ == s@,
{
    s
}

} // verus!
