use vstd::prelude::*;

verus! {

/// Relies on std::cell::Cell being a plain container. The library only moves
/// cells from one value to another and never reads them, so nothing more is
/// assumed of the type.
#[verifier::external_type_specification]
#[verifier::external_body]
#[verifier::reject_recursive_types(T)]
pub struct ExCell<T: ?Sized>(core::cell::Cell<T>);

} // verus!
