use vstd::prelude::*;

verus! {

/// Granted only inside this crate, so that the family traits have exactly the
/// implementations given here.
pub trait Sealed {}

} // verus!
