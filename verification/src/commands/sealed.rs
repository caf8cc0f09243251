//! Keeps `Command` closed to implementations from outside this crate.

use vstd::prelude::*;

verus! {

/// Marks the one type that may stand as `Command::Sealed`.
pub trait HiddenTrait {

}

/// The only implementor of `HiddenTrait`.
pub struct Hidden;

impl HiddenTrait for Hidden {

}

} // verus!
