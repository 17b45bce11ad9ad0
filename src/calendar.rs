//! Sources of the date stamped on new transactions.
use vstd::prelude::*;

verus! {

/// Tells the current date, as text that is stored verbatim.
pub trait Calendar {
    /// The current date.
    fn today(&self) -> String;
}

} // verus!
