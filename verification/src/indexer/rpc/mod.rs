use vstd::prelude::*;

pub mod blocks;
pub mod receipts;
pub mod traces;

verus! {

} // verus!
