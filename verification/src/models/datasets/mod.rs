use vstd::prelude::*;

pub mod blocks;
pub mod logs;
pub mod traces;
pub mod transactions;

verus! {

} // verus!
