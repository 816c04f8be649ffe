use vstd::prelude::*;

pub mod indexer;
pub mod models;
pub mod pipeline;
pub mod storage;
pub mod text;
pub mod utils;

verus! {

} // verus!
