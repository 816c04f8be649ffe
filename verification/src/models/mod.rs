use vstd::prelude::*;

pub mod common;
pub mod datasets;
pub mod errors;
pub mod project_config;
pub mod rpc;
pub mod types;

verus! {

} // verus!
