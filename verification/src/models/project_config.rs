use vstd::prelude::*;

verus! {

/// The configuration of an indexer run that names its project and chain ID up front.
#[derive(Debug)]
pub struct Config {
    pub project_name: String,
    pub chain_name: String,
    pub rpc_url: String,
    pub datasets: Vec<String>,
    pub chain_id: u64,
    pub chain_tip_buffer: u64,
}

} // verus!
