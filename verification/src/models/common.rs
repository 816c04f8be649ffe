use vstd::prelude::*;
use vstd::string::*;

use crate::models::errors::IndexerError;
use crate::models::types::Address;

verus! {

/// The family of chains whose data layout an indexer run follows.
#[derive(Debug, Clone, Copy, PartialEq, Eq, Structural)]
pub enum Chain {
    Ethereum,
    ZKsync,
}

/// The layout that a chain ID maps to: mainnet Ethereum keeps the Ethereum layout,
/// every other chain is treated as a ZKsync chain.
pub open spec fn chain_for_id(chain_id: u64) -> Chain {
    if chain_id == 1 { Chain::Ethereum } else { Chain::ZKsync }
}

impl Chain {
    /// The chain family of a chain ID; unknown chains count as ZKsync chains.
    pub fn from_chain_id(chain_id: u64) -> (r: Chain)
        ensures
            r == chain_for_id(chain_id),
    {
        match chain_id {
            1 => Chain::Ethereum,
            324 => Chain::ZKsync,
            325 => Chain::ZKsync,
            388 => Chain::ZKsync,
            50104 => Chain::ZKsync,
            61166 => Chain::ZKsync,
            543210 => Chain::ZKsync,
            _ => Chain::ZKsync,
        }
    }
}

/// The data layout (schema) of a chain's blocks, transactions, logs and traces.
#[derive(Debug, Clone, Copy, PartialEq, Eq, Structural)]
pub enum Schema {
    Ethereum,
    ZKsync,
}

/// The chain IDs of the known ZKsync-stack chains: Lens, ZKcandy, ZKsync Era, GRVT, OpenZK,
/// SxT, Cronos zkEVM, Abstract, Ripio LaChain, WonderFi, Gateway, Sophon, Treasure and
/// Zero Network.
pub open spec fn is_zksync_chain_id(chain_id: u64) -> bool {
    chain_id == 232 || chain_id == 320 || chain_id == 324 || chain_id == 325 || chain_id == 388
        || chain_id == 1217 || chain_id == 1345 || chain_id == 2741 || chain_id == 2904
        || chain_id == 9075 || chain_id == 9637 || chain_id == 50104 || chain_id == 61166
        || chain_id == 543210
}

/// The schema of a chain ID: the known ZKsync-stack chains use the ZKsync schema,
/// every other chain (mainnet and unknown chains alike) the Ethereum schema.
pub open spec fn schema_for_id(chain_id: u64) -> Schema {
    if is_zksync_chain_id(chain_id) { Schema::ZKsync } else { Schema::Ethereum }
}

/// The display name of a schema.
pub open spec fn schema_name(s: Schema) -> Seq<char> {
    match s {
        Schema::Ethereum => "Ethereum"@,
        Schema::ZKsync => "ZKsync"@,
    }
}

impl Schema {
    /// The schema of a chain ID; this never fails, unknown chains get the Ethereum schema.
    pub fn from_chain_id(chain_id: u64) -> (r: Result<Schema, IndexerError>)
        ensures
            r == Ok::<Schema, IndexerError>(schema_for_id(chain_id)),
    {
        match chain_id {
            1 => Ok(Schema::Ethereum),
            232 | 320 | 324 | 325 | 388 | 1217 | 1345 | 2741 | 2904 | 9075 | 9637 | 50104 | 61166
            | 543210 => Ok(Schema::ZKsync),
            _ => Ok(Schema::Ethereum),
        }
    }

    /// The display name of the schema (`Ethereum` or `ZKsync`).
    pub fn to_string(&self) -> (r: String)
        ensures
            r@ == schema_name(*self),
    {
        match self {
            Schema::Ethereum => String::from_str("Ethereum"),
            Schema::ZKsync => String::from_str("ZKsync"),
        }
    }
}

/// What the indexer knows of the chain it indexes.
#[derive(Debug, Clone)]
pub struct ChainInfo {
    pub id: u64,
    pub name: String,
    pub schema: Schema,
}

impl ChainInfo {
    /// The information of the chain with the given ID, name and schema.
    pub fn new(id: u64, name: String, schema: Schema) -> (r: ChainInfo)
        ensures
            r.id == id,
            r.name == name,
            r.schema == schema,
    {
        ChainInfo { id, name, schema }
    }
}

/// Where and whether the metrics endpoint is served.
#[derive(Debug)]
pub struct MetricsConfig {
    pub enabled: bool,
    pub address: String,
    pub port: u16,
}

/// The indexer's configuration.
#[derive(Debug)]
pub struct Config {
    pub chain_name: String,
    pub start_block: Option<u64>,
    pub end_block: Option<u64>,
    pub chain_tip_buffer: u64,
    pub rpc_url: String,
    pub dataset_location: String,
    pub datasets: Vec<String>,
    pub metrics: MetricsConfig,
}

/// A text with every hyphen replaced by an underscore.
pub open spec fn underscored(s: Seq<char>) -> Seq<char> {
    s.map_values(|c: char| if c == '-' { '_' } else { c })
}

/// The text with every hyphen replaced by an underscore, character by character.
pub fn replace_hyphens(s: &str) -> (r: String)
    ensures
        r@ == underscored(s@),
{
    let n = s.unicode_len();
    let mut r = String::new();
    let mut i: usize = 0;
    while i < n
        invariant
            n == s@.len(),
            i <= n,
            r@ == underscored(s@.subrange(0, i as int)),
        decreases n - i,
    {
        let c = s.get_char(i);
        let ghost before = r@;
        if c == '-' {
            r.append("_");
            proof {
                reveal_strlit("_");
            }
        } else {
            r.append(s.substring_char(i, i + 1));
        }
        proof {
            assert(s@.subrange(0, i + 1) =~= s@.subrange(0, i as int).push(c));
            assert(r@ =~= before.push(if c == '-' { '_' } else { c }));
            assert(underscored(s@.subrange(0, i + 1)) =~= underscored(s@.subrange(0, i as int)).push(
                if c == '-' { '_' } else { c },
            ));
        }
        i = i + 1;
    }
    proof {
        assert(s@.subrange(0, n as int) =~= s@);
    }
    r
}

impl Config {
    /// The configuration as the indexer uses it once read: the chain name, which names the
    /// storage dataset, with its hyphens turned into underscores; everything else unchanged.
    pub fn normalized(self) -> (r: Config)
        ensures
            r.chain_name@ == underscored(self.chain_name@),
            r.start_block == self.start_block,
            r.end_block == self.end_block,
            r.chain_tip_buffer == self.chain_tip_buffer,
            r.rpc_url == self.rpc_url,
            r.dataset_location == self.dataset_location,
            r.datasets == self.datasets,
            r.metrics == self.metrics,
    {
        let chain_name = replace_hyphens(self.chain_name.as_str());
        Config { chain_name, ..self }
    }
}

/// The destination of a contract call or creation transaction.
#[derive(Debug, Clone, Copy)]
pub enum TxKind {
    Create,
    Call(Address),
}

/// The `to` field of a transaction, as its envelope type carries it.
#[derive(Debug, Clone, Copy)]
pub enum TransactionTo {
    /// For legacy, EIP-2930 and EIP-1559 transactions, which may create a contract.
    TxKind(TxKind),
    /// For EIP-4844 and EIP-7702 transactions, which always call an address.
    Address(Address),
}

/// The chain ID that a signed transaction commits to.
#[derive(Debug, Clone, Copy, PartialEq, Eq, Structural)]
pub enum ChainId {
    /// A legacy transaction, which may omit its chain ID.
    Legacy(Option<u64>),
    /// Any other transaction type.
    Other(u64),
}

} // verus!
