# blockchain-indexer

An indexer for EVM chains (Ethereum and ZKsync-stack chains): it reads blocks, receipts and
call traces from an RPC endpoint, turns them into rows of four tables (blocks,
transactions, logs, traces) and writes them to BigQuery.

The logic is a library verified with Verus:

- `src/models`: the RPC responses (`rpc.rs`, as plain values), the parsed and stored rows
  (`datasets/`), chains, schemas, configuration and errors.
- `src/indexer/rpc`: parsing headers, transactions, receipts, logs and call traces.
- `src/indexer/transformations`: turning parsed data into rows, with their keys.
- `src/indexer/mod.rs`: what to fetch for a block, parsing and transforming a block's
  responses, collecting trace results.
- `src/storage`: the storage workers' batching, insert IDs, insert request sizes, table
  layouts and the block to resume from.
- `src/pipeline.rs`, `src/utils`: the main loop's decisions, retries, the adaptive rate
  limit, hexadecimal and decimal numbers, block times.

`app/` is the program around it: configuration file, RPC calls, BigQuery, metrics, channels
and timers.
