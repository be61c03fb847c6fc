//! Verified core of a contract-event indexer: decoding of raw log
//! envelopes into typed records, an idempotent persistence model keyed
//! by (user_op_hash, nonce), a backfill runner over a batch of logs,
//! the textual row rendering, the event's topic-0 filter value, and
//! the orchestrator state machine that sequences backfill and the live
//! subscription over one monotone block cursor.
pub mod decode;
pub mod ingest;
pub mod orchestrator;
pub mod render;
pub mod signature;
pub mod store;
