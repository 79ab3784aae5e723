//! Verified core of a graph-ingestion pipeline: node descriptions and their
//! identification, subgraph bookkeeping, and the plugin work-queue messages.
pub mod process_inbound_connection;
pub mod graph;
pub mod decimal;
pub mod digest;
pub mod node_identifier;
pub mod graph_ops;
pub mod identification;
pub mod identification_steps;
pub mod payload;
pub mod recoverable;
pub mod hash_cache;
pub mod plugin_work_queue;
pub mod model_plugin_deployer;
pub mod analyzer_dispatcher;
pub mod sysmon_generator;
