# grapl_pipeline

The verified core of a security-graph ingestion pipeline, written in Verus.

Events arrive as subgraphs: nodes (processes, files, connections, assets,
addresses, dynamic nodes) with edges between them. Before they are stored,
every node gets a stable key: sessions are resolved through history tables,
assets take their asset id, addresses their address, ports the hash of their
address, port and protocol. This crate holds that logic and proves it against
its contracts.

## Layout

- `src/graph.rs` – nodes, edges, graphs; adding, merging, looking up.
- `src/graph_ops.rs` – removing dead nodes and edges, renaming nodes and edges.
- `src/node_identifier.rs` – sessions of nodes and how each node gets its key.
- `src/identification.rs` – a whole batch: merging, asset-id mappings and
  attribution, assembling the identified graph.
- `src/identification_steps.rs` – identification of a batch as a state
  machine: each step takes what the stores answered and says what to ask next.
- `src/payload.rs` – serializing batches (merge, encode, zstd) and decoding them.
- `src/process_inbound_connection.rs` – the inbound-connection node.
- `src/plugin_work_queue.rs` – the plugin work-queue messages and their checks.
- `src/model_plugin_deployer.rs`, `src/analyzer_dispatcher.rs`,
  `src/sysmon_generator.rs`, `src/hash_cache.rs` – the decisions of the services.
- `src/digest.rs`, `src/decimal.rs` – hashing, hex, compression, decimal text.
- `app/` – environment, AWS clients, bucket listings, JSON, RPC statuses, and
  the loop that does the store work the identification steps ask for.
- `tests/` – tests on concrete values.
