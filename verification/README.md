# rust-fe

The planner and query-execution core of a Doris-compatible frontend, written
in Verus. The functions in `src/` carry contracts that the verifier proves,
except the small wrappers marked `#[verifier::external_body]` around calls
into sqlparser, arrow, chrono and std: their contracts are trusted, and each
one's doc comment says what it claims of the code it calls.

- `src/plan_fragment.rs` — plan nodes, expressions and fragments, with their
  mathematical models.
- `src/fragment_splitter.rs` — splitting a plan into fragments at exchange
  points; `src/fragment_executor.rs` — the SQL of each fragment.
- `src/cost_model.rs`, `src/partition_pruner.rs`, `src/runtime_filters.rs`,
  `src/bucket_shuffle.rs` — the distributed-execution optimizations, toggled
  by `src/feature_flags.rs`.
- `src/plan_converter.rs` — the nodes that executed-plan operators become.
- `src/arrow_parser.rs`, `src/query/arrow_results.rs` — Arrow results read
  into MySQL result sets (`src/mysql.rs`); `src/ipc_check.rs` — the layout
  check that an Arrow IPC stream passes before it is decoded.
- `src/query/` — sessions, the query queue, `INSERT ... VALUES` loading,
  statement routing and `DESCRIBE` output; `src/sql_syntax.rs` — syntax
  checks and statement kinds.
- `src/text.rs` — character-level string building, searching and number
  rendering and parsing.

`app/` holds what Verus does not see: configuration files and the process
environment, the shared queue with its execution slots and the executor that
runs queued statements along the library's routes, the walk over DataFusion
physical plans, and floating-point views. `tests/` exercise the
library.
