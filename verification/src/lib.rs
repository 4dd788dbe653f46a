//! Test-harness client for an auxiliary ledger "explorer" service.
//!
//! The library holds the verified core of the harness: the counted-handle
//! supervisor that tears the spawned service process down exactly once, the
//! bounded bootstrap probe schedule, the typed query builders of the explorer
//! facade together with the exact JSON framing of each request, the schema
//! drift check, and the marshalling of the vote-tally command. The pieces
//! that touch the outside world (spawning, HTTP, files, sleeping) live in a
//! thin unverified shell that drives these functions.

pub mod bootstrap;
pub mod explorer;
pub mod hex;
pub mod request;
pub mod schema;
pub mod supervisor;
pub mod tally;
pub mod text;
pub mod vote;
