//! Client-side core of a TCP/UDP-over-QUIC tunnel: lifecycle states, the shared
//! state table, address handling, TLS and transport choices, retry policy,
//! connection migration and traffic telemetry.

pub mod seqs;
pub mod state;
pub mod text;
pub mod addr;
pub mod server_addr;
pub mod tls;
pub mod registry;
pub mod telemetry;
pub mod table;
pub mod config;
pub mod worker;
pub mod retry;
