//! Dynamic-DNS synchronisation: record validation, the router's session
//! handshake, record reconciliation against a DNS provider and the
//! per-record synchronisation decisions.
pub mod cloudflare;
pub mod config;
pub mod dns;
pub mod freebox;
pub mod sources;
pub mod sync;
pub mod text;
pub mod utils;
