//! A Prometheus-style exporter for a Bitcoin Core daemon.
//!
//! On each scrape the exporter queries the daemon over many independent RPC
//! calls, writes whatever succeeded into a process-wide metric registry, and
//! renders the registry in the plain-text exposition format. Every part of
//! that pipeline — the registry, the collectors, the request dispatch and the
//! encoder — is verified; the RPC transport and the HTTP server live outside
//! the library and hand it plain values.

pub mod args;
pub mod collect;
pub mod config;
pub mod daemon;
pub mod encoder;
pub mod registry;
pub mod serve;

pub use args::Args;
pub use config::Config;
