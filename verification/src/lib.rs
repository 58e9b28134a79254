//! The runtime of an exchange adapter for market data: the transport's and the
//! session's decisions, the venue's command dialect, and the normalizer of its trades.

pub mod backoff;
pub mod batch;
pub mod config;
pub mod contracts;
pub mod crawl;
pub mod envelope;
pub mod gate_spot;
pub mod handler;
pub mod kinds;
pub mod mxc_swap;
pub mod pair;
pub mod replay;
pub mod session;
pub mod session_laws;
pub mod text;
pub mod translator;
pub mod transport;
