//! Core of a fault-injecting reverse proxy: per-request admission control,
//! scenario matching, probabilistic fault injection, metrics accounting, and
//! construction of the forwarded request. The surrounding process (listener,
//! transport, configuration file handling) lives outside this library and
//! drives it through the `pipeline` module.

pub mod config;
pub mod matcher;
pub mod metrics;
pub mod pipeline;
pub mod proxy;
pub mod text;
