//! Plugin orchestration core for a proxy speed-measurement controller.
//!
//! Plugins supply proxy candidates and tests; the library supervises the
//! readiness handshake of locally launched plugins, keeps the registry of
//! plugins that loaded, discovers which proxies and tests each one offers,
//! and assembles the nested result tree of a full cross-product run.

pub mod engine;
pub mod local;
pub mod plugin;
pub mod plugin_loader;
pub mod process;
pub mod speedtest;
pub mod value;
