//! Tenant-aware telemetry context: the context value recorded on spans, the redaction of
//! sensitive field values, the keyed and task-scoped context stores, span enrichment, header
//! propagation, and the configuration that selects where telemetry is exported.

pub mod text;
pub mod identity;
pub mod context;
pub mod ctx;
pub mod redaction;
pub mod headers;
pub mod config;
pub mod presets;
pub mod export;
pub mod store;
pub mod propagation;
pub mod tasklocal;
pub mod layer;
pub mod testutil;
pub mod metrics;
pub mod host_bridge;
pub mod wasm_host;
pub mod wasm_guest;
