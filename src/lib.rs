//! Coordination layer of a component host kernel: mesh routing, scoped
//! store access, session bookkeeping, patch fan-out and provider lookup.

pub mod audit;
pub mod host;
pub mod mesh;
pub mod registry;
pub mod router;
pub mod service_mesh;
pub mod session;
pub mod sql_state;
pub mod store;
pub mod table;
pub mod types;
pub mod ws;
