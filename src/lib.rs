//! Update-orchestration core of a device firmware-update agent: the update
//! policy state machine, the transport data model, the artifact verification
//! pipeline and the decisions of the orchestrating event loop.

pub mod error;
pub mod logic;
pub mod transport;
pub mod security;
pub mod mqtt;
pub mod http_client_json;
pub mod system_intergration;
