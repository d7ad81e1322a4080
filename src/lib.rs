//! Control plane for sandboxed game servers: version resolution, record
//! rules, container provisioning plans, restore and delete decisions, and the
//! console session protocol.

pub mod text;
pub mod naming;
pub mod version;
pub mod provision;
pub mod record;
pub mod lifecycle;
pub mod message;
pub mod session;
pub mod config;
pub mod response;
