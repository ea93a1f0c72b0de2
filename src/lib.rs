//! Decisions of a helper daemon that emulates device-node creation and quota
//! control for containers confined to user namespaces.
pub mod capability;
pub mod error;
pub mod path;
pub mod request;
pub mod mknod;
pub mod quota;
pub mod worker;
pub mod session;
pub mod handler;
pub mod wire;
pub mod walk;
