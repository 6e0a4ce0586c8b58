//! What the operations are for, stated of their inputs and results.

pub mod access;
pub mod authorize;
pub mod clients;
pub mod device;
pub mod logout;
pub mod messages;
pub mod passkeys;
pub mod provisioning;
pub mod registration;
pub mod server;
pub mod tokens;
pub mod words;
