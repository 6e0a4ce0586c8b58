//! OpenID Connect and OAuth 2.0 endpoints.

pub mod authorize;
pub mod client;
pub mod codes;
pub mod consent;
pub mod device;
pub mod discovery;
pub mod exchange;
pub mod introspect;
pub mod mint;
pub mod refresh;
pub mod scope;
pub mod urls;
pub mod userinfo;
