//! Decision core of an OpenID Connect provider.

pub mod identity;
pub mod laws;
pub mod oidc;
pub mod oidc_ext;
pub mod oneshot;
pub mod ops;
pub mod otp;
pub mod outside;
pub mod pages;
pub mod passkey;
pub mod policy;
pub mod reply;
pub mod role;
pub mod router;
pub mod scim;
pub mod text;
