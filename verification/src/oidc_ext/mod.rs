//! Beyond the basic profile: dynamic client registration and logout.

pub mod logout;
pub mod registration;
