//! The rules of the HTTP interface: logging in and registering, the RSS
//! bridge and the proxy for resources.

pub mod login;
pub mod registration;
pub mod resources;
pub mod rss;
