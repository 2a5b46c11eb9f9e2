//! Models of the operating-system facilities that sharing relies on.

pub mod anchor;
pub mod dns;
pub mod firewall;
pub mod mapping;
pub mod natpmp;
pub mod network;
pub mod sysctl;
