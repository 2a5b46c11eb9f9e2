//! Core logic of a VPN connection-sharing gateway: a NAT-PMP port-mapping
//! engine, the ownership rules of a sharing session, and the orchestration
//! state machine that sequences start, stop and cancellation.

pub mod app;
pub mod config;
pub mod error;
pub mod health;
pub mod net;
pub mod scan;
pub mod sequence;
pub mod session;
pub mod system;
pub mod text;
pub mod ui;
