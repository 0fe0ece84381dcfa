//! The core of a daemon that runs virtual machines on one node.
//!
//! The library decides; its host acts. Whatever touches the world — the
//! inventory store, the devices of the operating system, the scripts of a
//! hypervisor, a peer node — is asked of the host as a request and comes
//! back as a response, and every decision in between is a function of this
//! library with a contract.
//!
//! - [`handler`] carries out the commands of the dispatch surface.
//! - [`backend`] and [`script`] run the scripts of a hypervisor.
//! - [`provision`] and [`net`] make bridges and TAP devices and name them.
//! - [`dhcp`] answers the DHCP requests of the machines.
//! - [`remote`] speaks with a peer node.
//! - [`parser`] and [`interface`] read what the front ends receive.

pub mod backend;
pub mod config;
pub mod dhcp;
pub mod error;
pub mod handler;
pub mod host;
pub mod interface;
pub mod json;
pub mod model;
pub mod net;
pub mod parser;
pub mod provision;
pub mod remote;
pub mod script;
pub mod store;
pub mod text;
