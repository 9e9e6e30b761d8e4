//! Dynamic DNS: keeps the A and AAAA records of a host at a managed DNS
//! provider in step with the address its owner reports.
//!
//! The library decides; it performs no input or output. A request enters
//! at [`server::update`], which authenticates the caller, finds the domain
//! and makes one call of [`providers::Provider::update_ip`] for each address
//! that was supplied. A provider adapter runs the state machine of
//! [`engine`]: it lists the zone, and writes the one record that
//! [`resolver::resolve`] names if that record holds another value.
//! [`hetzner`] describes the requests of one backend. Sending them, parsing
//! addresses and serving HTTP are the caller's part.

pub mod address;
pub mod config;
pub mod engine;
pub mod hetzner;
pub mod http;
pub mod providers;
pub mod record;
pub mod resolver;
pub mod search;
pub mod server;
pub mod text;
