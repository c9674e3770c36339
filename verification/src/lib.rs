//! Host-based defense against rogue IPv6 Router Advertisements.
//!
//! The crate models and drives a packet interception pipeline: a firewall
//! rule lifecycle that installs and removes a kernel match-and-queue rule
//! with its packet counter, a verdict loop that classifies queued packets
//! and records advertised prefixes, and a supervisor that sequences one
//! run, including recovery from a transient queue-start failure.

pub mod error;
pub mod nft;
pub mod prefix;
pub mod queue;
pub mod ra;
pub mod state;
pub mod supervisor;
