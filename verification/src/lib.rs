//! Decision logic of a reverse tunnel that exposes a Minecraft server running
//! behind NAT through a public VPS.
//!
//! The VPS accepts players on the game port and a home client on the tunnel
//! port. The client holds one control connection; for every player the VPS
//! sends a one-byte signal on it, and the client answers by opening a fresh
//! data connection that is then bridged to the local Minecraft server.
//!
//! This crate holds the wire protocol, the statistics that the dashboard
//! reports, the configuration rules and the two connection state machines.
//! The sockets, timers and the HTTP server live in the program around it.

pub mod protocol;
pub mod seqs;
pub mod stats;
pub mod bridge;
pub mod config;
pub mod client;
pub mod vps;
pub mod history;
