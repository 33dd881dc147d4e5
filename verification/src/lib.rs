//! A reverse-tunnel TCP proxy core with mutual pre-shared-key
//! authentication: the challenge–response scheme, the handshake verdict, the
//! tunnel lifecycle (unauthenticated, authenticated, connected, each phase a
//! type of its own), and the byte-preservation model of the bidirectional
//! splice. All I/O — sockets, timers, task spawning — lives with the caller;
//! this crate makes every decision of the protocol and proves its contracts.

pub mod challenge_response;
pub mod config;
pub mod driver;
pub mod protocol;
pub mod splice;
