//! Payout, proof and block-template logic of a GridPool mining pool.

pub mod address;
pub mod block;
pub mod calendar;
pub mod channel;
pub mod client;
pub mod clock;
pub mod encoding;
pub mod evidence;
pub mod hashing;
pub mod identity;
pub mod manager;
pub mod merkle;
pub mod message;
pub mod number;
pub mod opening;
pub mod provider;
pub mod rpc;
pub mod settings;
pub mod spool;
pub mod telemetry;
pub mod template;
pub mod text;
pub mod work;
