//! Resolution of chain connectivity from registry records: address
//! formatting, endpoint health racing with bounded retry, packet-filter
//! derivation from path records, and per-chain configuration assembly.
//!
//! Every decision is a verified function on plain values. Network probes and
//! registry fetches are performed by the caller, which hands their outcomes
//! to the functions of this crate.
//!
//! - [`formatter`]: WebSocket and gRPC addresses from advertised ones.
//! - [`querier`]: probe kinds, racing and collecting.
//! - [`retry`]: bounded retry of a racing round.
//! - [`transport`], [`select`]: the endpoints of one chain.
//! - [`paths`], [`dedup`], [`filter`]: paths between chains and the packet
//!   filters that they give.
//! - [`config`]: the configuration of one chain.
//! - [`batch`]: the configurations of a list of chains.
//! - [`directory`]: the addresses of the channel directory.

pub mod batch;
pub mod chain;
pub mod config;
pub mod dedup;
pub mod directory;
pub mod error;
pub mod filter;
pub mod formatter;
pub mod paths;
pub mod querier;
pub mod retry;
pub mod select;
pub mod text;
pub mod transport;
