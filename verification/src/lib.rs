//! The logic of an RGB Lightning node, verified: what it decides about payments, channel funding and
//! its recovery, swaps, sweeps, the RGB wallet, its configuration and its own life cycle. Everything
//! that reaches the outside world happens around this library.

use vstd::prelude::*;

pub mod access;
pub mod app_state;
pub mod async_order;
pub mod bump;
pub mod channel_events;
pub mod config;
pub mod cpfp;
pub mod crypto;
pub mod daemon;
pub mod error;
pub mod funding_events;
pub mod funding_handover;
pub mod funding_preparation;
pub mod gossip;
pub mod kv_store;
pub mod network;
pub mod open_failure;
pub mod payment_events;
pub mod payment_index;
pub mod payments;
pub mod psbt;
pub mod receiver_funding;
pub mod receiver_job;
pub mod recovery;
pub mod reimport;
pub mod rgb_import;
pub mod rgb_payments;
pub mod rpc;
pub mod sender_funding;
pub mod sender_job;
pub mod sender_recovery;
pub mod shutdown;
pub mod signer;
pub mod spending;
pub mod stages;
pub mod start;
pub mod startup;
pub mod swaps;
pub mod sweep;
pub mod table;
pub mod text;
pub mod upkeep;
pub mod virtual_channels;
pub mod virtual_funding;
pub mod vss;
pub mod wallet;

verus! {

} // verus!
