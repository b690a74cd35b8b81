//! Custody and accounting core of a wrapped-token bridge: a token program with
//! minter and guardian registries, and a gateway that tracks how much of the
//! canonical token it has issued against bridged deposits.
//!
//! - `pubkey`: 32-byte addresses.
//! - `authority`: two-phase handover of a program's authority.
//! - `registry`: a dense set of principals with swap-with-last removal.
//! - `ledger`: the minting limit and the minted amount, with checked arithmetic.
//! - `tbtc`: the token program (authority, minters, guardians, pause, mint).
//! - `gateway`: the gateway's state, authority, limit and remote gateways.
//! - `settlement`: inbound transfers, settled at most once, and deposits.
//! - `outbound`: outbound transfers, truncated to bridge precision.
//! - `token`: the token movements that instructions ask the host to perform.
//!
//! Instructions check everything before they change anything: a failure
//! leaves the state as it was. Token movements, events and bridge transfers
//! are returned as values for the host to carry out.
pub mod pubkey;
pub mod error;
pub mod ledger;
pub mod authority;
pub mod registry;
pub mod token;
pub mod tbtc;
pub mod gateway;
pub mod settlement;
pub mod outbound;
