//! Publishing a player-made contract to the game's backend.
//!
//! The backend is driven by four calls in a fixed order: acquire a play
//! session, report the events of a finished playthrough, ask for an empty
//! contract record, and fill that record with the contract's parameters.
//! This library decides what each call carries and what each answer means;
//! sending and receiving are left to the caller.

use vstd::prelude::*;

pub mod contract;
pub mod document;
pub mod error;
pub mod event;
pub mod json;
pub mod protocol;
pub mod request;
pub mod services;
pub mod token;

verus! {

/// The backend generation that a contract is published to.
#[allow(non_camel_case_types)]
#[derive(Debug, Clone, Copy, PartialEq, Eq, Structural)]
pub enum PublishTypes {
    HITMAN2,
    HITMAN3,
}

} // verus!
