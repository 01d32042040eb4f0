//! A minimal ledger of per-user point balances.
//!
//! Every record is owned by one identity, which alone may spend from it or
//! close it. The operations are total functions on plain values: a caller
//! loads the records, hands them over together with the authenticated
//! signer, stores what comes back and logs the event.

pub mod error;
pub mod event;
pub mod identity;
pub mod ledger;
pub mod user;

pub use crate::error::MyError;
pub use crate::event::Event;
pub use crate::identity::Identity;
pub use crate::ledger::{
    initialize, remove_user, transfer_points, CreateUser, RemoveUser, Slot, TransferPoints,
};
pub use crate::user::{User, MAX_NAME_LENGTH, STARTING_POINTS};
