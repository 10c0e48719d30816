//! A two-step, revocable hand-over protocol for a single privileged role.
//!
//! The role's record is a small finite state machine: it starts out
//! uninitialized, is then owned by one address, may carry a proposal for the
//! next owner, and can be abolished for good. Every transition is guarded by
//! the caller's address, and every guard and transition is stated as a
//! contract over the record's mathematical view and proved.

pub mod address;
pub mod admin;
pub mod error;
pub mod laws;
pub mod msg;
pub mod state;

pub use address::addr_text;
pub use admin::SecureAdmin;
pub use error::SecureAdminError;
pub use msg::{AdminInit, SecureAdminResponse, SecureAdminUpdate};
pub use state::AdminState;
