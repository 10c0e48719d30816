//! The reasons for which the role refuses a request.

use cosmwasm_std::StdError;
use vstd::prelude::*;

verus! {

/// Why a request to the role failed. A failed request changes nothing: the
/// record is left as it was.
#[derive(Debug, PartialEq)]
pub enum SecureAdminError {
    /// The address in the request did not pass validation. The validator's
    /// own error is carried unchanged.
    Std(StdError),
    /// The caller is not the admin, and the request is the admin's alone.
    NotAdmin {},
    /// The caller is not the proposed admin, and only the proposed admin can
    /// accept the role.
    NotProposedAdmin {},
    /// The role has an admin already and cannot be set up a second time.
    AlreadyInitialized {},
    /// The role has been abolished. Nothing can be done to it any more.
    AdminRoleAbolished {},
}

impl From<StdError> for SecureAdminError {
    /// Wraps a validator's error, unchanged.
    fn from(e: StdError) -> (err: SecureAdminError)
        ensures
            err == SecureAdminError::Std(e),
    {
        SecureAdminError::Std(e)
    }
}

impl vstd::std_specs::convert::FromSpecImpl<StdError> for SecureAdminError {
    open spec fn obeys_from_spec() -> bool {
        true
    }

    open spec fn from_spec(e: StdError) -> SecureAdminError {
        SecureAdminError::Std(e)
    }
}

} // verus!
