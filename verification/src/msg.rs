//! The requests that the role accepts and the snapshot that it answers with.

use vstd::prelude::*;

verus! {

/// A request to set the role up. Anyone may send it, but only while the role
/// is uninitialized.
#[derive(Clone, Debug, PartialEq)]
pub enum AdminInit {
    /// Makes `admin` the first holder of the role, once its address has passed
    /// validation.
    SetInitialAdmin { admin: String },
    /// Abolishes the role before anyone has held it. No admin can ever be set
    /// afterwards.
    AbolishAdminRole,
}

/// A request to change a role that has been set up.
#[derive(Clone, Debug, PartialEq)]
pub enum SecureAdminUpdate {
    /// Proposes `proposed` as the next admin, once its address has passed
    /// validation, in place of whoever was proposed before. Only the admin can
    /// do this.
    ProposeNewAdmin { proposed: String },
    /// Takes the pending proposal back, if there is one. Only the admin can do
    /// this.
    ClearProposed,
    /// Makes the proposed admin the admin. Only the proposed admin can do
    /// this.
    AcceptProposed,
    /// Abolishes the role. No admin can ever be set afterwards. Only the admin
    /// can do this.
    AbolishAdminRole,
}

/// The externally observable snapshot of the role: who holds it and who is
/// proposed to take it over, each as text, and absent where there is none.
#[derive(Clone, Debug, PartialEq)]
pub struct SecureAdminResponse {
    pub admin: Option<String>,
    pub proposed: Option<String>,
}

/// The mathematical value of a [`SecureAdminResponse`].
pub struct SecureAdminResponseView {
    pub admin: Option<Seq<char>>,
    pub proposed: Option<Seq<char>>,
}

impl View for SecureAdminResponse {
    type V = SecureAdminResponseView;

    open spec fn view(&self) -> SecureAdminResponseView {
        SecureAdminResponseView {
            admin: match self.admin {
                Some(text) => Some(text@),
                None => None,
            },
            proposed: match self.proposed {
                Some(text) => Some(text@),
                None => None,
            },
        }
    }
}

impl AdminInit {
    /// The text that this request asks to have validated, if any.
    pub open spec fn raw(self) -> Option<Seq<char>> {
        match self {
            AdminInit::SetInitialAdmin { admin } => Some(admin@),
            AdminInit::AbolishAdminRole => None,
        }
    }
}

impl SecureAdminUpdate {
    /// The text that this request asks to have validated, if any.
    pub open spec fn raw(self) -> Option<Seq<char>> {
        match self {
            SecureAdminUpdate::ProposeNewAdmin { proposed } => Some(proposed@),
            _ => None,
        }
    }

    /// Whether only the current admin may send this request. The one request
    /// that is not the admin's is the acceptance, which is the proposed
    /// admin's.
    pub open spec fn admin_only(self) -> bool {
        !(self is AcceptProposed)
    }
}

} // verus!
