//! The role's record and its mathematical model.
//!
//! The record is flat: a flag and two optional addresses. Its view replaces
//! each address by the text it holds, and the two transition functions of the
//! view, [`AdminStateView::initialize`] and [`AdminStateView::update`], say
//! what every request does to it. The executable operations are proved against
//! these two functions.

use crate::address::{addr_text, opt_addr_text};
use crate::error::SecureAdminError;
use crate::msg::{AdminInit, SecureAdminResponseView, SecureAdminUpdate};
use cosmwasm_std::Addr;
use cosmwasm_std::StdError;
use vstd::prelude::*;

verus! {

/// The record of the role, as it is kept.
///
/// Every operation leaves a record that is well formed in the sense of
/// [`AdminStateView::wf`] well formed, and the role starts out so. A record
/// that came from elsewhere need not be well formed, and every operation is
/// defined on it all the same.
#[derive(Clone, Debug, PartialEq)]
pub struct AdminState {
    /// Once true, permanently true: no request changes the record again.
    pub abolished: bool,
    /// Who holds the role, if anyone.
    pub admin: Option<Addr>,
    /// Who has been proposed to take the role over, if anyone.
    pub proposed: Option<Addr>,
}

/// The mathematical value of a record: the flag, and the text of each address.
pub struct AdminStateView {
    pub abolished: bool,
    pub admin: Option<Seq<char>>,
    pub proposed: Option<Seq<char>>,
}

/// The four states that a well-formed record can be in.
pub enum RoleState {
    /// Nobody holds the role yet.
    Uninitialized,
    /// `admin` holds the role and nobody is proposed.
    Owned { admin: Seq<char> },
    /// `admin` holds the role and `proposed` may accept it.
    OwnedWithProposal { admin: Seq<char>, proposed: Seq<char> },
    /// The role is gone for good.
    Abolished,
}

impl View for AdminState {
    type V = AdminStateView;

    open spec fn view(&self) -> AdminStateView {
        AdminStateView {
            abolished: self.abolished,
            admin: opt_addr_text(self.admin),
            proposed: opt_addr_text(self.proposed),
        }
    }
}

/// What a validator answered, with the address replaced by its text.
pub open spec fn validated_text(validated: Result<Addr, StdError>) -> Result<Seq<char>, StdError> {
    match validated {
        Ok(addr) => Ok(addr_text(addr)),
        Err(e) => Err(e),
    }
}

/// The value of a stored record, where no record at all counts as the
/// uninitialized one.
pub open spec fn record_view(record: Option<AdminState>) -> AdminStateView {
    match record {
        Some(state) => state@,
        None => AdminStateView::uninitialized(),
    }
}

impl AdminStateView {
    /// The record before anything has happened.
    pub open spec fn uninitialized() -> AdminStateView {
        AdminStateView { abolished: false, admin: None, proposed: None }
    }

    /// The record of a role that has been abolished.
    pub open spec fn abolished_for_good() -> AdminStateView {
        AdminStateView { abolished: true, admin: None, proposed: None }
    }

    /// The invariant of the record: an abolished role has neither admin nor
    /// proposal, and a proposal exists only beside an admin.
    pub open spec fn wf(self) -> bool {
        &&& self.abolished ==> self.admin is None && self.proposed is None
        &&& self.proposed is Some ==> self.admin is Some
    }

    /// Which of the four states a record is in. It is meant for well-formed
    /// records; on others it goes by the flag first and the admin second.
    pub open spec fn role_state(self) -> RoleState {
        if self.abolished {
            RoleState::Abolished
        } else {
            match (self.admin, self.proposed) {
                (Some(admin), Some(proposed)) => RoleState::OwnedWithProposal { admin, proposed },
                (Some(admin), None) => RoleState::Owned { admin },
                (None, _) => RoleState::Uninitialized,
            }
        }
    }

    /// What the record shows to the outside: its admin and its proposed
    /// admin, each absent exactly where the record has none.
    pub open spec fn snapshot(self) -> SecureAdminResponseView {
        SecureAdminResponseView { admin: self.admin, proposed: self.proposed }
    }

    /// Whether `who` holds the role.
    pub open spec fn is_admin(self, who: Seq<char>) -> bool {
        self.admin == Some(who)
    }

    /// Whether `who` is the one proposed to take the role over.
    pub open spec fn is_proposed(self, who: Seq<char>) -> bool {
        self.proposed == Some(who)
    }

    /// Whether setting the role up with `init` gets as far as asking the
    /// validator: the role is still uninitialized and the request names an
    /// admin.
    pub open spec fn initialize_asks(self, init: AdminInit) -> bool {
        !self.abolished && self.admin is None && init is SetInitialAdmin
    }

    /// What setting the role up does, given what the validator answers for the
    /// admin that the request names. The answer matters only where
    /// [`Self::initialize_asks`] holds.
    pub open spec fn initialize(
        self,
        init: AdminInit,
        validated: Result<Seq<char>, StdError>,
    ) -> Result<AdminStateView, SecureAdminError> {
        if self.abolished {
            Err(SecureAdminError::AdminRoleAbolished {  })
        } else if self.admin is Some {
            Err(SecureAdminError::AlreadyInitialized {  })
        } else {
            match init {
                AdminInit::SetInitialAdmin { .. } => match validated {
                    Ok(admin) => Ok(
                        AdminStateView { abolished: false, admin: Some(admin), proposed: None },
                    ),
                    Err(e) => Err(SecureAdminError::Std(e)),
                },
                AdminInit::AbolishAdminRole => Ok(AdminStateView::abolished_for_good()),
            }
        }
    }

    /// Whether the request `event` of `caller` passes the guards: the role is
    /// not abolished, and the caller is the proposed admin for an acceptance
    /// and the admin for everything else.
    pub open spec fn permits(self, caller: Seq<char>, event: SecureAdminUpdate) -> bool {
        &&& !self.abolished
        &&& if event.admin_only() {
            self.is_admin(caller)
        } else {
            self.is_proposed(caller)
        }
    }

    /// Whether the request `event` of `caller` gets as far as asking the
    /// validator: it passes the guards and proposes a new admin.
    pub open spec fn update_asks(self, caller: Seq<char>, event: SecureAdminUpdate) -> bool {
        self.permits(caller, event) && event is ProposeNewAdmin
    }

    /// What the request `event` of `caller` does, given what the validator
    /// answers for the admin that the request proposes. The answer matters only
    /// where [`Self::update_asks`] holds.
    pub open spec fn update(
        self,
        caller: Seq<char>,
        event: SecureAdminUpdate,
        validated: Result<Seq<char>, StdError>,
    ) -> Result<AdminStateView, SecureAdminError> {
        if self.abolished {
            Err(SecureAdminError::AdminRoleAbolished {  })
        } else if event.admin_only() && !self.is_admin(caller) {
            Err(SecureAdminError::NotAdmin {  })
        } else if !event.admin_only() && !self.is_proposed(caller) {
            Err(SecureAdminError::NotProposedAdmin {  })
        } else {
            match event {
                SecureAdminUpdate::ProposeNewAdmin { .. } => match validated {
                    Ok(proposed) => Ok(AdminStateView { proposed: Some(proposed), ..self }),
                    Err(e) => Err(SecureAdminError::Std(e)),
                },
                SecureAdminUpdate::ClearProposed => Ok(AdminStateView { proposed: None, ..self }),
                SecureAdminUpdate::AcceptProposed => Ok(
                    AdminStateView { abolished: false, admin: Some(caller), proposed: None },
                ),
                SecureAdminUpdate::AbolishAdminRole => Ok(AdminStateView::abolished_for_good()),
            }
        }
    }
}

impl AdminState {
    /// The record before anything has happened.
    pub fn uninitialized() -> (state: AdminState)
        ensures
            state == (AdminState { abolished: false, admin: None, proposed: None }),
            state@ == AdminStateView::uninitialized(),
    {
        AdminState { abolished: false, admin: None, proposed: None }
    }

    /// The record of a role that has been abolished.
    pub fn abolished_for_good() -> (state: AdminState)
        ensures
            state == (AdminState { abolished: true, admin: None, proposed: None }),
            state@ == AdminStateView::abolished_for_good(),
    {
        AdminState { abolished: true, admin: None, proposed: None }
    }

    /// The record that setting up an admin leaves, given what the validator
    /// answered for that admin: the validated address holds the role, or the
    /// validator's error comes back unchanged.
    pub fn with_initial_admin(validated: Result<Addr, StdError>) -> (res: Result<
        AdminState,
        SecureAdminError,
    >)
        ensures
            res == match validated {
                Ok(admin) => Ok(AdminState { abolished: false, admin: Some(admin), proposed: None }),
                Err(e) => Err(SecureAdminError::Std(e)),
            },
    {
        match validated {
            Ok(admin) => Ok(AdminState { abolished: false, admin: Some(admin), proposed: None }),
            Err(e) => Err(SecureAdminError::from(e)),
        }
    }

    /// The record that a proposal leaves, given what the validator answered
    /// for the proposed admin: the validated address becomes the proposal and
    /// nothing else changes, or the validator's error comes back unchanged.
    pub fn with_proposed(self, validated: Result<Addr, StdError>) -> (res: Result<
        AdminState,
        SecureAdminError,
    >)
        ensures
            res == match validated {
                Ok(proposed) => Ok(AdminState { proposed: Some(proposed), ..self }),
                Err(e) => Err(SecureAdminError::Std(e)),
            },
    {
        match validated {
            Ok(proposed) => Ok(
                AdminState { abolished: self.abolished, admin: self.admin, proposed: Some(proposed) },
            ),
            Err(e) => Err(SecureAdminError::from(e)),
        }
    }
}

} // verus!
