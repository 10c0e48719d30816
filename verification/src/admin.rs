//! The role itself: its queries, its guards and its two kinds of request.
//!
//! A [`SecureAdmin`] names the place where the role's record is kept. The
//! record comes in from that place and goes back to it with every call: the
//! operations below take the stored record, which may be absent, and the ones
//! that change it write the new record through the same reference.

use crate::address::{addr_text, clone_opt_addr, holds_addr, opt_addr_text};
use crate::error::SecureAdminError;
use crate::msg::{AdminInit, SecureAdminResponse, SecureAdminResponseView, SecureAdminUpdate};
use crate::state::{record_view, validated_text, AdminState, AdminStateView};
use cosmwasm_std::Addr;
use cosmwasm_std::StdError;
use vstd::prelude::*;

verus! {

/// Whether `validate` may be asked about the text `raw`.
pub open spec fn can_ask<V: FnOnce(&str) -> Result<Addr, StdError>>(
    validate: V,
    raw: Seq<char>,
) -> bool {
    forall|text: &str| text@ == raw ==> #[trigger] call_requires(validate, (text,))
}

/// Whether `answer` is something that `validate` may say when it is asked
/// about the text `raw`.
pub open spec fn may_answer<V: FnOnce(&str) -> Result<Addr, StdError>>(
    validate: V,
    raw: Seq<char>,
    answer: Result<Addr, StdError>,
) -> bool {
    exists|text: &str| text@ == raw && #[trigger] call_ensures(validate, (text,), answer)
}

/// Whether a call failed, and failed with the error `e`.
pub open spec fn refused<T>(res: Result<T, SecureAdminError>, e: SecureAdminError) -> bool {
    res is Err && res->Err_0 == e
}

/// Whether a call that was to take the record to `expected` ended as it
/// should: on success the record `after` has the expected value, and on
/// failure the error is the expected one and the record is the one `before`.
pub open spec fn settled<T>(
    expected: Result<AdminStateView, SecureAdminError>,
    before: Option<AdminState>,
    after: Option<AdminState>,
    res: Result<T, SecureAdminError>,
) -> bool {
    match expected {
        Ok(next) => res is Ok && after is Some && record_view(after) == next,
        Err(e) => refused(res, e) && after == before,
    }
}

/// The outcome of a transition, with the record replaced by its value.
pub open spec fn state_result_view(res: Result<AdminState, SecureAdminError>) -> Result<
    AdminStateView,
    SecureAdminError,
> {
    match res {
        Ok(state) => Ok(state@),
        Err(e) => Err(e),
    }
}

/// How an attribute shows an optional text: as the text itself, or as the
/// word `None` where there is none.
pub open spec fn text_or_none(text: Option<Seq<char>>) -> Seq<char> {
    match text {
        Some(text) => text,
        None => "None"@,
    }
}

/// The attributes that a successful update answers with, as pairs of key and
/// value and in this order: the action, the admin and the proposed admin that
/// the update left, and the sender whose request it was.
pub open spec fn update_attributes(left: SecureAdminResponseView, sender: Seq<char>) -> Seq<
    (Seq<char>, Seq<char>),
> {
    seq![
        ("action"@, "update_admin"@),
        ("admin"@, text_or_none(left.admin)),
        ("proposed"@, text_or_none(left.proposed)),
        ("sender"@, sender),
    ]
}

/// The attributes of an update of `sender` that left the role as `response`
/// shows it.
fn attributes_of(response: SecureAdminResponse, sender: &Addr) -> (attributes: Vec<
    (String, String),
>)
    ensures
        attributes.deep_view() == update_attributes(response@, addr_text(*sender)),
{
    let admin = match response.admin {
        Some(text) => text,
        None => "None".to_owned(),
    };
    let proposed = match response.proposed {
        Some(text) => text,
        None => "None".to_owned(),
    };
    let mut attributes: Vec<(String, String)> = Vec::new();
    attributes.push(("action".to_owned(), "update_admin".to_owned()));
    attributes.push(("admin".to_owned(), admin));
    attributes.push(("proposed".to_owned(), proposed));
    attributes.push(("sender".to_owned(), sender.clone().into_string()));
    attributes
}

/// A two-step transition between admins: the admin proposes a successor, and
/// the successor takes the role by accepting. Until then the admin can take
/// the proposal back, and at any time the admin can abolish the role for good.
pub struct SecureAdmin<'a> {
    namespace: &'a str,
}

impl<'a> SecureAdmin<'a> {
    /// The role whose record is kept under `namespace`.
    pub fn new(namespace: &'a str) -> (admin: Self)
        ensures
            admin.namespace() == namespace,
    {
        SecureAdmin { namespace }
    }

    /// The key under which the role's record is kept.
    pub closed spec fn spec_namespace(&self) -> &'a str {
        self.namespace
    }

    /// The key under which the role's record is kept.
    #[verifier::when_used_as_spec(spec_namespace)]
    pub fn namespace(&self) -> (namespace: &'a str)
        ensures
            namespace == self.spec_namespace(),
    {
        self.namespace
    }

    /// The record as it is read: the stored one, or the uninitialized one
    /// where none is stored.
    pub fn state(&self, record: &Option<AdminState>) -> (state: AdminState)
        ensures
            state == match *record {
                Some(stored) => stored,
                None => AdminState { abolished: false, admin: None, proposed: None },
            },
            state@ == record_view(*record),
    {
        match record {
            Some(stored) => AdminState {
                abolished: stored.abolished,
                admin: clone_opt_addr(&stored.admin),
                proposed: clone_opt_addr(&stored.proposed),
            },
            None => AdminState::uninitialized(),
        }
    }

    /// Who holds the role, if anyone.
    pub fn current(&self, record: &Option<AdminState>) -> (admin: Option<Addr>)
        ensures
            admin == match *record {
                Some(stored) => stored.admin,
                None => None,
            },
            opt_addr_text(admin) == record_view(*record).admin,
    {
        self.state(record).admin
    }

    /// Whether `addr` holds the role.
    pub fn is_admin(&self, record: &Option<AdminState>, addr: &Addr) -> (held: bool)
        ensures
            held == record_view(*record).is_admin(addr_text(*addr)),
    {
        let current = self.current(record);
        holds_addr(&current, addr)
    }

    /// Who is proposed to take the role over, if anyone.
    pub fn proposed(&self, record: &Option<AdminState>) -> (proposed: Option<Addr>)
        ensures
            proposed == match *record {
                Some(stored) => stored.proposed,
                None => None,
            },
            opt_addr_text(proposed) == record_view(*record).proposed,
    {
        self.state(record).proposed
    }

    /// Whether `addr` is the one proposed to take the role over.
    pub fn is_proposed(&self, record: &Option<AdminState>, addr: &Addr) -> (proposed: bool)
        ensures
            proposed == record_view(*record).is_proposed(addr_text(*addr)),
    {
        let current = self.proposed(record);
        holds_addr(&current, addr)
    }

    /// The snapshot of the role: the admin and the proposed admin as text,
    /// each absent exactly where the record has none.
    pub fn query(&self, record: &Option<AdminState>) -> (response: SecureAdminResponse)
        ensures
            response@ == record_view(*record).snapshot(),
    {
        SecureAdminResponse {
            admin: match self.current(record) {
                Some(addr) => Some(addr.into_string()),
                None => None,
            },
            proposed: match self.proposed(record) {
                Some(addr) => Some(addr.into_string()),
                None => None,
            },
        }
    }

    /// Sets the role up, once: either with its first admin, whose address
    /// `validate` checks, or by abolishing it before anyone has held it.
    ///
    /// Anyone may call this. It fails on an abolished role and on a role that
    /// has an admin, before the validator is asked, and it fails with the
    /// validator's error where the admin's address is refused. A failed call
    /// leaves the record as it was.
    pub fn initialize<V: FnOnce(&str) -> Result<Addr, StdError>>(
        &self,
        record: &mut Option<AdminState>,
        validate: V,
        init_action: AdminInit,
    ) -> (res: Result<(), SecureAdminError>)
        requires
            init_action.raw() matches Some(raw) ==> can_ask(validate, raw),
        ensures
            record_view(*old(record)).abolished ==> refused(
                res,
                SecureAdminError::AdminRoleAbolished {  },
            ),
            !record_view(*old(record)).abolished && record_view(*old(record)).admin is Some
                ==> refused(res, SecureAdminError::AlreadyInitialized {  }),
            res is Err ==> *final(record) == *old(record),
            record_view(*old(record)).wf() ==> record_view(*final(record)).wf(),
            !record_view(*old(record)).initialize_asks(init_action) ==> forall|
                answer: Result<Seq<char>, StdError>,
            |
                settled(
                    #[trigger] record_view(*old(record)).initialize(init_action, answer),
                    *old(record),
                    *final(record),
                    res,
                ),
            record_view(*old(record)).initialize_asks(init_action) ==> exists|
                answer: Result<Addr, StdError>,
            |
                #[trigger] may_answer(validate, init_action.raw()->0, answer) && settled(
                    record_view(*old(record)).initialize(init_action, validated_text(answer)),
                    *old(record),
                    *final(record),
                    res,
                ),
    {
        let state = self.state(record);

        if state.abolished {
            return Err(SecureAdminError::AdminRoleAbolished {  });
        }
        if state.admin.is_some() {
            return Err(SecureAdminError::AlreadyInitialized {  });
        }
        match init_action {
            AdminInit::SetInitialAdmin { admin } => {
                let answer = validate(admin.as_str());
                assert(may_answer(validate, admin@, answer));
                *record = Some(AdminState::with_initial_admin(answer)?);
                Ok(())
            },
            AdminInit::AbolishAdminRole => {
                *record = Some(AdminState::abolished_for_good());
                Ok(())
            },
        }
    }

    /// Answers a request to change the role with the record that it would
    /// leave, and writes nothing.
    ///
    /// The guards come first: an abolished role refuses everything, an
    /// acceptance is refused unless `sender` is the proposed admin, and every
    /// other request is refused unless `sender` is the admin. Only a proposal
    /// that has passed them has its address checked by `validate`.
    pub fn transition_state<V: FnOnce(&str) -> Result<Addr, StdError>>(
        &self,
        record: &Option<AdminState>,
        validate: V,
        sender: &Addr,
        event: SecureAdminUpdate,
    ) -> (res: Result<AdminState, SecureAdminError>)
        requires
            event.raw() matches Some(raw) ==> can_ask(validate, raw),
        ensures
            record_view(*record).abolished ==> refused(
                res,
                SecureAdminError::AdminRoleAbolished {  },
            ),
            !record_view(*record).abolished && event.admin_only() && !record_view(
                *record,
            ).is_admin(addr_text(*sender)) ==> refused(res, SecureAdminError::NotAdmin {  }),
            !record_view(*record).abolished && !event.admin_only() && !record_view(
                *record,
            ).is_proposed(addr_text(*sender)) ==> refused(
                res,
                SecureAdminError::NotProposedAdmin {  },
            ),
            res matches Ok(next) ==> (record_view(*record).wf() ==> next@.wf()),
            !record_view(*record).update_asks(addr_text(*sender), event) ==> forall|
                answer: Result<Seq<char>, StdError>,
            |
                state_result_view(res) == #[trigger] record_view(*record).update(
                    addr_text(*sender),
                    event,
                    answer,
                ),
            record_view(*record).update_asks(addr_text(*sender), event) ==> exists|
                answer: Result<Addr, StdError>,
            |
                #[trigger] may_answer(validate, event.raw()->0, answer) && state_result_view(res)
                    == record_view(*record).update(
                    addr_text(*sender),
                    event,
                    validated_text(answer),
                ),
    {
        let state = self.state(record);

        if state.abolished {
            return Err(SecureAdminError::AdminRoleAbolished {  });
        }
        match event {
            SecureAdminUpdate::ProposeNewAdmin { proposed } => {
                self.assert_admin(record, sender)?;
                let answer = validate(proposed.as_str());
                assert(may_answer(validate, proposed@, answer));
                state.with_proposed(answer)
            },
            SecureAdminUpdate::AbolishAdminRole => {
                self.assert_admin(record, sender)?;
                Ok(AdminState::abolished_for_good())
            },
            SecureAdminUpdate::ClearProposed => {
                self.assert_admin(record, sender)?;
                Ok(AdminState { abolished: state.abolished, admin: state.admin, proposed: None })
            },
            SecureAdminUpdate::AcceptProposed => {
                self.assert_proposed(record, sender)?;
                Ok(
                    AdminState {
                        abolished: state.abolished,
                        admin: Some(sender.clone()),
                        proposed: None,
                    },
                )
            },
        }
    }

    /// Carries out a request of `sender` to change the role: decides it as
    /// [`Self::transition_state`] does, writes the new record, and answers
    /// with the attributes that attribute the change to its sender.
    ///
    /// A failed call leaves the record as it was.
    pub fn update<V: FnOnce(&str) -> Result<Addr, StdError>>(
        &self,
        record: &mut Option<AdminState>,
        validate: V,
        sender: &Addr,
        update: SecureAdminUpdate,
    ) -> (res: Result<Vec<(String, String)>, SecureAdminError>)
        requires
            update.raw() matches Some(raw) ==> can_ask(validate, raw),
        ensures
            record_view(*old(record)).abolished ==> refused(
                res,
                SecureAdminError::AdminRoleAbolished {  },
            ),
            !record_view(*old(record)).abolished && update.admin_only() && !record_view(
                *old(record),
            ).is_admin(addr_text(*sender)) ==> refused(res, SecureAdminError::NotAdmin {  }),
            !record_view(*old(record)).abolished && !update.admin_only() && !record_view(
                *old(record),
            ).is_proposed(addr_text(*sender)) ==> refused(
                res,
                SecureAdminError::NotProposedAdmin {  },
            ),
            res is Err ==> *final(record) == *old(record),
            record_view(*old(record)).wf() ==> record_view(*final(record)).wf(),
            !record_view(*old(record)).update_asks(addr_text(*sender), update) ==> forall|
                answer: Result<Seq<char>, StdError>,
            |
                settled(
                    #[trigger] record_view(*old(record)).update(
                        addr_text(*sender),
                        update,
                        answer,
                    ),
                    *old(record),
                    *final(record),
                    res,
                ),
            record_view(*old(record)).update_asks(addr_text(*sender), update) ==> exists|
                answer: Result<Addr, StdError>,
            |
                #[trigger] may_answer(validate, update.raw()->0, answer) && settled(
                    record_view(*old(record)).update(
                        addr_text(*sender),
                        update,
                        validated_text(answer),
                    ),
                    *old(record),
                    *final(record),
                    res,
                ),
            res matches Ok(attributes) ==> attributes.deep_view() == update_attributes(
                record_view(*final(record)).snapshot(),
                addr_text(*sender),
            ),
    {
        let new_state = self.transition_state(record, validate, sender, update)?;
        *record = Some(new_state);

        let response = self.query(record);
        Ok(attributes_of(response, sender))
    }

    /// Like [`Self::is_admin`], but fails unless `caller` holds the role.
    pub fn assert_admin(&self, record: &Option<AdminState>, caller: &Addr) -> (res: Result<
        (),
        SecureAdminError,
    >)
        ensures
            res == if record_view(*record).is_admin(addr_text(*caller)) {
                Ok::<(), SecureAdminError>(())
            } else {
                Err::<(), SecureAdminError>(SecureAdminError::NotAdmin {  })
            },
    {
        if !self.is_admin(record, caller) {
            Err(SecureAdminError::NotAdmin {  })
        } else {
            Ok(())
        }
    }

    /// Like [`Self::is_proposed`], but fails unless `caller` is the proposed
    /// admin.
    pub fn assert_proposed(&self, record: &Option<AdminState>, caller: &Addr) -> (res: Result<
        (),
        SecureAdminError,
    >)
        ensures
            res == if record_view(*record).is_proposed(addr_text(*caller)) {
                Ok::<(), SecureAdminError>(())
            } else {
                Err::<(), SecureAdminError>(SecureAdminError::NotProposedAdmin {  })
            },
    {
        if !self.is_proposed(record, caller) {
            Err(SecureAdminError::NotProposedAdmin {  })
        } else {
            Ok(())
        }
    }
}

} // verus!
