//! What holds of the role in every state and for every caller.
//!
//! Each law is stated over the model of the record in [`crate::state`], which
//! is the model that the contracts of the executable operations speak of.

use crate::error::SecureAdminError;
use crate::msg::{AdminInit, SecureAdminUpdate};
use crate::state::{record_view, AdminState, AdminStateView, RoleState};
use cosmwasm_std::StdError;
use vstd::prelude::*;

verus! {

/// One request to the role, together with what the validator answers for the
/// address that the request names, should it get as far as being asked.
pub enum Request {
    /// A request to set the role up.
    Initialize { init: AdminInit, answer: Result<Seq<char>, StdError> },
    /// A request of `caller` to change the role.
    Update { caller: Seq<char>, event: SecureAdminUpdate, answer: Result<Seq<char>, StdError> },
}

impl AdminStateView {
    /// What one request does: the record that it leaves, or the reason for
    /// which it is refused.
    pub open spec fn apply(self, request: Request) -> Result<AdminStateView, SecureAdminError> {
        match request {
            Request::Initialize { init, answer } => self.initialize(init, answer),
            Request::Update { caller, event, answer } => self.update(caller, event, answer),
        }
    }

    /// The record after one request: the one that the request leaves, or the
    /// same record where the request is refused.
    pub open spec fn after(self, request: Request) -> AdminStateView {
        match self.apply(request) {
            Ok(next) => next,
            Err(_) => self,
        }
    }

    /// The record after a sequence of requests, served in order.
    pub open spec fn after_all(self, requests: Seq<Request>) -> AdminStateView
        decreases requests.len(),
    {
        if requests.len() == 0 {
            self
        } else {
            self.after_all(requests.drop_last()).after(requests.last())
        }
    }
}

/// No record at all reads exactly as the record of an uninitialized role.
pub proof fn lemma_absent_record_is_uninitialized()
    ensures
        record_view(None) == record_view(
            Some(AdminState { abolished: false, admin: None, proposed: None }),
        ),
        record_view(None) == AdminStateView::uninitialized(),
        record_view(None).wf(),
        record_view(None).role_state() == RoleState::Uninitialized,
{
}

/// Setting the role up keeps the record well formed, whatever the request and
/// whatever the validator answers.
pub proof fn lemma_initialize_keeps_wf(
    state: AdminStateView,
    init: AdminInit,
    answer: Result<Seq<char>, StdError>,
)
    requires
        state.wf(),
    ensures
        state.initialize(init, answer) matches Ok(next) ==> next.wf(),
{
}

/// Changing the role keeps the record well formed, whoever asks, whatever the
/// request and whatever the validator answers.
pub proof fn lemma_update_keeps_wf(
    state: AdminStateView,
    caller: Seq<char>,
    event: SecureAdminUpdate,
    answer: Result<Seq<char>, StdError>,
)
    requires
        state.wf(),
    ensures
        state.update(caller, event, answer) matches Ok(next) ==> next.wf(),
{
}

/// Every record that a sequence of requests can lead to from a well-formed one
/// is well formed.
pub proof fn lemma_requests_keep_wf(state: AdminStateView, requests: Seq<Request>)
    requires
        state.wf(),
    ensures
        state.after_all(requests).wf(),
    decreases requests.len(),
{
    if requests.len() > 0 {
        lemma_requests_keep_wf(state, requests.drop_last());
    }
}

/// Every state that the role can reach from its beginning is well formed: an
/// abolished role has neither admin nor proposal, and there is no proposal
/// without an admin.
pub proof fn lemma_reachable_states_are_wf(requests: Seq<Request>)
    ensures
        AdminStateView::uninitialized().after_all(requests).wf(),
{
    lemma_requests_keep_wf(AdminStateView::uninitialized(), requests);
}

/// Abolition is terminal: an abolished role refuses every request to set it up
/// and every request to change it, from every caller, as abolished.
pub proof fn lemma_abolished_refuses_everything(
    state: AdminStateView,
    caller: Seq<char>,
    init: AdminInit,
    event: SecureAdminUpdate,
    answer: Result<Seq<char>, StdError>,
)
    requires
        state.abolished,
    ensures
        state.initialize(init, answer) == Err::<AdminStateView, SecureAdminError>(
            SecureAdminError::AdminRoleAbolished {  },
        ),
        state.update(caller, event, answer) == Err::<AdminStateView, SecureAdminError>(
            SecureAdminError::AdminRoleAbolished {  },
        ),
{
}

/// Once the role is abolished, every later request is refused as abolished and
/// the record never changes again, however many requests follow.
pub proof fn lemma_abolition_is_final(state: AdminStateView, requests: Seq<Request>)
    requires
        state.abolished,
    ensures
        state.after_all(requests) == state,
        forall|i: int|
            0 <= i < requests.len() ==> #[trigger] state.after_all(requests.take(i)).apply(
                requests[i],
            ) == Err::<AdminStateView, SecureAdminError>(SecureAdminError::AdminRoleAbolished {  }),
    decreases requests.len(),
{
    if requests.len() > 0 {
        lemma_abolition_is_final(state, requests.drop_last());
    }
    assert forall|i: int| 0 <= i < requests.len() implies #[trigger] state.after_all(
        requests.take(i),
    ).apply(requests[i]) == Err::<AdminStateView, SecureAdminError>(
        SecureAdminError::AdminRoleAbolished {  },
    ) by {
        lemma_abolition_is_final(state, requests.take(i));
    }
}

/// A role that has an admin cannot be set up again: the request is refused as
/// already initialized.
pub proof fn lemma_initialize_refused_with_admin(
    state: AdminStateView,
    init: AdminInit,
    answer: Result<Seq<char>, StdError>,
)
    requires
        state.wf(),
        state.admin is Some,
    ensures
        state.initialize(init, answer) == Err::<AdminStateView, SecureAdminError>(
            SecureAdminError::AlreadyInitialized {  },
        ),
{
}

/// Setting the role up succeeds at most once: after a successful request, every
/// further one is refused, as already initialized where the first set an admin
/// and as abolished where it abolished the role.
pub proof fn lemma_initialize_succeeds_at_most_once(
    state: AdminStateView,
    first: AdminInit,
    first_answer: Result<Seq<char>, StdError>,
    second: AdminInit,
    second_answer: Result<Seq<char>, StdError>,
)
    requires
        state.initialize(first, first_answer) is Ok,
    ensures
        ({
            let next = state.initialize(first, first_answer)->Ok_0;
            next.initialize(second, second_answer) == Err::<AdminStateView, SecureAdminError>(
                if first is SetInitialAdmin {
                    SecureAdminError::AlreadyInitialized {  }
                } else {
                    SecureAdminError::AdminRoleAbolished {  }
                },
            )
        }),
{
}

/// A proposal, a withdrawal of the proposal and an abolition are the admin's
/// alone: while the role is not abolished, each of them is refused from every
/// caller that is not the admin, also where there is no admin at all.
pub proof fn lemma_admin_only_requests(
    state: AdminStateView,
    caller: Seq<char>,
    event: SecureAdminUpdate,
    answer: Result<Seq<char>, StdError>,
)
    requires
        !state.abolished,
        state.admin != Some(caller),
        event is ProposeNewAdmin || event is ClearProposed || event is AbolishAdminRole,
    ensures
        state.update(caller, event, answer) == Err::<AdminStateView, SecureAdminError>(
            SecureAdminError::NotAdmin {  },
        ),
{
}

/// An acceptance is the proposed admin's alone: while the role is not
/// abolished, it is refused where nobody is proposed and from every caller
/// that is not the one proposed.
pub proof fn lemma_accept_needs_proposal(
    state: AdminStateView,
    caller: Seq<char>,
    answer: Result<Seq<char>, StdError>,
)
    requires
        !state.abolished,
        state.proposed is None || state.proposed != Some(caller),
    ensures
        state.update(caller, SecureAdminUpdate::AcceptProposed, answer) == Err::<
            AdminStateView,
            SecureAdminError,
        >(SecureAdminError::NotProposedAdmin {  }),
{
}

/// Once the admin has withdrawn the proposal, nobody can accept it any more.
pub proof fn lemma_no_accept_after_clear(
    state: AdminStateView,
    admin: Seq<char>,
    caller: Seq<char>,
    answer: Result<Seq<char>, StdError>,
    later_answer: Result<Seq<char>, StdError>,
)
    requires
        state.update(admin, SecureAdminUpdate::ClearProposed, answer) is Ok,
    ensures
        ({
            let next = state.update(admin, SecureAdminUpdate::ClearProposed, answer)->Ok_0;
            next.update(caller, SecureAdminUpdate::AcceptProposed, later_answer) == Err::<
                AdminStateView,
                SecureAdminError,
            >(SecureAdminError::NotProposedAdmin {  })
        }),
{
}

/// Withdrawing the proposal is idempotent: once it has succeeded, the admin
/// can repeat it as often as it likes, and the record stays as the first time
/// left it.
pub proof fn lemma_clear_is_idempotent(
    state: AdminStateView,
    admin: Seq<char>,
    answer: Result<Seq<char>, StdError>,
    later_answer: Result<Seq<char>, StdError>,
)
    requires
        state.update(admin, SecureAdminUpdate::ClearProposed, answer) is Ok,
    ensures
        ({
            let next = state.update(admin, SecureAdminUpdate::ClearProposed, answer)->Ok_0;
            &&& next.proposed is None
            &&& next.admin == state.admin
            &&& next.update(admin, SecureAdminUpdate::ClearProposed, later_answer) == Ok::<
                AdminStateView,
                SecureAdminError,
            >(next)
        }),
{
}

/// The snapshot is faithful: after any sequence of requests it shows the
/// admin and the proposed admin of the record as they are, and it shows none
/// exactly where the record has none, which an empty text is not.
pub proof fn lemma_snapshot_is_faithful(state: AdminStateView, requests: Seq<Request>)
    ensures
        ({
            let record = state.after_all(requests);
            &&& record.snapshot().admin == record.admin
            &&& record.snapshot().proposed == record.proposed
            &&& record.snapshot().admin is None <==> record.admin is None
            &&& record.snapshot().proposed is None <==> record.proposed is None
            &&& record.admin == Some(Seq::<char>::empty()) ==> record.snapshot().admin is Some
            &&& record.proposed == Some(Seq::<char>::empty()) ==> record.snapshot().proposed
                is Some
        }),
{
}

/// The two ways out of the beginning: a request that sets the role up
/// succeeds only on an uninitialized role, and it leads to the role being
/// owned by the validated admin or, for an abolition, to the abolished role.
pub proof fn lemma_initialize_edges(
    state: AdminStateView,
    init: AdminInit,
    answer: Result<Seq<char>, StdError>,
)
    requires
        state.wf(),
        state.initialize(init, answer) is Ok,
    ensures
        state.role_state() == RoleState::Uninitialized,
        init is SetInitialAdmin ==> answer is Ok && state.initialize(init, answer)->Ok_0.role_state()
            == (RoleState::Owned { admin: answer->Ok_0 }),
        init is AbolishAdminRole ==> state.initialize(init, answer)->Ok_0.role_state()
            == RoleState::Abolished,
{
}

/// The transitions between the states of a role that has been set up: a
/// successful request starts from an owned role, comes from its admin, or for
/// an acceptance from the proposed admin, and leads where the request says.
pub proof fn lemma_update_edges(
    state: AdminStateView,
    caller: Seq<char>,
    event: SecureAdminUpdate,
    answer: Result<Seq<char>, StdError>,
)
    requires
        state.wf(),
        state.update(caller, event, answer) is Ok,
    ensures
        ({
            let before = state.role_state();
            let after = state.update(caller, event, answer)->Ok_0.role_state();
            match event {
                SecureAdminUpdate::ProposeNewAdmin { .. } => {
                    &&& before == (RoleState::Owned { admin: caller }) || (before
                        is OwnedWithProposal && before->OwnedWithProposal_admin == caller)
                    &&& answer is Ok
                    &&& after == (RoleState::OwnedWithProposal {
                        admin: caller,
                        proposed: answer->Ok_0,
                    })
                },
                SecureAdminUpdate::ClearProposed => {
                    &&& before == (RoleState::Owned { admin: caller }) || (before
                        is OwnedWithProposal && before->OwnedWithProposal_admin == caller)
                    &&& after == (RoleState::Owned { admin: caller })
                },
                SecureAdminUpdate::AcceptProposed => {
                    &&& before is OwnedWithProposal
                    &&& before->OwnedWithProposal_proposed == caller
                    &&& after == (RoleState::Owned { admin: caller })
                },
                SecureAdminUpdate::AbolishAdminRole => {
                    &&& before == (RoleState::Owned { admin: caller }) || (before
                        is OwnedWithProposal && before->OwnedWithProposal_admin == caller)
                    &&& after == RoleState::Abolished
                },
            }
        }),
{
}

} // verus!
