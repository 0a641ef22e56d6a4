//! Assigning a role to a user of the same tenant.

use vstd::prelude::*;

use crate::entities::role::Role;
use crate::entities::user::{with_role, User};
use crate::errors::{DomainError, DomainResult, ErrorView};
use crate::ids::{uuid_text, uuid_to_string};
use crate::text::{concat, string_of};

verus! {

/// What assigning a role starts from.
#[derive(Debug, Clone, Copy, PartialEq, Eq)]
pub struct AssignRoleInput {
    pub tenant_id: u128,
    pub user_id: u128,
    pub role_id: u128,
}

/// What the caller is asked to do next.
#[derive(Debug)]
pub enum AssignRoleAction {
    /// Look up the user `user_id` of `tenant_id`.
    FindUser { tenant_id: u128, user_id: u128 },
    /// Look up the role `role_id` of `tenant_id`.
    FindRole { tenant_id: u128, role_id: u128 },
    /// Store `user`.
    SaveUser { user: User },
    /// The assignment is over, with this result.
    Finish(DomainResult<()>),
}

/// The outcome of an action, handed back to the use case.
#[derive(Debug)]
pub enum AssignRoleEvent {
    /// The outcome of `FindUser`.
    UserFound(DomainResult<Option<User>>),
    /// The outcome of `FindRole`.
    RoleFound(DomainResult<Option<Role>>),
    /// The outcome of `SaveUser`.
    UserSaved(DomainResult<()>),
}

/// Where an assignment stands.
#[derive(Debug)]
pub enum AssignRolePhase {
    AwaitingUser { input: AssignRoleInput },
    AwaitingRole { input: AssignRoleInput, user: User },
    AwaitingSave,
    Finished,
}

/// The assignment of a role: user and role must exist, and the role must
/// belong to the tenant named in the input.
#[derive(Debug)]
pub struct AssignRoleUseCase {
    pub phase: AssignRolePhase,
}

/// The use case is over and its last action reports `result`.
pub open spec fn ends_with(out: (AssignRoleUseCase, AssignRoleAction), result: DomainResult<()>) -> bool {
    out.0.phase is Finished && out.1 == AssignRoleAction::Finish(result)
}

/// The use case is over and its last action reports an error of value `e`.
pub open spec fn ends_with_error(out: (AssignRoleUseCase, AssignRoleAction), e: ErrorView) -> bool {
    out.0.phase is Finished && match out.1 {
        AssignRoleAction::Finish(Err(x)) => x@ == e,
        _ => false,
    }
}

/// `NotFound` message for a missing entity: its kind and identifier.
pub open spec fn not_found_message(kind: Seq<char>, id: u128) -> Seq<char> {
    kind + " "@ + uuid_text(id)
}

/// `NotFound("<kind> <id>")`.
fn not_found(kind: &str, id: u128) -> (e: DomainError)
    ensures
        e@ == ErrorView::NotFound(not_found_message(kind@, id)),
{
    let head = concat(kind, " ");
    let text = uuid_to_string(id);
    DomainError::NotFound(concat(head.as_str(), text.as_str()))
}

impl AssignRoleUseCase {
    /// Whether `event` answers the action that the use case waits on.
    pub open spec fn accepts(&self, event: AssignRoleEvent) -> bool {
        match (self.phase, event) {
            (AssignRolePhase::AwaitingUser { .. }, AssignRoleEvent::UserFound(_)) => true,
            (AssignRolePhase::AwaitingRole { .. }, AssignRoleEvent::RoleFound(_)) => true,
            (AssignRolePhase::AwaitingSave, AssignRoleEvent::UserSaved(_)) => true,
            _ => false,
        }
    }

    /// Starts an assignment: the user is looked up first.
    pub fn start(input: AssignRoleInput) -> (out: (AssignRoleUseCase, AssignRoleAction))
        ensures
            out.0.phase == (AssignRolePhase::AwaitingUser { input }),
            out.1 == (AssignRoleAction::FindUser { tenant_id: input.tenant_id, user_id: input.user_id }),
    {
        (
            AssignRoleUseCase { phase: AssignRolePhase::AwaitingUser { input } },
            AssignRoleAction::FindUser { tenant_id: input.tenant_id, user_id: input.user_id },
        )
    }

    /// Resumes the assignment with the outcome of the last action.
    ///
    /// - After the user lookup: a failure ends with its error; no user ends
    ///   with `NotFound("User <id>")`; otherwise the role is looked up.
    /// - After the role lookup: a failure ends with its error; no role ends
    ///   with `NotFound("Role <id>")`; a role of another tenant ends with
    ///   `Forbidden("Role does not belong to this tenant")`; otherwise the
    ///   role is assigned to the user, who is to be stored.
    /// - After the store: the assignment ends with its outcome.
    pub fn resume(self, event: AssignRoleEvent) -> (out: (AssignRoleUseCase, AssignRoleAction))
        requires
            self.accepts(event),
        ensures
            match (self.phase, event) {
                (AssignRolePhase::AwaitingUser { input }, AssignRoleEvent::UserFound(r)) => match r {
                    Err(e) => ends_with(out, Err(e)),
                    Ok(None) => ends_with_error(out, ErrorView::NotFound(not_found_message("User"@, input.user_id))),
                    Ok(Some(user)) => out.0.phase == (AssignRolePhase::AwaitingRole { input, user })
                        && out.1 == (AssignRoleAction::FindRole { tenant_id: input.tenant_id, role_id: input.role_id }),
                },
                (AssignRolePhase::AwaitingRole { input, user }, AssignRoleEvent::RoleFound(r)) => match r {
                    Err(e) => ends_with(out, Err(e)),
                    Ok(None) => ends_with_error(out, ErrorView::NotFound(not_found_message("Role"@, input.role_id))),
                    Ok(Some(role)) => if role.tenant_id != input.tenant_id {
                        ends_with_error(out, ErrorView::Forbidden("Role does not belong to this tenant"@))
                    } else {
                        out.0.phase is AwaitingSave && match out.1 {
                            AssignRoleAction::SaveUser { user: saved } => {
                                &&& saved.role_ids@ == with_role(user.role_ids@, input.role_id)
                                &&& saved.id == user.id
                                &&& saved.tenant_id == user.tenant_id
                                &&& saved.email == user.email
                                &&& saved.password_hash == user.password_hash
                                &&& saved.status == user.status
                                &&& saved.display_name == user.display_name
                                &&& saved.last_login_at == user.last_login_at
                                &&& saved.created_at == user.created_at
                                &&& user.role_ids@.contains(input.role_id) ==> saved == user
                            },
                            _ => false,
                        }
                    },
                },
                (AssignRolePhase::AwaitingSave, AssignRoleEvent::UserSaved(r)) => ends_with(out, r),
                _ => false,
            },
    {
        match (self.phase, event) {
            (AssignRolePhase::AwaitingUser { input }, AssignRoleEvent::UserFound(r)) => {
                match r {
                    Err(e) => (AssignRoleUseCase { phase: AssignRolePhase::Finished }, AssignRoleAction::Finish(Err(e))),
                    Ok(None) => (
                        AssignRoleUseCase { phase: AssignRolePhase::Finished },
                        AssignRoleAction::Finish(Err(not_found("User", input.user_id))),
                    ),
                    Ok(Some(user)) => (
                        AssignRoleUseCase { phase: AssignRolePhase::AwaitingRole { input, user } },
                        AssignRoleAction::FindRole { tenant_id: input.tenant_id, role_id: input.role_id },
                    ),
                }
            },
            (AssignRolePhase::AwaitingRole { input, user }, AssignRoleEvent::RoleFound(r)) => {
                match r {
                    Err(e) => (AssignRoleUseCase { phase: AssignRolePhase::Finished }, AssignRoleAction::Finish(Err(e))),
                    Ok(None) => (
                        AssignRoleUseCase { phase: AssignRolePhase::Finished },
                        AssignRoleAction::Finish(Err(not_found("Role", input.role_id))),
                    ),
                    Ok(Some(role)) => {
                        if role.tenant_id != input.tenant_id {
                            let m = string_of("Role does not belong to this tenant");
                            (
                                AssignRoleUseCase { phase: AssignRolePhase::Finished },
                                AssignRoleAction::Finish(Err(DomainError::Forbidden(m))),
                            )
                        } else {
                            let mut user = user;
                            user.assign_role(input.role_id);
                            (AssignRoleUseCase { phase: AssignRolePhase::AwaitingSave }, AssignRoleAction::SaveUser { user })
                        }
                    },
                }
            },
            (AssignRolePhase::AwaitingSave, AssignRoleEvent::UserSaved(r)) => {
                (AssignRoleUseCase { phase: AssignRolePhase::Finished }, AssignRoleAction::Finish(r))
            },
            (phase, _) => (AssignRoleUseCase { phase }, AssignRoleAction::Finish(Err(DomainError::Unauthorized))),
        }
    }
}

} // verus!
