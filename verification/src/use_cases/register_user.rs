//! Registering a user in a tenant.

use vstd::prelude::*;

use crate::entities::user::{User, UserStatus};
use crate::errors::{DomainError, DomainResult, ErrorView};
use crate::text::{concat, string_of, utf8_len_exceeds};
use crate::value_objects::{is_valid_email_text, normalized, Email};

verus! {

/// What registering a user starts from.
#[derive(Debug)]
pub struct RegisterUserInput {
    pub tenant_id: u128,
    pub email: String,
    pub display_name: String,
    /// The password in clear; only its hash is ever stored.
    pub password_plaintext: String,
}

/// What a successful registration gives back.
#[derive(Debug, PartialEq, Eq)]
pub struct RegisterUserOutput {
    pub user_id: u128,
}

/// What the caller is asked to do next.
#[derive(Debug)]
pub enum RegisterUserAction {
    /// Look up the user of `tenant_id` with address `email`.
    FindUserByEmail { tenant_id: u128, email: Email },
    /// Hash `password` with the password hasher.
    HashPassword { password: String },
    /// Store `user`.
    SaveUser { user: User },
    /// The registration is over, with this result.
    Finish(DomainResult<RegisterUserOutput>),
}

/// The outcome of an action, handed back to the use case.
#[derive(Debug)]
pub enum RegisterUserEvent {
    /// The outcome of `FindUserByEmail`.
    UserLookedUp(DomainResult<Option<User>>),
    /// The outcome of `HashPassword`.
    PasswordHashed(DomainResult<String>),
    /// The outcome of `SaveUser`.
    UserSaved(DomainResult<()>),
}

/// Where a registration stands.
#[derive(Debug)]
pub enum RegisterUserPhase {
    AwaitingLookup { input: RegisterUserInput, email: Email },
    AwaitingHash { input: RegisterUserInput, email: Email },
    AwaitingSave { user_id: u128 },
    Finished,
}

/// The registration of a user: the address must be valid and not yet
/// registered in the tenant, the password at least 8 bytes long; the user is
/// stored with the hash of the password.
#[derive(Debug)]
pub struct RegisterUserUseCase {
    pub phase: RegisterUserPhase,
}

/// The message of the conflict raised for an address already registered.
pub open spec fn email_taken_message(email: Seq<char>) -> Seq<char> {
    "Email '"@ + email + "' already registered in this tenant"@
}

/// The use case is over and its last action reports `result`.
pub open spec fn ends_with(
    out: (RegisterUserUseCase, RegisterUserAction),
    result: DomainResult<RegisterUserOutput>,
) -> bool {
    out.0.phase is Finished && out.1 == RegisterUserAction::Finish(result)
}

/// The use case is over and its last action reports an error of value `e`.
pub open spec fn ends_with_error(out: (RegisterUserUseCase, RegisterUserAction), e: ErrorView) -> bool {
    out.0.phase is Finished && match out.1 {
        RegisterUserAction::Finish(Err(x)) => x@ == e,
        _ => false,
    }
}

impl RegisterUserUseCase {
    /// Whether `event` answers the action that the use case waits on.
    pub open spec fn accepts(&self, event: RegisterUserEvent) -> bool {
        match (self.phase, event) {
            (RegisterUserPhase::AwaitingLookup { .. }, RegisterUserEvent::UserLookedUp(_)) => true,
            (RegisterUserPhase::AwaitingHash { .. }, RegisterUserEvent::PasswordHashed(_)) => true,
            (RegisterUserPhase::AwaitingSave { .. }, RegisterUserEvent::UserSaved(_)) => true,
            _ => false,
        }
    }

    /// Starts a registration: the address is normalised and checked, then
    /// the existing users of the tenant are searched for it.
    pub fn start(input: RegisterUserInput) -> (out: (RegisterUserUseCase, RegisterUserAction))
        ensures
            if is_valid_email_text(normalized(input.email@)) {
                match (out.0.phase, out.1) {
                    (
                        RegisterUserPhase::AwaitingLookup { input: i, email: e },
                        RegisterUserAction::FindUserByEmail { tenant_id, email },
                    ) => i == input && e@ == normalized(input.email@) && email@ == e@ && tenant_id
                        == input.tenant_id,
                    _ => false,
                }
            } else {
                ends_with_error(out, ErrorView::Validation("Invalid email: "@ + normalized(input.email@)))
            },
    {
        match Email::new(input.email.as_str()) {
            Err(e) => (RegisterUserUseCase { phase: RegisterUserPhase::Finished }, RegisterUserAction::Finish(Err(e))),
            Ok(email) => {
                let tenant_id = input.tenant_id;
                let action = RegisterUserAction::FindUserByEmail { tenant_id, email: email.clone() };
                (RegisterUserUseCase { phase: RegisterUserPhase::AwaitingLookup { input, email } }, action)
            },
        }
    }

    /// Resumes the registration with the outcome of the last action.
    ///
    /// - After the lookup: a failed lookup ends with its error; a user found
    ///   ends with `Conflict("Email '<input>' already registered in this
    ///   tenant")`; a password shorter than 8 bytes ends with
    ///   `Validation("Password must be at least 8 characters")`; otherwise
    ///   the password is to be hashed.
    /// - After the hash: a failed hash ends with its error; otherwise a new
    ///   user with that hash is to be stored.
    /// - After the store: a failed store ends with its error; otherwise the
    ///   registration ends with the new user's identifier.
    pub fn resume(self, event: RegisterUserEvent) -> (out: (RegisterUserUseCase, RegisterUserAction))
        requires
            self.accepts(event),
        ensures
            match (self.phase, event) {
                (RegisterUserPhase::AwaitingLookup { input, email }, RegisterUserEvent::UserLookedUp(r)) => match r {
                    Err(e) => ends_with(out, Err(e)),
                    Ok(Some(_)) => ends_with_error(out, ErrorView::Conflict(email_taken_message(input.email@))),
                    Ok(None) => if vstd::utf8::encode_utf8(input.password_plaintext@).len() < 8 {
                        ends_with_error(out, ErrorView::Validation("Password must be at least 8 characters"@))
                    } else {
                        out.0.phase == (RegisterUserPhase::AwaitingHash { input, email }) && match out.1 {
                            RegisterUserAction::HashPassword { password } => password@ == input.password_plaintext@,
                            _ => false,
                        }
                    },
                },
                (RegisterUserPhase::AwaitingHash { input, email }, RegisterUserEvent::PasswordHashed(r)) => match r {
                    Err(e) => ends_with(out, Err(e)),
                    Ok(hash) => match out.1 {
                        RegisterUserAction::SaveUser { user } => {
                            &&& user.tenant_id == input.tenant_id
                            &&& user.email@ == email@
                            &&& user.display_name@ == input.display_name@
                            &&& user.password_hash@ == hash@
                            &&& user.role_ids@.len() == 0
                            &&& user.status == UserStatus::Active
                            &&& user.last_login_at is None
                            &&& user.created_at == user.updated_at
                            &&& out.0.phase == (RegisterUserPhase::AwaitingSave { user_id: user.id })
                        },
                        _ => false,
                    },
                },
                (RegisterUserPhase::AwaitingSave { user_id }, RegisterUserEvent::UserSaved(r)) => match r {
                    Err(e) => ends_with(out, Err(e)),
                    Ok(()) => ends_with(out, Ok(RegisterUserOutput { user_id })),
                },
                _ => false,
            },
    {
        match (self.phase, event) {
            (RegisterUserPhase::AwaitingLookup { input, email }, RegisterUserEvent::UserLookedUp(r)) => {
                match r {
                    Err(e) => (RegisterUserUseCase { phase: RegisterUserPhase::Finished }, RegisterUserAction::Finish(Err(e))),
                    Ok(Some(_)) => {
                        let head = concat("Email '", input.email.as_str());
                        let m = concat(head.as_str(), "' already registered in this tenant");
                        (RegisterUserUseCase { phase: RegisterUserPhase::Finished }, RegisterUserAction::Finish(Err(DomainError::Conflict(m))))
                    },
                    Ok(None) => {
                        if !utf8_len_exceeds(input.password_plaintext.as_str(), 7) {
                            let m = string_of("Password must be at least 8 characters");
                            (RegisterUserUseCase { phase: RegisterUserPhase::Finished }, RegisterUserAction::Finish(Err(DomainError::Validation(m))))
                        } else {
                            let password = input.password_plaintext.clone();
                            (RegisterUserUseCase { phase: RegisterUserPhase::AwaitingHash { input, email } }, RegisterUserAction::HashPassword { password })
                        }
                    },
                }
            },
            (RegisterUserPhase::AwaitingHash { input, email }, RegisterUserEvent::PasswordHashed(r)) => {
                match r {
                    Err(e) => (RegisterUserUseCase { phase: RegisterUserPhase::Finished }, RegisterUserAction::Finish(Err(e))),
                    Ok(hash) => {
                        let user = User::new(input.tenant_id, email, input.display_name.as_str(), hash.as_str());
                        let user_id = user.id;
                        (RegisterUserUseCase { phase: RegisterUserPhase::AwaitingSave { user_id } }, RegisterUserAction::SaveUser { user })
                    },
                }
            },
            (RegisterUserPhase::AwaitingSave { user_id }, RegisterUserEvent::UserSaved(r)) => {
                match r {
                    Err(e) => (RegisterUserUseCase { phase: RegisterUserPhase::Finished }, RegisterUserAction::Finish(Err(e))),
                    Ok(()) => (RegisterUserUseCase { phase: RegisterUserPhase::Finished }, RegisterUserAction::Finish(Ok(RegisterUserOutput { user_id }))),
                }
            },
            (phase, _) => (RegisterUserUseCase { phase }, RegisterUserAction::Finish(Err(DomainError::Unauthorized))),
        }
    }
}

} // verus!
