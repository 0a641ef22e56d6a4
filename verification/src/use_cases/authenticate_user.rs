//! Signing a user in: checking the password and issuing a pair of tokens.

use vstd::prelude::*;

use crate::entities::user::{User, UserStatus};
use crate::errors::{DomainError, DomainResult, ErrorView};
use crate::text::string_of;
use crate::value_objects::{is_valid_email_text, normalized, Email};

verus! {

/// What signing in starts from.
#[derive(Debug)]
pub struct AuthenticateUserInput {
    pub tenant_id: u128,
    pub email: String,
    pub password_plaintext: String,
}

/// What a successful sign-in gives back.
#[derive(Debug, PartialEq, Eq)]
pub struct AuthenticateUserOutput {
    pub user_id: u128,
    pub access_token: String,
    pub refresh_token: String,
}

/// What the caller is asked to do next.
#[derive(Debug)]
pub enum AuthenticateUserAction {
    /// Look up the user of `tenant_id` with address `email`.
    FindUserByEmail { tenant_id: u128, email: Email },
    /// Check `password` against the stored `hash`.
    VerifyPassword { password: String, hash: String },
    /// Issue an access token for the user.
    GenerateAccessToken { user_id: u128, tenant_id: u128 },
    /// Issue a refresh token for the user.
    GenerateRefreshToken { user_id: u128, tenant_id: u128 },
    /// The sign-in is over, with this result.
    Finish(DomainResult<AuthenticateUserOutput>),
}

/// The outcome of an action, handed back to the use case.
#[derive(Debug)]
pub enum AuthenticateUserEvent {
    /// The outcome of `FindUserByEmail`.
    UserLookedUp(DomainResult<Option<User>>),
    /// The outcome of `VerifyPassword`.
    PasswordVerified(DomainResult<bool>),
    /// The outcome of `GenerateAccessToken`.
    AccessTokenGenerated(DomainResult<String>),
    /// The outcome of `GenerateRefreshToken`.
    RefreshTokenGenerated(DomainResult<String>),
}

/// Where a sign-in stands.
#[derive(Debug)]
pub enum AuthenticateUserPhase {
    AwaitingLookup { password: String },
    AwaitingVerification { user_id: u128, tenant_id: u128 },
    AwaitingAccessToken { user_id: u128, tenant_id: u128 },
    AwaitingRefreshToken { user_id: u128, tenant_id: u128, access_token: String },
    Finished,
}

/// A sign-in: the user must exist in the tenant, be active and give the
/// right password; then an access and a refresh token are issued.
#[derive(Debug)]
pub struct AuthenticateUserUseCase {
    pub phase: AuthenticateUserPhase,
}

/// The use case is over and its last action reports `result`.
pub open spec fn ends_with(
    out: (AuthenticateUserUseCase, AuthenticateUserAction),
    result: DomainResult<AuthenticateUserOutput>,
) -> bool {
    out.0.phase is Finished && out.1 == AuthenticateUserAction::Finish(result)
}

/// The use case is over and its last action reports an error of value `e`.
pub open spec fn ends_with_error(
    out: (AuthenticateUserUseCase, AuthenticateUserAction),
    e: ErrorView,
) -> bool {
    out.0.phase is Finished && match out.1 {
        AuthenticateUserAction::Finish(Err(x)) => x@ == e,
        _ => false,
    }
}

impl AuthenticateUserUseCase {
    /// Whether `event` answers the action that the use case waits on.
    pub open spec fn accepts(&self, event: AuthenticateUserEvent) -> bool {
        match (self.phase, event) {
            (AuthenticateUserPhase::AwaitingLookup { .. }, AuthenticateUserEvent::UserLookedUp(_)) => true,
            (
                AuthenticateUserPhase::AwaitingVerification { .. },
                AuthenticateUserEvent::PasswordVerified(_),
            ) => true,
            (
                AuthenticateUserPhase::AwaitingAccessToken { .. },
                AuthenticateUserEvent::AccessTokenGenerated(_),
            ) => true,
            (
                AuthenticateUserPhase::AwaitingRefreshToken { .. },
                AuthenticateUserEvent::RefreshTokenGenerated(_),
            ) => true,
            _ => false,
        }
    }

    /// Starts a sign-in: the address is normalised and checked, then the user
    /// of the tenant with that address is looked up.
    pub fn start(input: AuthenticateUserInput) -> (out: (AuthenticateUserUseCase, AuthenticateUserAction))
        ensures
            if is_valid_email_text(normalized(input.email@)) {
                match (out.0.phase, out.1) {
                    (
                        AuthenticateUserPhase::AwaitingLookup { password },
                        AuthenticateUserAction::FindUserByEmail { tenant_id, email },
                    ) => password == input.password_plaintext && email@ == normalized(input.email@)
                        && tenant_id == input.tenant_id,
                    _ => false,
                }
            } else {
                ends_with_error(out, ErrorView::Validation("Invalid email: "@ + normalized(input.email@)))
            },
    {
        match Email::new(input.email.as_str()) {
            Err(e) => (
                AuthenticateUserUseCase { phase: AuthenticateUserPhase::Finished },
                AuthenticateUserAction::Finish(Err(e)),
            ),
            Ok(email) => (
                AuthenticateUserUseCase {
                    phase: AuthenticateUserPhase::AwaitingLookup { password: input.password_plaintext },
                },
                AuthenticateUserAction::FindUserByEmail { tenant_id: input.tenant_id, email },
            ),
        }
    }

    /// Resumes the sign-in with the outcome of the last action.
    ///
    /// - After the lookup: a failed lookup ends with its error; no user ends
    ///   with `Unauthorized`; a user who is not active ends with
    ///   `Forbidden("User account is not active")`; otherwise the password is
    ///   to be checked against the user's stored hash.
    /// - After the check: a failed check ends with its error; a wrong
    ///   password ends with `Unauthorized`; otherwise an access token is to
    ///   be issued for the user and the user's tenant.
    /// - After each token: a failure ends with its error; the access token is
    ///   followed by the refresh token, and that by the result.
    pub fn resume(self, event: AuthenticateUserEvent) -> (out: (
        AuthenticateUserUseCase,
        AuthenticateUserAction,
    ))
        requires
            self.accepts(event),
        ensures
            match (self.phase, event) {
                (
                    AuthenticateUserPhase::AwaitingLookup { password },
                    AuthenticateUserEvent::UserLookedUp(r),
                ) => match r {
                    Err(e) => ends_with(out, Err(e)),
                    Ok(None) => ends_with_error(out, ErrorView::Unauthorized),
                    Ok(Some(user)) => if user.status != UserStatus::Active {
                        ends_with_error(out, ErrorView::Forbidden("User account is not active"@))
                    } else {
                        out.0.phase == (AuthenticateUserPhase::AwaitingVerification {
                            user_id: user.id,
                            tenant_id: user.tenant_id,
                        }) && out.1 == (AuthenticateUserAction::VerifyPassword {
                            password,
                            hash: user.password_hash,
                        })
                    },
                },
                (
                    AuthenticateUserPhase::AwaitingVerification { user_id, tenant_id },
                    AuthenticateUserEvent::PasswordVerified(r),
                ) => match r {
                    Err(e) => ends_with(out, Err(e)),
                    Ok(false) => ends_with_error(out, ErrorView::Unauthorized),
                    Ok(true) => out.0.phase == (AuthenticateUserPhase::AwaitingAccessToken {
                        user_id,
                        tenant_id,
                    }) && out.1 == (AuthenticateUserAction::GenerateAccessToken {
                        user_id,
                        tenant_id,
                    }),
                },
                (
                    AuthenticateUserPhase::AwaitingAccessToken { user_id, tenant_id },
                    AuthenticateUserEvent::AccessTokenGenerated(r),
                ) => match r {
                    Err(e) => ends_with(out, Err(e)),
                    Ok(access_token) => out.0.phase == (AuthenticateUserPhase::AwaitingRefreshToken {
                        user_id,
                        tenant_id,
                        access_token,
                    }) && out.1 == (AuthenticateUserAction::GenerateRefreshToken {
                        user_id,
                        tenant_id,
                    }),
                },
                (
                    AuthenticateUserPhase::AwaitingRefreshToken { user_id, tenant_id, access_token },
                    AuthenticateUserEvent::RefreshTokenGenerated(r),
                ) => match r {
                    Err(e) => ends_with(out, Err(e)),
                    Ok(refresh_token) => ends_with(
                        out,
                        Ok(AuthenticateUserOutput { user_id, access_token, refresh_token }),
                    ),
                },
                _ => false,
            },
    {
        match (self.phase, event) {
            (AuthenticateUserPhase::AwaitingLookup { password }, AuthenticateUserEvent::UserLookedUp(r)) => {
                match r {
                    Err(e) => (
                        AuthenticateUserUseCase { phase: AuthenticateUserPhase::Finished },
                        AuthenticateUserAction::Finish(Err(e)),
                    ),
                    Ok(None) => (
                        AuthenticateUserUseCase { phase: AuthenticateUserPhase::Finished },
                        AuthenticateUserAction::Finish(Err(DomainError::Unauthorized)),
                    ),
                    Ok(Some(user)) => {
                        if !user.is_active() {
                            let m = string_of("User account is not active");
                            (
                                AuthenticateUserUseCase { phase: AuthenticateUserPhase::Finished },
                                AuthenticateUserAction::Finish(Err(DomainError::Forbidden(m))),
                            )
                        } else {
                            let user_id = user.id;
                            let tenant_id = user.tenant_id;
                            (
                                AuthenticateUserUseCase {
                                    phase: AuthenticateUserPhase::AwaitingVerification { user_id, tenant_id },
                                },
                                AuthenticateUserAction::VerifyPassword { password, hash: user.password_hash },
                            )
                        }
                    },
                }
            },
            (
                AuthenticateUserPhase::AwaitingVerification { user_id, tenant_id },
                AuthenticateUserEvent::PasswordVerified(r),
            ) => {
                match r {
                    Err(e) => (
                        AuthenticateUserUseCase { phase: AuthenticateUserPhase::Finished },
                        AuthenticateUserAction::Finish(Err(e)),
                    ),
                    Ok(valid) => {
                        if !valid {
                            (
                                AuthenticateUserUseCase { phase: AuthenticateUserPhase::Finished },
                                AuthenticateUserAction::Finish(Err(DomainError::Unauthorized)),
                            )
                        } else {
                            (
                                AuthenticateUserUseCase {
                                    phase: AuthenticateUserPhase::AwaitingAccessToken { user_id, tenant_id },
                                },
                                AuthenticateUserAction::GenerateAccessToken { user_id, tenant_id },
                            )
                        }
                    },
                }
            },
            (
                AuthenticateUserPhase::AwaitingAccessToken { user_id, tenant_id },
                AuthenticateUserEvent::AccessTokenGenerated(r),
            ) => {
                match r {
                    Err(e) => (
                        AuthenticateUserUseCase { phase: AuthenticateUserPhase::Finished },
                        AuthenticateUserAction::Finish(Err(e)),
                    ),
                    Ok(access_token) => (
                        AuthenticateUserUseCase {
                            phase: AuthenticateUserPhase::AwaitingRefreshToken {
                                user_id,
                                tenant_id,
                                access_token,
                            },
                        },
                        AuthenticateUserAction::GenerateRefreshToken { user_id, tenant_id },
                    ),
                }
            },
            (
                AuthenticateUserPhase::AwaitingRefreshToken { user_id, tenant_id, access_token },
                AuthenticateUserEvent::RefreshTokenGenerated(r),
            ) => {
                match r {
                    Err(e) => (
                        AuthenticateUserUseCase { phase: AuthenticateUserPhase::Finished },
                        AuthenticateUserAction::Finish(Err(e)),
                    ),
                    Ok(refresh_token) => (
                        AuthenticateUserUseCase { phase: AuthenticateUserPhase::Finished },
                        AuthenticateUserAction::Finish(
                            Ok(AuthenticateUserOutput { user_id, access_token, refresh_token }),
                        ),
                    ),
                }
            },
            (phase, _) => (
                AuthenticateUserUseCase { phase },
                AuthenticateUserAction::Finish(Err(DomainError::Unauthorized)),
            ),
        }
    }
}

} // verus!
