//! Exchanging a refresh token for a new pair of tokens.

use vstd::prelude::*;

use crate::errors::{DomainError, DomainResult};

verus! {

/// What a token refresh starts from.
#[derive(Debug)]
pub struct RefreshTokenInput {
    pub refresh_token: String,
}

/// What a successful refresh gives back: a new access token and a new
/// refresh token (the old one is rotated out).
#[derive(Debug, PartialEq, Eq)]
pub struct RefreshTokenOutput {
    pub access_token: String,
    pub refresh_token: String,
}

/// What the caller is asked to do next.
#[derive(Debug)]
pub enum RefreshTokenAction {
    /// Check `token` and tell the user and tenant it was issued for.
    ValidateRefreshToken { token: String },
    /// Revoke `token`, so that it cannot be used again.
    RevokeRefreshToken { token: String },
    /// Issue an access token.
    GenerateAccessToken { user_id: u128, tenant_id: u128 },
    /// Issue a refresh token.
    GenerateRefreshToken { user_id: u128, tenant_id: u128 },
    /// The refresh is over, with this result.
    Finish(DomainResult<RefreshTokenOutput>),
}

/// The outcome of an action, handed back to the use case.
#[derive(Debug)]
pub enum RefreshTokenEvent {
    /// The outcome of `ValidateRefreshToken`.
    Validated(DomainResult<(u128, u128)>),
    /// The outcome of `RevokeRefreshToken`.
    Revoked(DomainResult<()>),
    /// The outcome of `GenerateAccessToken`.
    AccessTokenGenerated(DomainResult<String>),
    /// The outcome of `GenerateRefreshToken`.
    RefreshTokenGenerated(DomainResult<String>),
}

/// Where a refresh stands.
#[derive(Debug)]
pub enum RefreshTokenPhase {
    AwaitingValidation { token: String },
    AwaitingRevocation { user_id: u128, tenant_id: u128 },
    AwaitingAccessToken { user_id: u128, tenant_id: u128 },
    AwaitingRefreshToken { user_id: u128, tenant_id: u128, access_token: String },
    Finished,
}

/// A token refresh: the presented refresh token is checked and revoked
/// before any new token is issued.
#[derive(Debug)]
pub struct RefreshTokenUseCase {
    pub phase: RefreshTokenPhase,
}

/// The use case is over and its last action reports `result`.
pub open spec fn ends_with(
    out: (RefreshTokenUseCase, RefreshTokenAction),
    result: DomainResult<RefreshTokenOutput>,
) -> bool {
    out.0.phase is Finished && out.1 == RefreshTokenAction::Finish(result)
}

impl RefreshTokenUseCase {
    /// Whether `event` answers the action that the use case waits on.
    pub open spec fn accepts(&self, event: RefreshTokenEvent) -> bool {
        match (self.phase, event) {
            (RefreshTokenPhase::AwaitingValidation { .. }, RefreshTokenEvent::Validated(_)) => true,
            (RefreshTokenPhase::AwaitingRevocation { .. }, RefreshTokenEvent::Revoked(_)) => true,
            (RefreshTokenPhase::AwaitingAccessToken { .. }, RefreshTokenEvent::AccessTokenGenerated(_)) => true,
            (RefreshTokenPhase::AwaitingRefreshToken { .. }, RefreshTokenEvent::RefreshTokenGenerated(_)) => true,
            _ => false,
        }
    }

    /// Starts a refresh: the presented token is checked first.
    pub fn start(input: RefreshTokenInput) -> (out: (RefreshTokenUseCase, RefreshTokenAction))
        ensures
            out.0.phase matches RefreshTokenPhase::AwaitingValidation { token } && token@ == input.refresh_token@,
            out.1 matches RefreshTokenAction::ValidateRefreshToken { token } && token@ == input.refresh_token@,
    {
        let token = input.refresh_token.clone();
        (
            RefreshTokenUseCase { phase: RefreshTokenPhase::AwaitingValidation { token: input.refresh_token } },
            RefreshTokenAction::ValidateRefreshToken { token },
        )
    }

    /// Resumes the refresh with the outcome of the last action. Every failure
    /// ends the refresh with its error. A valid token is revoked; once it is
    /// revoked, an access token and then a refresh token are issued for the
    /// user and tenant it named, and the refresh ends with both.
    pub fn resume(self, event: RefreshTokenEvent) -> (out: (RefreshTokenUseCase, RefreshTokenAction))
        requires
            self.accepts(event),
        ensures
            match (self.phase, event) {
                (RefreshTokenPhase::AwaitingValidation { token }, RefreshTokenEvent::Validated(r)) => match r {
                    Err(e) => ends_with(out, Err(e)),
                    Ok((user_id, tenant_id)) => out.0.phase == (RefreshTokenPhase::AwaitingRevocation { user_id, tenant_id })
                        && out.1 == (RefreshTokenAction::RevokeRefreshToken { token }),
                },
                (RefreshTokenPhase::AwaitingRevocation { user_id, tenant_id }, RefreshTokenEvent::Revoked(r)) => match r {
                    Err(e) => ends_with(out, Err(e)),
                    Ok(()) => out.0.phase == (RefreshTokenPhase::AwaitingAccessToken { user_id, tenant_id })
                        && out.1 == (RefreshTokenAction::GenerateAccessToken { user_id, tenant_id }),
                },
                (RefreshTokenPhase::AwaitingAccessToken { user_id, tenant_id }, RefreshTokenEvent::AccessTokenGenerated(r)) => match r {
                    Err(e) => ends_with(out, Err(e)),
                    Ok(access_token) => out.0.phase == (RefreshTokenPhase::AwaitingRefreshToken { user_id, tenant_id, access_token })
                        && out.1 == (RefreshTokenAction::GenerateRefreshToken { user_id, tenant_id }),
                },
                (
                    RefreshTokenPhase::AwaitingRefreshToken { user_id, tenant_id, access_token },
                    RefreshTokenEvent::RefreshTokenGenerated(r),
                ) => match r {
                    Err(e) => ends_with(out, Err(e)),
                    Ok(refresh_token) => ends_with(out, Ok(RefreshTokenOutput { access_token, refresh_token })),
                },
                _ => false,
            },
    {
        match (self.phase, event) {
            (RefreshTokenPhase::AwaitingValidation { token }, RefreshTokenEvent::Validated(r)) => {
                match r {
                    Err(e) => (RefreshTokenUseCase { phase: RefreshTokenPhase::Finished }, RefreshTokenAction::Finish(Err(e))),
                    Ok((user_id, tenant_id)) => (
                        RefreshTokenUseCase { phase: RefreshTokenPhase::AwaitingRevocation { user_id, tenant_id } },
                        RefreshTokenAction::RevokeRefreshToken { token },
                    ),
                }
            },
            (RefreshTokenPhase::AwaitingRevocation { user_id, tenant_id }, RefreshTokenEvent::Revoked(r)) => {
                match r {
                    Err(e) => (RefreshTokenUseCase { phase: RefreshTokenPhase::Finished }, RefreshTokenAction::Finish(Err(e))),
                    Ok(()) => (
                        RefreshTokenUseCase { phase: RefreshTokenPhase::AwaitingAccessToken { user_id, tenant_id } },
                        RefreshTokenAction::GenerateAccessToken { user_id, tenant_id },
                    ),
                }
            },
            (RefreshTokenPhase::AwaitingAccessToken { user_id, tenant_id }, RefreshTokenEvent::AccessTokenGenerated(r)) => {
                match r {
                    Err(e) => (RefreshTokenUseCase { phase: RefreshTokenPhase::Finished }, RefreshTokenAction::Finish(Err(e))),
                    Ok(access_token) => (
                        RefreshTokenUseCase { phase: RefreshTokenPhase::AwaitingRefreshToken { user_id, tenant_id, access_token } },
                        RefreshTokenAction::GenerateRefreshToken { user_id, tenant_id },
                    ),
                }
            },
            (
                RefreshTokenPhase::AwaitingRefreshToken { user_id, tenant_id, access_token },
                RefreshTokenEvent::RefreshTokenGenerated(r),
            ) => {
                match r {
                    Err(e) => (RefreshTokenUseCase { phase: RefreshTokenPhase::Finished }, RefreshTokenAction::Finish(Err(e))),
                    Ok(refresh_token) => (
                        RefreshTokenUseCase { phase: RefreshTokenPhase::Finished },
                        RefreshTokenAction::Finish(Ok(RefreshTokenOutput { access_token, refresh_token })),
                    ),
                }
            },
            (phase, _) => (RefreshTokenUseCase { phase }, RefreshTokenAction::Finish(Err(DomainError::Unauthorized))),
        }
    }
}

} // verus!
