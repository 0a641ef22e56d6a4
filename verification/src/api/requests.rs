//! The bodies of the HTTP requests and responses, and how they map to the
//! use cases.

use vstd::prelude::*;

use crate::errors::{DomainError, ErrorView};
use crate::text::concat;
use crate::use_cases::authenticate_user::{AuthenticateUserInput, AuthenticateUserOutput};
use crate::use_cases::create_tenant::{CreateTenantInput, CreateTenantOutput};
use crate::use_cases::refresh_token::{RefreshTokenInput, RefreshTokenOutput};
use crate::use_cases::register_user::{RegisterUserInput, RegisterUserOutput};

verus! {

/// `POST /auth/login`: sign in to the tenant with slug `tenant_slug`.
#[derive(Debug)]
pub struct LoginRequest {
    pub tenant_slug: String,
    pub email: String,
    pub password: String,
}

/// The answer to a successful sign-in.
#[derive(Debug, PartialEq, Eq)]
pub struct LoginResponse {
    pub access_token: String,
    pub refresh_token: String,
    pub user_id: u128,
}

/// `POST /auth/refresh`: exchange a refresh token.
#[derive(Debug)]
pub struct RefreshRequest {
    pub refresh_token: String,
}

/// The answer to a successful refresh.
#[derive(Debug, PartialEq, Eq)]
pub struct RefreshResponse {
    pub access_token: String,
    pub refresh_token: String,
}

/// `POST /tenants`: create a tenant.
#[derive(Debug)]
pub struct CreateTenantRequest {
    pub slug: String,
    pub name: String,
}

/// The answer to a successful tenant creation.
#[derive(Debug, PartialEq, Eq)]
pub struct CreateTenantResponse {
    pub tenant_id: u128,
    pub schema_name: String,
}

/// `POST /tenants/:slug/users`: register a user in a tenant.
#[derive(Debug)]
pub struct RegisterUserRequest {
    pub email: String,
    pub display_name: String,
    pub password: String,
}

/// The answer to a successful registration.
#[derive(Debug, PartialEq, Eq)]
pub struct RegisterUserResponse {
    pub user_id: u128,
}

/// `NotFound("Tenant '<slug>' not found")`, for a slug that names no tenant.
pub fn tenant_not_found(slug: &str) -> (e: DomainError)
    ensures
        e@ == ErrorView::NotFound("Tenant '"@ + slug@ + "' not found"@),
{
    let head = concat("Tenant '", slug);
    DomainError::NotFound(concat(head.as_str(), "' not found"))
}

impl LoginRequest {
    /// The sign-in input for the tenant `tenant_id` that the slug resolved to.
    pub fn into_input(self, tenant_id: u128) -> (input: AuthenticateUserInput)
        ensures
            input.tenant_id == tenant_id,
            input.email == self.email,
            input.password_plaintext == self.password,
    {
        AuthenticateUserInput { tenant_id, email: self.email, password_plaintext: self.password }
    }
}

impl LoginResponse {
    /// The answer to a sign-in that gave `output`.
    pub fn from_output(output: AuthenticateUserOutput) -> (r: LoginResponse)
        ensures
            r.access_token == output.access_token,
            r.refresh_token == output.refresh_token,
            r.user_id == output.user_id,
    {
        LoginResponse {
            access_token: output.access_token,
            refresh_token: output.refresh_token,
            user_id: output.user_id,
        }
    }
}

impl RefreshRequest {
    /// The refresh input.
    pub fn into_input(self) -> (input: RefreshTokenInput)
        ensures
            input.refresh_token == self.refresh_token,
    {
        RefreshTokenInput { refresh_token: self.refresh_token }
    }
}

impl RefreshResponse {
    /// The answer to a refresh that gave `output`.
    pub fn from_output(output: RefreshTokenOutput) -> (r: RefreshResponse)
        ensures
            r.access_token == output.access_token,
            r.refresh_token == output.refresh_token,
    {
        RefreshResponse { access_token: output.access_token, refresh_token: output.refresh_token }
    }
}

impl CreateTenantRequest {
    /// The creation input.
    pub fn into_input(self) -> (input: CreateTenantInput)
        ensures
            input.slug == self.slug,
            input.name == self.name,
    {
        CreateTenantInput { slug: self.slug, name: self.name }
    }
}

impl CreateTenantResponse {
    /// The answer to a creation that gave `output`.
    pub fn from_output(output: CreateTenantOutput) -> (r: CreateTenantResponse)
        ensures
            r.tenant_id == output.tenant_id,
            r.schema_name == output.schema_name,
    {
        CreateTenantResponse { tenant_id: output.tenant_id, schema_name: output.schema_name }
    }
}

impl RegisterUserRequest {
    /// The registration input for the tenant `tenant_id` that the slug of the
    /// path resolved to.
    pub fn into_input(self, tenant_id: u128) -> (input: RegisterUserInput)
        ensures
            input.tenant_id == tenant_id,
            input.email == self.email,
            input.display_name == self.display_name,
            input.password_plaintext == self.password,
    {
        RegisterUserInput {
            tenant_id,
            email: self.email,
            display_name: self.display_name,
            password_plaintext: self.password,
        }
    }
}

impl RegisterUserResponse {
    /// The answer to a registration that gave `output`.
    pub fn from_output(output: RegisterUserOutput) -> (r: RegisterUserResponse)
        ensures
            r.user_id == output.user_id,
    {
        RegisterUserResponse { user_id: output.user_id }
    }
}

} // verus!
