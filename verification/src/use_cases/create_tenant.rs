//! Creating a tenant.

use vstd::prelude::*;

use crate::entities::tenant::{schema_name_for, Tenant, TenantStatus};
use crate::errors::{DomainError, DomainResult, ErrorView};
use crate::text::concat;
use crate::value_objects::{normalized, slug_error, TenantSlug};

verus! {

/// What creating a tenant starts from.
#[derive(Debug)]
pub struct CreateTenantInput {
    pub slug: String,
    pub name: String,
}

/// What a successful creation gives back.
#[derive(Debug, PartialEq, Eq)]
pub struct CreateTenantOutput {
    pub tenant_id: u128,
    pub schema_name: String,
}

/// What the caller is asked to do next.
#[derive(Debug)]
pub enum CreateTenantAction {
    /// Tell whether a tenant with `slug` exists.
    CheckSlugExists { slug: TenantSlug },
    /// Store `tenant`.
    SaveTenant { tenant: Tenant },
    /// The creation is over, with this result.
    Finish(DomainResult<CreateTenantOutput>),
}

/// The outcome of an action, handed back to the use case.
#[derive(Debug)]
pub enum CreateTenantEvent {
    /// The outcome of `CheckSlugExists`.
    SlugChecked(DomainResult<bool>),
    /// The outcome of `SaveTenant`.
    TenantSaved(DomainResult<()>),
}

/// Where a creation stands.
#[derive(Debug)]
pub enum CreateTenantPhase {
    AwaitingSlugCheck { input: CreateTenantInput, slug: TenantSlug },
    AwaitingSave { tenant_id: u128, schema_name: String },
    Finished,
}

/// The creation of a tenant: the slug must be valid and free; the tenant is
/// stored active, with its schema name derived from the slug.
#[derive(Debug)]
pub struct CreateTenantUseCase {
    pub phase: CreateTenantPhase,
}

/// The message of the conflict raised for a slug already taken.
pub open spec fn slug_taken_message(slug: Seq<char>) -> Seq<char> {
    "Tenant with slug '"@ + slug + "' already exists"@
}

/// The use case is over and its last action reports `result`.
pub open spec fn ends_with(
    out: (CreateTenantUseCase, CreateTenantAction),
    result: DomainResult<CreateTenantOutput>,
) -> bool {
    out.0.phase is Finished && out.1 == CreateTenantAction::Finish(result)
}

/// The use case is over and its last action reports an error of value `e`.
pub open spec fn ends_with_error(out: (CreateTenantUseCase, CreateTenantAction), e: ErrorView) -> bool {
    out.0.phase is Finished && match out.1 {
        CreateTenantAction::Finish(Err(x)) => x@ == e,
        _ => false,
    }
}

impl CreateTenantUseCase {
    /// Whether `event` answers the action that the use case waits on.
    pub open spec fn accepts(&self, event: CreateTenantEvent) -> bool {
        match (self.phase, event) {
            (CreateTenantPhase::AwaitingSlugCheck { .. }, CreateTenantEvent::SlugChecked(_)) => true,
            (CreateTenantPhase::AwaitingSave { .. }, CreateTenantEvent::TenantSaved(_)) => true,
            _ => false,
        }
    }

    /// Starts a creation: the slug is normalised and checked, then looked up
    /// among the existing tenants.
    pub fn start(input: CreateTenantInput) -> (out: (CreateTenantUseCase, CreateTenantAction))
        ensures
            match slug_error(normalized(input.slug@)) {
                Some(m) => ends_with_error(out, ErrorView::Validation(m)),
                None => match (out.0.phase, out.1) {
                    (
                        CreateTenantPhase::AwaitingSlugCheck { input: i, slug: s },
                        CreateTenantAction::CheckSlugExists { slug },
                    ) => i == input && s@ == normalized(input.slug@) && slug@ == s@,
                    _ => false,
                },
            },
    {
        match TenantSlug::new(input.slug.as_str()) {
            Err(e) => (CreateTenantUseCase { phase: CreateTenantPhase::Finished }, CreateTenantAction::Finish(Err(e))),
            Ok(slug) => {
                let action = CreateTenantAction::CheckSlugExists { slug: slug.clone() };
                (CreateTenantUseCase { phase: CreateTenantPhase::AwaitingSlugCheck { input, slug } }, action)
            },
        }
    }

    /// Resumes the creation with the outcome of the last action.
    ///
    /// - After the check: a failed check ends with its error; a slug in use
    ///   ends with `Conflict("Tenant with slug '<input>' already exists")`;
    ///   otherwise a new active tenant is to be stored.
    /// - After the store: a failed store ends with its error; otherwise the
    ///   creation ends with the tenant's identifier and schema name.
    pub fn resume(self, event: CreateTenantEvent) -> (out: (CreateTenantUseCase, CreateTenantAction))
        requires
            self.accepts(event),
        ensures
            match (self.phase, event) {
                (CreateTenantPhase::AwaitingSlugCheck { input, slug }, CreateTenantEvent::SlugChecked(r)) => match r {
                    Err(e) => ends_with(out, Err(e)),
                    Ok(true) => ends_with_error(out, ErrorView::Conflict(slug_taken_message(input.slug@))),
                    Ok(false) => match out.1 {
                        CreateTenantAction::SaveTenant { tenant } => {
                            &&& tenant.slug@ == slug@
                            &&& tenant.name@ == input.name@
                            &&& tenant.schema_name@ == schema_name_for(slug@)
                            &&& tenant.status == TenantStatus::Active
                            &&& out.0.phase matches CreateTenantPhase::AwaitingSave { tenant_id, schema_name }
                                && tenant_id == tenant.id && schema_name@ == tenant.schema_name@
                        },
                        _ => false,
                    },
                },
                (CreateTenantPhase::AwaitingSave { tenant_id, schema_name }, CreateTenantEvent::TenantSaved(r)) => match r {
                    Err(e) => ends_with(out, Err(e)),
                    Ok(()) => ends_with(out, Ok(CreateTenantOutput { tenant_id, schema_name })),
                },
                _ => false,
            },
    {
        match (self.phase, event) {
            (CreateTenantPhase::AwaitingSlugCheck { input, slug }, CreateTenantEvent::SlugChecked(r)) => {
                match r {
                    Err(e) => (CreateTenantUseCase { phase: CreateTenantPhase::Finished }, CreateTenantAction::Finish(Err(e))),
                    Ok(exists) => {
                        if exists {
                            let head = concat("Tenant with slug '", input.slug.as_str());
                            let m = concat(head.as_str(), "' already exists");
                            (CreateTenantUseCase { phase: CreateTenantPhase::Finished }, CreateTenantAction::Finish(Err(DomainError::Conflict(m))))
                        } else {
                            let tenant = Tenant::new(slug, input.name.as_str());
                            let tenant_id = tenant.id;
                            let schema_name = tenant.schema_name.clone();
                            (CreateTenantUseCase { phase: CreateTenantPhase::AwaitingSave { tenant_id, schema_name } }, CreateTenantAction::SaveTenant { tenant })
                        }
                    },
                }
            },
            (CreateTenantPhase::AwaitingSave { tenant_id, schema_name }, CreateTenantEvent::TenantSaved(r)) => {
                match r {
                    Err(e) => (CreateTenantUseCase { phase: CreateTenantPhase::Finished }, CreateTenantAction::Finish(Err(e))),
                    Ok(()) => (CreateTenantUseCase { phase: CreateTenantPhase::Finished }, CreateTenantAction::Finish(Ok(CreateTenantOutput { tenant_id, schema_name }))),
                }
            },
            (phase, _) => (CreateTenantUseCase { phase }, CreateTenantAction::Finish(Err(DomainError::Unauthorized))),
        }
    }
}

} // verus!
