//! How entities are laid out in storage rows: statuses as text, timestamps
//! as microseconds since the epoch.

use vstd::prelude::*;

use crate::entities::role::Role;
use crate::entities::tenant::{Tenant, TenantStatus};
use crate::entities::user::{User, UserStatus};
use crate::errors::{DomainResult, ErrorView};
use crate::text::str_eq;
use crate::value_objects::{
    is_valid_email_text, is_valid_slug, normalized, slug_error, Email, TenantSlug,
};

verus! {

/// The stored text of a tenant status.
pub open spec fn tenant_status_name(s: TenantStatus) -> Seq<char> {
    match s {
        TenantStatus::Active => "active"@,
        TenantStatus::Suspended => "suspended"@,
        TenantStatus::Cancelled => "cancelled"@,
    }
}

/// The tenant status that stored text denotes; any unknown text is read as
/// active.
pub open spec fn tenant_status_named(t: Seq<char>) -> TenantStatus {
    if t == "suspended"@ {
        TenantStatus::Suspended
    } else if t == "cancelled"@ {
        TenantStatus::Cancelled
    } else {
        TenantStatus::Active
    }
}

/// The stored text of a user status.
pub open spec fn user_status_name(s: UserStatus) -> Seq<char> {
    match s {
        UserStatus::Active => "active"@,
        UserStatus::Inactive => "inactive"@,
        UserStatus::Blocked => "blocked"@,
    }
}

/// The user status that stored text denotes; any unknown text is read as
/// active.
pub open spec fn user_status_named(t: Seq<char>) -> UserStatus {
    if t == "inactive"@ {
        UserStatus::Inactive
    } else if t == "blocked"@ {
        UserStatus::Blocked
    } else {
        UserStatus::Active
    }
}

/// The stored text of `s`.
pub fn tenant_status_text(s: TenantStatus) -> (t: &'static str)
    ensures
        t@ == tenant_status_name(s),
{
    match s {
        TenantStatus::Active => "active",
        TenantStatus::Suspended => "suspended",
        TenantStatus::Cancelled => "cancelled",
    }
}

/// The tenant status that stored text `t` denotes.
pub fn tenant_status_from_text(t: &str) -> (s: TenantStatus)
    ensures
        s == tenant_status_named(t@),
{
    if str_eq(t, "suspended") {
        TenantStatus::Suspended
    } else if str_eq(t, "cancelled") {
        TenantStatus::Cancelled
    } else {
        TenantStatus::Active
    }
}

/// The stored text of `s`.
pub fn user_status_text(s: UserStatus) -> (t: &'static str)
    ensures
        t@ == user_status_name(s),
{
    match s {
        UserStatus::Active => "active",
        UserStatus::Inactive => "inactive",
        UserStatus::Blocked => "blocked",
    }
}

/// The user status that stored text `t` denotes.
pub fn user_status_from_text(t: &str) -> (s: UserStatus)
    ensures
        s == user_status_named(t@),
{
    if str_eq(t, "inactive") {
        UserStatus::Inactive
    } else if str_eq(t, "blocked") {
        UserStatus::Blocked
    } else {
        UserStatus::Active
    }
}

/// Law: a tenant status reads back as the status that was stored.
pub proof fn law_tenant_status_round_trip(s: TenantStatus)
    ensures
        tenant_status_named(tenant_status_name(s)) == s,
{
    reveal_strlit("active");
    reveal_strlit("suspended");
    reveal_strlit("cancelled");
    assert("active"@ != "suspended"@ && "active"@ != "cancelled"@ && "suspended"@ != "cancelled"@) by {
        assert("active"@.len() != "suspended"@.len());
        assert("active"@.len() != "cancelled"@.len());
        assert("suspended"@[0] != "cancelled"@[0]);
    }
}

/// Law: a user status reads back as the status that was stored.
pub proof fn law_user_status_round_trip(s: UserStatus)
    ensures
        user_status_named(user_status_name(s)) == s,
{
    reveal_strlit("active");
    reveal_strlit("inactive");
    reveal_strlit("blocked");
    assert("active"@ != "inactive"@ && "active"@ != "blocked"@ && "inactive"@ != "blocked"@) by {
        assert("active"@.len() != "inactive"@.len());
        assert("active"@[0] != "blocked"@[0]);
        assert("inactive"@.len() != "blocked"@.len());
    }
}

/// A row of the tenants table.
#[derive(Debug)]
pub struct TenantRow {
    pub id: u128,
    pub slug: String,
    pub name: String,
    pub schema_name: String,
    pub status: String,
    pub created_at: i64,
    pub updated_at: i64,
}

/// A row of a tenant's users table.
#[derive(Debug)]
pub struct UserRow {
    pub id: u128,
    pub email: String,
    pub display_name: String,
    pub password_hash: String,
    pub status: String,
    pub last_login_at: Option<i64>,
    pub created_at: i64,
    pub updated_at: i64,
}

/// A row of a tenant's roles table.
#[derive(Debug)]
pub struct RoleRow {
    pub id: u128,
    pub name: String,
    pub description: Option<String>,
    pub parent_role_id: Option<u128>,
    pub is_system_role: bool,
    pub created_at: i64,
    pub updated_at: i64,
}

impl TenantRow {
    /// The tenant the row holds. The stored slug must be a valid one; it is
    /// checked again on the way in.
    pub fn into_tenant(self) -> (t: Tenant)
        requires
            is_valid_slug(normalized(self.slug@)),
        ensures
            t.id == self.id,
            t.slug@ == normalized(self.slug@),
            t.name == self.name,
            t.schema_name == self.schema_name,
            t.status == tenant_status_named(self.status@),
            t.created_at == self.created_at,
            t.updated_at == self.updated_at,
    {
        let slug = TenantSlug::new(self.slug.as_str()).unwrap();
        let status = tenant_status_from_text(self.status.as_str());
        Tenant {
            id: self.id,
            slug,
            name: self.name,
            schema_name: self.schema_name,
            status,
            created_at: self.created_at,
            updated_at: self.updated_at,
        }
    }

    /// The tenant the row holds, or, when the stored slug is not a valid one,
    /// the slug's validation error.
    pub fn try_into_tenant(self) -> (r: DomainResult<Tenant>)
        ensures
            match r {
                Ok(t) => {
                    &&& is_valid_slug(normalized(self.slug@))
                    &&& t.id == self.id
                    &&& t.slug@ == normalized(self.slug@)
                    &&& t.name == self.name
                    &&& t.schema_name == self.schema_name
                    &&& t.status == tenant_status_named(self.status@)
                    &&& t.created_at == self.created_at
                    &&& t.updated_at == self.updated_at
                },
                Err(e) => slug_error(normalized(self.slug@)) matches Some(m) && e@ == ErrorView::Validation(m),
            },
    {
        match TenantSlug::new(self.slug.as_str()) {
            Err(e) => Err(e),
            Ok(_) => Ok(self.into_tenant()),
        }
    }
}

impl UserRow {
    /// The user of `tenant_id` the row holds, with no roles loaded. The
    /// stored address must be a valid one; it is checked again on the way in.
    pub fn into_user(self, tenant_id: u128) -> (u: User)
        requires
            is_valid_email_text(normalized(self.email@)),
        ensures
            u.id == self.id,
            u.tenant_id == tenant_id,
            u.email@ == normalized(self.email@),
            u.display_name == self.display_name,
            u.password_hash == self.password_hash,
            u.role_ids@.len() == 0,
            u.status == user_status_named(self.status@),
            u.last_login_at == self.last_login_at,
            u.created_at == self.created_at,
            u.updated_at == self.updated_at,
    {
        let email = Email::new(self.email.as_str()).unwrap();
        let status = user_status_from_text(self.status.as_str());
        User {
            id: self.id,
            tenant_id,
            email,
            display_name: self.display_name,
            password_hash: self.password_hash,
            role_ids: Vec::new(),
            status,
            last_login_at: self.last_login_at,
            created_at: self.created_at,
            updated_at: self.updated_at,
        }
    }

    /// The user of `tenant_id` the row holds, or, when the stored address is
    /// not a valid one, the address's validation error.
    pub fn try_into_user(self, tenant_id: u128) -> (r: DomainResult<User>)
        ensures
            match r {
                Ok(u) => {
                    &&& is_valid_email_text(normalized(self.email@))
                    &&& u.id == self.id
                    &&& u.tenant_id == tenant_id
                    &&& u.email@ == normalized(self.email@)
                    &&& u.display_name == self.display_name
                    &&& u.password_hash == self.password_hash
                    &&& u.role_ids@.len() == 0
                    &&& u.status == user_status_named(self.status@)
                    &&& u.last_login_at == self.last_login_at
                    &&& u.created_at == self.created_at
                    &&& u.updated_at == self.updated_at
                },
                Err(e) => !is_valid_email_text(normalized(self.email@)) && e@ == ErrorView::Validation(
                    "Invalid email: "@ + normalized(self.email@),
                ),
            },
    {
        match Email::new(self.email.as_str()) {
            Err(e) => Err(e),
            Ok(_) => Ok(self.into_user(tenant_id)),
        }
    }
}

impl RoleRow {
    /// The role of `tenant_id` the row holds, with no permissions loaded; a
    /// missing description reads as empty.
    pub fn into_role(self, tenant_id: u128) -> (r: Role)
        ensures
            r.id == self.id,
            r.tenant_id == tenant_id,
            r.name == self.name,
            r.description@ == (match self.description {
                Some(d) => d@,
                None => Seq::<char>::empty(),
            }),
            r.parent_role_id == self.parent_role_id,
            r.permissions@.len() == 0,
            r.is_system_role == self.is_system_role,
            r.created_at == self.created_at,
            r.updated_at == self.updated_at,
    {
        let description = match self.description {
            Some(d) => d,
            None => String::new(),
        };
        Role {
            id: self.id,
            tenant_id,
            name: self.name,
            description,
            parent_role_id: self.parent_role_id,
            permissions: Vec::new(),
            is_system_role: self.is_system_role,
            created_at: self.created_at,
            updated_at: self.updated_at,
        }
    }
}

} // verus!
