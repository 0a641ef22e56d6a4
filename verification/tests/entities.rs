use valdraegorn::db::{
    tenant_status_from_text, tenant_status_text, user_status_from_text, user_status_text, RoleRow,
    TenantRow, UserRow,
};
use valdraegorn::entities::permission::Permission;
use valdraegorn::entities::role::Role;
use valdraegorn::entities::tenant::{Tenant, TenantStatus};
use valdraegorn::entities::user::{User, UserStatus};
use valdraegorn::errors::DomainError;
use valdraegorn::value_objects::{Email, TenantSlug};

#[test]
fn permission_canonical_name() {
    let p = Permission::new("invoices", "create", "Create invoices");
    assert_eq!(p.canonical_name(), "invoices:create");
    assert_eq!(p.description, "Create invoices");
}

#[test]
fn permissions_get_distinct_ids() {
    let a = Permission::new("payroll", "read", "");
    let b = Permission::new("payroll", "read", "");
    assert_ne!(a.id, b.id);
}

#[test]
fn new_role_has_no_permissions() {
    let r = Role::new(7, "Contador", "Contabilidad", Some(3));
    assert_eq!(r.tenant_id, 7);
    assert_eq!(r.name, "Contador");
    assert_eq!(r.parent_role_id, Some(3));
    assert!(r.permissions.is_empty());
    assert!(!r.is_system_role);
    assert_eq!(r.created_at, r.updated_at);
    assert!(!r.has_permission("invoices", "create"));
}

#[test]
fn added_permission_is_granted() {
    let mut r = Role::new(1, "Admin", "", None);
    r.add_permission(Permission::new("invoices", "create", ""));
    assert!(r.has_permission("invoices", "create"));
    assert!(!r.has_permission("invoices", "delete"));
    assert!(!r.has_permission("payroll", "create"));
    assert_eq!(r.permissions.len(), 1);
}

#[test]
fn adding_a_permission_twice_keeps_one() {
    let mut r = Role::new(1, "Admin", "", None);
    r.add_permission(Permission::new("users", "delete", "first"));
    let updated = r.updated_at;
    r.add_permission(Permission::new("users", "delete", "second"));
    assert_eq!(r.permissions.len(), 1);
    assert_eq!(r.permissions[0].description, "first");
    assert_eq!(r.updated_at, updated);
    r.add_permission(Permission::new("users", "read", ""));
    assert_eq!(r.permissions.len(), 2);
}

#[test]
fn tenant_schema_name_replaces_hyphens() {
    let t = Tenant::new(TenantSlug::new("empresa-peru-sac").unwrap(), "Empresa Peru SAC");
    assert_eq!(t.schema_name, "tenant_empresa_peru_sac");
    assert_eq!(t.slug.value(), "empresa-peru-sac");
    assert_eq!(t.name, "Empresa Peru SAC");
    assert_eq!(t.status, TenantStatus::Active);
    assert!(t.is_active());
    assert_eq!(t.created_at, t.updated_at);
}

#[test]
fn suspended_tenant_is_not_active() {
    let mut t = Tenant::new(TenantSlug::new("acme").unwrap(), "Acme");
    t.status = TenantStatus::Suspended;
    assert!(!t.is_active());
    t.status = TenantStatus::Cancelled;
    assert!(!t.is_active());
}

fn sample_user() -> User {
    User::new(5, Email::new("ana@acme.pe").unwrap(), "Ana", "$argon2id$hash")
}

#[test]
fn new_user_is_active_without_roles() {
    let u = sample_user();
    assert_eq!(u.tenant_id, 5);
    assert_eq!(u.email.value(), "ana@acme.pe");
    assert_eq!(u.display_name, "Ana");
    assert_eq!(u.password_hash, "$argon2id$hash");
    assert!(u.role_ids.is_empty());
    assert_eq!(u.status, UserStatus::Active);
    assert!(u.is_active());
    assert_eq!(u.last_login_at, None);
}

#[test]
fn blocked_user_is_not_active() {
    let mut u = sample_user();
    u.status = UserStatus::Blocked;
    assert!(!u.is_active());
    u.status = UserStatus::Inactive;
    assert!(!u.is_active());
}

#[test]
fn assigning_a_role_twice_keeps_one() {
    let mut u = sample_user();
    u.assign_role(42);
    assert_eq!(u.role_ids, vec![42]);
    assert!(u.has_role(42));
    let updated = u.updated_at;
    u.assign_role(42);
    assert_eq!(u.role_ids, vec![42]);
    assert_eq!(u.updated_at, updated);
    u.assign_role(43);
    assert_eq!(u.role_ids, vec![42, 43]);
    assert!(!u.has_role(44));
}

#[test]
fn status_texts_round_trip() {
    for s in [TenantStatus::Active, TenantStatus::Suspended, TenantStatus::Cancelled] {
        assert_eq!(tenant_status_from_text(tenant_status_text(s)), s);
    }
    for s in [UserStatus::Active, UserStatus::Inactive, UserStatus::Blocked] {
        assert_eq!(user_status_from_text(user_status_text(s)), s);
    }
    assert_eq!(tenant_status_text(TenantStatus::Cancelled), "cancelled");
    assert_eq!(user_status_text(UserStatus::Blocked), "blocked");
}

#[test]
fn unknown_status_text_reads_as_active() {
    assert_eq!(tenant_status_from_text("archived"), TenantStatus::Active);
    assert_eq!(user_status_from_text("Blocked"), UserStatus::Active);
}

#[test]
fn tenant_row_becomes_tenant() {
    let row = TenantRow {
        id: 9,
        slug: "acme-sa".to_string(),
        name: "Acme".to_string(),
        schema_name: "tenant_acme_sa".to_string(),
        status: "suspended".to_string(),
        created_at: 10,
        updated_at: 20,
    };
    let t = row.into_tenant();
    assert_eq!(t.id, 9);
    assert_eq!(t.slug.value(), "acme-sa");
    assert_eq!(t.status, TenantStatus::Suspended);
    assert_eq!((t.created_at, t.updated_at), (10, 20));
}

#[test]
fn tenant_row_with_bad_slug_is_refused() {
    let row = TenantRow {
        id: 9,
        slug: "-bad".to_string(),
        name: "Bad".to_string(),
        schema_name: "tenant__bad".to_string(),
        status: "active".to_string(),
        created_at: 0,
        updated_at: 0,
    };
    assert_eq!(
        row.try_into_tenant().unwrap_err(),
        DomainError::Validation("Slug cannot start or end with a hyphen".to_string())
    );
}

#[test]
fn user_row_becomes_user() {
    let row = UserRow {
        id: 3,
        email: "ana@acme.pe".to_string(),
        display_name: "Ana".to_string(),
        password_hash: "h".to_string(),
        status: "inactive".to_string(),
        last_login_at: Some(99),
        created_at: 1,
        updated_at: 2,
    };
    let u = row.into_user(5);
    assert_eq!((u.id, u.tenant_id), (3, 5));
    assert_eq!(u.status, UserStatus::Inactive);
    assert_eq!(u.last_login_at, Some(99));
    assert!(u.role_ids.is_empty());
}

#[test]
fn user_row_with_bad_email_is_refused() {
    let row = UserRow {
        id: 3,
        email: "nobody".to_string(),
        display_name: "X".to_string(),
        password_hash: "h".to_string(),
        status: "active".to_string(),
        last_login_at: None,
        created_at: 1,
        updated_at: 2,
    };
    assert_eq!(
        row.try_into_user(5).unwrap_err(),
        DomainError::Validation("Invalid email: nobody".to_string())
    );
}

#[test]
fn role_row_without_description_reads_empty() {
    let row = RoleRow {
        id: 4,
        name: "Ventas".to_string(),
        description: None,
        parent_role_id: None,
        is_system_role: true,
        created_at: 1,
        updated_at: 1,
    };
    let r = row.into_role(8);
    assert_eq!(r.description, "");
    assert_eq!(r.tenant_id, 8);
    assert!(r.is_system_role);
    assert!(r.permissions.is_empty());
}

#[test]
fn valid_rows_convert_the_same_either_way() {
    let row = TenantRow {
        id: 4,
        slug: "Acme".to_string(),
        name: "Acme".to_string(),
        schema_name: "tenant_acme".to_string(),
        status: "cancelled".to_string(),
        created_at: 1,
        updated_at: 1,
    };
    let t = row.try_into_tenant().unwrap();
    assert_eq!(t.slug.value(), "acme");
    assert_eq!(t.status, TenantStatus::Cancelled);
    let row = UserRow {
        id: 3,
        email: " Ana@Acme.PE ".to_string(),
        display_name: "Ana".to_string(),
        password_hash: "h".to_string(),
        status: "blocked".to_string(),
        last_login_at: None,
        created_at: 1,
        updated_at: 2,
    };
    let u = row.try_into_user(7).unwrap();
    assert_eq!(u.email.value(), "ana@acme.pe");
    assert_eq!(u.status, UserStatus::Blocked);
}

#[test]
fn schema_names_of_different_slugs_differ() {
    let a = Tenant::new(TenantSlug::new("acme-sa").unwrap(), "A");
    let b = Tenant::new(TenantSlug::new("acmesa").unwrap(), "B");
    assert_eq!(a.schema_name, "tenant_acme_sa");
    assert_eq!(b.schema_name, "tenant_acmesa");
    assert_ne!(a.schema_name, b.schema_name);
}
