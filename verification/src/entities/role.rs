//! Roles of a tenant and the permissions they grant.

use vstd::prelude::*;

use crate::entities::permission::Permission;
use crate::ids::{new_uuid_v4, now_micros};
use crate::text::{str_eq, string_of};

verus! {

/// A role inside a tenant. Access control is hierarchical: a role may have a
/// parent role whose permissions it inherits.
#[derive(Debug)]
pub struct Role {
    pub id: u128,
    pub tenant_id: u128,
    pub name: String,
    pub description: String,
    /// The parent role in the hierarchy, if any.
    pub parent_role_id: Option<u128>,
    pub permissions: Vec<Permission>,
    /// System roles cannot be deleted.
    pub is_system_role: bool,
    /// Microseconds since the Unix epoch.
    pub created_at: i64,
    pub updated_at: i64,
}

/// Whether some permission of `ps` allows `action` on `resource`.
pub open spec fn grants(ps: Seq<Permission>, resource: Seq<char>, action: Seq<char>) -> bool {
    exists|i: int| 0 <= i < ps.len() && #[trigger] ps[i].resource@ == resource && ps[i].action@ == action
}

/// No two permissions of `ps` are for the same resource and action.
pub open spec fn permissions_unique(ps: Seq<Permission>) -> bool {
    forall|i: int, j: int|
        0 <= i < j < ps.len() ==> !(#[trigger] ps[i].resource@ == #[trigger] ps[j].resource@
            && ps[i].action@ == ps[j].action@)
}

/// The permissions after `p` is added to `ps`: unchanged when `ps` already
/// grants its resource and action, `p` appended otherwise.
pub open spec fn with_permission(ps: Seq<Permission>, p: Permission) -> Seq<Permission> {
    if grants(ps, p.resource@, p.action@) {
        ps
    } else {
        ps.push(p)
    }
}

impl Role {
    /// A new role of `tenant_id` with no permissions, not a system role, with a
    /// fresh identifier, created and updated now.
    pub fn new(tenant_id: u128, name: &str, description: &str, parent_role_id: Option<u128>) -> (r:
        Role)
        ensures
            r.tenant_id == tenant_id,
            r.name@ == name@,
            r.description@ == description@,
            r.parent_role_id == parent_role_id,
            r.permissions@.len() == 0,
            !r.is_system_role,
            r.created_at == r.updated_at,
    {
        let now = now_micros();
        Role {
            id: new_uuid_v4(),
            tenant_id,
            name: string_of(name),
            description: string_of(description),
            parent_role_id,
            permissions: Vec::new(),
            is_system_role: false,
            created_at: now,
            updated_at: now,
        }
    }

    /// Whether the role grants `action` on `resource`.
    pub fn has_permission(&self, resource: &str, action: &str) -> (b: bool)
        ensures
            b == grants(self.permissions@, resource@, action@),
    {
        let mut i: usize = 0;
        while i < self.permissions.len()
            invariant
                i <= self.permissions.len(),
                forall|k: int|
                    0 <= k < i ==> !(#[trigger] self.permissions@[k].resource@ == resource@
                        && self.permissions@[k].action@ == action@),
            decreases self.permissions.len() - i,
        {
            let p = &self.permissions[i];
            if str_eq(p.resource.as_str(), resource) && str_eq(p.action.as_str(), action) {
                return true;
            }
            i = i + 1;
        }
        false
    }

    /// Adds `permission` unless the role already grants its resource and
    /// action; when it is added, `updated_at` is set to the current time.
    pub fn add_permission(&mut self, permission: Permission)
        ensures
            final(self).permissions@ == with_permission(old(self).permissions@, permission),
            grants(old(self).permissions@, permission.resource@, permission.action@)
                ==> *final(self) == *old(self),
            final(self).id == old(self).id,
            final(self).tenant_id == old(self).tenant_id,
            final(self).name == old(self).name,
            final(self).description == old(self).description,
            final(self).parent_role_id == old(self).parent_role_id,
            final(self).is_system_role == old(self).is_system_role,
            final(self).created_at == old(self).created_at,
            permissions_unique(old(self).permissions@)
                ==> permissions_unique(final(self).permissions@),
    {
        if !self.has_permission(permission.resource.as_str(), permission.action.as_str()) {
            self.permissions.push(permission);
            self.updated_at = now_micros();
        }
    }
}

/// Law: after a permission is added, the role grants exactly what it granted
/// before and the added resource and action.
pub proof fn law_grants_after_add(
    ps: Seq<Permission>,
    p: Permission,
    resource: Seq<char>,
    action: Seq<char>,
)
    ensures
        grants(with_permission(ps, p), resource, action) <==> (grants(ps, resource, action) || (
        resource == p.resource@ && action == p.action@)),
{
    if !grants(ps, p.resource@, p.action@) {
        let qs = ps.push(p);
        if resource == p.resource@ && action == p.action@ {
            assert(qs[ps.len() as int].resource@ == resource);
        }
        if grants(ps, resource, action) {
            let i = choose|i: int|
                0 <= i < ps.len() && #[trigger] ps[i].resource@ == resource && ps[i].action@
                    == action;
            assert(qs[i].resource@ == resource);
        }
        if grants(qs, resource, action) {
            let i = choose|i: int|
                0 <= i < qs.len() && #[trigger] qs[i].resource@ == resource && qs[i].action@
                    == action;
            if i < ps.len() {
                assert(ps[i].resource@ == resource);
            }
        }
    }
}

/// Law: adding the same permission twice is the same as adding it once.
pub proof fn law_add_permission_idempotent(ps: Seq<Permission>, p: Permission)
    ensures
        with_permission(with_permission(ps, p), p) == with_permission(ps, p),
{
    law_grants_after_add(ps, p, p.resource@, p.action@);
}

} // verus!
