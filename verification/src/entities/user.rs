//! Users of a tenant and the roles assigned to them.

use vstd::prelude::*;

use crate::ids::{new_uuid_v4, now_micros};
use crate::text::string_of;
use crate::value_objects::Email;

verus! {

/// Whether a user may sign in.
#[derive(Debug, Clone, Copy, PartialEq, Eq, Structural)]
pub enum UserStatus {
    Active,
    Inactive,
    Blocked,
}

/// A user of a tenant. Only a hash of the password is kept, never the
/// password itself.
#[derive(Debug)]
pub struct User {
    pub id: u128,
    pub tenant_id: u128,
    pub email: Email,
    pub display_name: String,
    pub password_hash: String,
    /// Roles assigned to the user.
    pub role_ids: Vec<u128>,
    pub status: UserStatus,
    /// Microseconds since the Unix epoch.
    pub last_login_at: Option<i64>,
    pub created_at: i64,
    pub updated_at: i64,
}

/// The role list after `role_id` is assigned: unchanged when it already holds
/// the role, with the role appended otherwise.
pub open spec fn with_role(ids: Seq<u128>, role_id: u128) -> Seq<u128> {
    if ids.contains(role_id) {
        ids
    } else {
        ids.push(role_id)
    }
}

impl User {
    /// A new active user with no roles, never logged in, with a fresh
    /// identifier, created and updated now.
    pub fn new(tenant_id: u128, email: Email, display_name: &str, password_hash: &str) -> (u: User)
        ensures
            u.tenant_id == tenant_id,
            u.email@ == email@,
            u.display_name@ == display_name@,
            u.password_hash@ == password_hash@,
            u.role_ids@.len() == 0,
            u.status == UserStatus::Active,
            u.last_login_at is None,
            u.created_at == u.updated_at,
    {
        let now = now_micros();
        User {
            id: new_uuid_v4(),
            tenant_id,
            email,
            display_name: string_of(display_name),
            password_hash: string_of(password_hash),
            role_ids: Vec::new(),
            status: UserStatus::Active,
            last_login_at: None,
            created_at: now,
            updated_at: now,
        }
    }

    /// Whether the user is active.
    pub fn is_active(&self) -> (b: bool)
        ensures
            b == (self.status == UserStatus::Active),
    {
        self.status == UserStatus::Active
    }

    /// Whether `role_id` is assigned to the user.
    pub fn has_role(&self, role_id: u128) -> (b: bool)
        ensures
            b == self.role_ids@.contains(role_id),
    {
        let mut i: usize = 0;
        while i < self.role_ids.len()
            invariant
                i <= self.role_ids.len(),
                forall|k: int| 0 <= k < i ==> self.role_ids@[k] != role_id,
            decreases self.role_ids.len() - i,
        {
            if self.role_ids[i] == role_id {
                return true;
            }
            i = i + 1;
        }
        false
    }

    /// Assigns `role_id` unless it is already assigned; when it is added,
    /// `updated_at` is set to the current time.
    pub fn assign_role(&mut self, role_id: u128)
        ensures
            final(self).role_ids@ == with_role(old(self).role_ids@, role_id),
            old(self).role_ids@.contains(role_id) ==> *final(self) == *old(self),
            final(self).id == old(self).id,
            final(self).tenant_id == old(self).tenant_id,
            final(self).email == old(self).email,
            final(self).display_name == old(self).display_name,
            final(self).password_hash == old(self).password_hash,
            final(self).status == old(self).status,
            final(self).last_login_at == old(self).last_login_at,
            final(self).created_at == old(self).created_at,
    {
        if !self.has_role(role_id) {
            self.role_ids.push(role_id);
            self.updated_at = now_micros();
        }
    }
}

/// Law: after a role is assigned the user holds it, along with every role
/// held before and no other.
pub proof fn law_roles_after_assign(ids: Seq<u128>, role_id: u128, other: u128)
    ensures
        with_role(ids, role_id).contains(other) <==> (ids.contains(other) || other == role_id),
{
    if !ids.contains(role_id) {
        let js = ids.push(role_id);
        assert(js[ids.len() as int] == role_id);
        if ids.contains(other) {
            let i = choose|i: int| 0 <= i < ids.len() && ids[i] == other;
            assert(js[i] == other);
        }
        if js.contains(other) {
            let i = choose|i: int| 0 <= i < js.len() && js[i] == other;
            if i < ids.len() {
                assert(ids[i] == other);
            }
        }
    }
}

/// Law: assigning a role twice is the same as assigning it once.
pub proof fn law_assign_role_idempotent(ids: Seq<u128>, role_id: u128)
    ensures
        with_role(with_role(ids, role_id), role_id) == with_role(ids, role_id),
{
    law_roles_after_assign(ids, role_id, role_id);
}

/// Law: assigning a role never introduces a duplicate.
pub proof fn law_assign_role_keeps_roles_distinct(ids: Seq<u128>, role_id: u128)
    requires
        ids.no_duplicates(),
    ensures
        with_role(ids, role_id).no_duplicates(),
{
    if !ids.contains(role_id) {
        let js = ids.push(role_id);
        assert forall|i: int, j: int| 0 <= i < js.len() && 0 <= j < js.len() && i != j implies js[i]
            != js[j] by {
            if i == ids.len() as int {
                assert(js[j] == ids[j]);
            } else if j == ids.len() as int {
                assert(js[i] == ids[i]);
            }
        }
    }
}

} // verus!
