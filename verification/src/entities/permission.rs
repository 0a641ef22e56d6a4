//! Atomic permissions such as `invoices:create`.

use vstd::prelude::*;

use crate::ids::{new_uuid_v4, now_micros};
use crate::text::{concat, string_of};

verus! {

/// An atomic permission of the system: an `action` on a `resource`.
#[derive(Debug)]
pub struct Permission {
    pub id: u128,
    /// e.g. `invoices`, `payroll`, `users`
    pub resource: String,
    /// e.g. `create`, `read`, `update`, `delete`
    pub action: String,
    pub description: String,
    /// Microseconds since the Unix epoch.
    pub created_at: i64,
}

/// The canonical name of a permission: `resource:action`.
pub open spec fn canonical_name_of(resource: Seq<char>, action: Seq<char>) -> Seq<char> {
    resource + ":"@ + action
}

impl Permission {
    /// A new permission with a fresh identifier, created now.
    pub fn new(resource: &str, action: &str, description: &str) -> (p: Permission)
        ensures
            p.resource@ == resource@,
            p.action@ == action@,
            p.description@ == description@,
    {
        Permission {
            id: new_uuid_v4(),
            resource: string_of(resource),
            action: string_of(action),
            description: string_of(description),
            created_at: now_micros(),
        }
    }

    /// `resource:action`.
    pub fn canonical_name(&self) -> (name: String)
        ensures
            name@ == canonical_name_of(self.resource@, self.action@),
    {
        let head = concat(self.resource.as_str(), ":");
        concat(head.as_str(), self.action.as_str())
    }
}

impl Clone for Permission {
    fn clone(&self) -> (out: Self)
        ensures
            out.id == self.id,
            out.resource@ == self.resource@,
            out.action@ == self.action@,
            out.description@ == self.description@,
            out.created_at == self.created_at,
    {
        Permission {
            id: self.id,
            resource: self.resource.clone(),
            action: self.action.clone(),
            description: self.description.clone(),
            created_at: self.created_at,
        }
    }
}

} // verus!
