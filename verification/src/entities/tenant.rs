//! Tenants: the companies that share the system, each in its own schema.

use vstd::prelude::*;

use crate::ids::{new_uuid_v4, now_micros};
use crate::text::{concat, replace_char, replace_char_spec, string_of};
use crate::value_objects::{is_ascii_slug_text, is_slug_char, is_valid_slug, TenantSlug};

verus! {

/// Whether a tenant may use the system.
#[derive(Debug, Clone, Copy, PartialEq, Eq, Structural)]
pub enum TenantStatus {
    Active,
    Suspended,
    Cancelled,
}

/// A tenant: a company with its own database schema.
#[derive(Debug)]
pub struct Tenant {
    pub id: u128,
    /// Unique readable identifier, e.g. `empresa-peru-sac`.
    pub slug: TenantSlug,
    /// Legal name of the company.
    pub name: String,
    /// Name of the tenant's database schema, e.g. `tenant_empresa_peru_sac`.
    pub schema_name: String,
    pub status: TenantStatus,
    /// Microseconds since the Unix epoch.
    pub created_at: i64,
    pub updated_at: i64,
}

/// The schema name of the tenant with slug `slug`: `tenant_` followed by the
/// slug with its hyphens turned into underscores.
pub open spec fn schema_name_for(slug: Seq<char>) -> Seq<char> {
    "tenant_"@ + replace_char_spec(slug, '-', '_')
}

impl Tenant {
    /// A new active tenant with a fresh identifier, created and updated now.
    pub fn new(slug: TenantSlug, name: &str) -> (t: Tenant)
        ensures
            t.slug@ == slug@,
            t.name@ == name@,
            t.schema_name@ == schema_name_for(slug@),
            t.status == TenantStatus::Active,
            t.created_at == t.updated_at,
    {
        let replaced = replace_char(slug.value(), '-', '_');
        let schema_name = concat("tenant_", replaced.as_str());
        let now = now_micros();
        Tenant {
            id: new_uuid_v4(),
            schema_name,
            name: string_of(name),
            slug,
            status: TenantStatus::Active,
            created_at: now,
            updated_at: now,
        }
    }

    /// Whether the tenant is active.
    pub fn is_active(&self) -> (b: bool)
        ensures
            b == (self.status == TenantStatus::Active),
    {
        self.status == TenantStatus::Active
    }
}

/// Law: the schema name of a valid slug is `tenant_` followed by characters
/// that a slug may hold or underscores; it holds no hyphen.
pub proof fn law_schema_name_characters(slug: Seq<char>)
    requires
        is_valid_slug(slug),
    ensures
        schema_name_for(slug).subrange(0, 7) == "tenant_"@,
        forall|i: int|
            7 <= i < schema_name_for(slug).len() ==> is_slug_char(
                #[trigger] schema_name_for(slug)[i],
            ) || schema_name_for(slug)[i] == '_',
        !schema_name_for(slug).subrange(7, schema_name_for(slug).len() as int).contains('-'),
{
    reveal_strlit("tenant_");
    let s = schema_name_for(slug);
    let r = replace_char_spec(slug, '-', '_');
    assert(s.subrange(0, 7) =~= "tenant_"@);
    assert(s.subrange(7, s.len() as int) =~= r);
    assert forall|i: int| 7 <= i < s.len() implies is_slug_char(#[trigger] s[i]) || s[i]
        == '_' by {
        assert(s[i] == r[i - 7]);
        assert(is_slug_char(slug[i - 7]));
    }
    if r.contains('-') {
        let k = choose|k: int| 0 <= k < r.len() && r[k] == '-';
        assert(r[k] == (if slug[k] == '-' { '_' } else { slug[k] }));
    }
}

/// Law: tenants with different slugs get different schema names, so no two
/// tenants share a schema.
pub proof fn law_distinct_slugs_distinct_schemas(a: Seq<char>, b: Seq<char>)
    requires
        is_valid_slug(a),
        is_ascii_slug_text(a),
        is_valid_slug(b),
        is_ascii_slug_text(b),
        a != b,
    ensures
        schema_name_for(a) != schema_name_for(b),
{
    reveal_strlit("tenant_");
    let ra = replace_char_spec(a, '-', '_');
    let rb = replace_char_spec(b, '-', '_');
    if schema_name_for(a) == schema_name_for(b) {
        let s = schema_name_for(a);
        assert(s.subrange(7, s.len() as int) =~= ra);
        assert(schema_name_for(b).subrange(7, s.len() as int) =~= rb);
        assert(ra.len() == rb.len());
        assert forall|i: int| 0 <= i < a.len() implies a[i] == b[i] by {
            assert(ra[i] == rb[i]);
            assert(a[i] != '_' && b[i] != '_') by {
                assert(('_' as u32) < 0x80);
                if a[i] == '_' {
                    assert(a[i] as u32 == 0x5F);
                }
                if b[i] == '_' {
                    assert(b[i] as u32 == 0x5F);
                }
            }
        }
        assert(a =~= b);
    }
}

} // verus!
