//! Validated value objects: e-mail addresses and tenant slugs.

use vstd::prelude::*;
use vstd::utf8::encode_utf8;

use crate::errors::{DomainError, ErrorView};
use crate::text::{
    all_white_space, ascii_lowercase, chars_of, concat, contains_char, is_ascii_text, is_lowercase,
    law_trim_ignores_surrounding_white_space, lemma_ascii_lowercase_ascii,
    lemma_trimmed_ascii_lowercase, lemma_trimmed_idempotent, lemma_trimmed_unchanged, string_of,
    to_lowercase, trim, trimmed, unicode_is_lowercase, unicode_lowercase, utf8_len_exceeds,
};

verus! {

/// How raw input is normalised before it is checked: trimmed of white space
/// at both ends, then lower-cased.
pub open spec fn normalized(raw: Seq<char>) -> Seq<char> {
    unicode_lowercase(trimmed(raw))
}

/// How ASCII input is normalised: trimmed, then its ASCII letters lowered.
/// On input whose trimmed form is ASCII this is what `normalized` gives.
pub open spec fn ascii_normalized(raw: Seq<char>) -> Seq<char> {
    ascii_lowercase(trimmed(raw))
}

/// Law: normalising is idempotent on input whose trimmed form is ASCII: the
/// normal form is ASCII, has no white space at its ends, and normalises to
/// itself.
pub proof fn law_ascii_normalization_is_idempotent(x: Seq<char>)
    requires
        is_ascii_text(trimmed(x)),
    ensures
        is_ascii_text(ascii_normalized(x)),
        trimmed(ascii_normalized(x)) == ascii_normalized(x),
        ascii_normalized(ascii_normalized(x)) == ascii_normalized(x),
{
    let t = trimmed(x);
    lemma_trimmed_idempotent(x);
    lemma_trimmed_ascii_lowercase(t);
    lemma_ascii_lowercase_ascii(t);
    assert(trimmed(ascii_lowercase(t)) == ascii_lowercase(t));
}

/// Law: lower-casing ASCII input first does not change how it is
/// normalised.
pub proof fn law_ascii_lowercasing_first_changes_nothing(x: Seq<char>)
    requires
        is_ascii_text(x),
    ensures
        is_ascii_text(ascii_lowercase(x)),
        is_ascii_text(trimmed(ascii_lowercase(x))),
        ascii_normalized(ascii_lowercase(x)) == ascii_normalized(x),
{
    lemma_ascii_lowercase_ascii(x);
    lemma_trimmed_ascii_lowercase(x);
    lemma_trimmed_ascii_lowercase(ascii_lowercase(x));
    lemma_ascii_lowercase_ascii(trimmed(x));
}

/// Law: white space around raw input does not change how it is normalised,
/// so e-mail addresses and slugs are read the same with or without it.
pub proof fn law_normalized_ignores_surrounding_white_space(
    pre: Seq<char>,
    x: Seq<char>,
    post: Seq<char>,
)
    requires
        all_white_space(pre),
        all_white_space(post),
    ensures
        normalized(pre + x + post) == normalized(x),
{
    law_trim_ignores_surrounding_white_space(pre, x, post);
}

/// The rule an e-mail address is held to: not empty, with an `@` and a `.`.
pub open spec fn is_valid_email_text(v: Seq<char>) -> bool {
    &&& v.len() > 0
    &&& v.contains('@')
    &&& v.contains('.')
}

/// Law: a normalised address is accepted exactly when it is not empty and
/// holds an `@` and a `.` somewhere; nothing else is asked of it.
pub proof fn law_email_accepted_iff_non_empty_with_at_and_dot(v: Seq<char>)
    ensures
        is_valid_email_text(v) <==> (v.len() > 0 && (exists|i: int| 0 <= i < v.len() && v[i] == '@')
            && (exists|j: int| 0 <= j < v.len() && v[j] == '.')),
{
}

/// An e-mail address, normalised and checked.
#[derive(Debug, PartialEq, Eq)]
pub struct Email {
    value: String,
}

impl View for Email {
    type V = Seq<char>;

    closed spec fn view(&self) -> Seq<char> {
        self.value@
    }
}

impl Email {
    #[verifier::type_invariant]
    spec fn well_formed(self) -> bool {
        is_valid_email_text(self.value@)
    }

    /// Normalises `value` and accepts it as an address if it is well formed;
    /// otherwise `Validation("Invalid email: <normalised value>")`.
    pub fn new(value: &str) -> (out: Result<Email, DomainError>)
        ensures
            match out {
                Ok(email) => email@ == normalized(value@) && is_valid_email_text(email@),
                Err(e) => !is_valid_email_text(normalized(value@)) && e@ == ErrorView::Validation(
                    "Invalid email: "@ + normalized(value@),
                ),
            },
            is_ascii_text(trimmed(value@)) ==> normalized(value@) == ascii_normalized(value@),
    {
        let trimmed_value = trim(value);
        let v = to_lowercase(trimmed_value.as_str());
        if v.as_str().is_empty() || !contains_char(v.as_str(), '@') || !contains_char(
            v.as_str(),
            '.',
        ) {
            return Err(DomainError::Validation(concat("Invalid email: ", v.as_str())));
        }
        Ok(Email { value: v })
    }

    /// The normalised address.
    pub fn value(&self) -> (out: &str)
        ensures
            out@ == self@,
            is_valid_email_text(self@),
    {
        proof {
            use_type_invariant(self);
        }
        self.value.as_str()
    }

    /// The address as text, as `Display` writes it.
    pub fn to_string(&self) -> (out: String)
        ensures
            out@ == self@,
    {
        string_of(self.value.as_str())
    }
}

impl Clone for Email {
    fn clone(&self) -> (out: Self)
        ensures
            out@ == self@,
    {
        proof {
            use_type_invariant(self);
        }
        Email { value: self.value.clone() }
    }
}

/// A character that a slug may hold: a lower-case letter (one with the
/// Unicode `Lowercase` property), an ASCII digit or a hyphen.
pub open spec fn is_slug_char(c: char) -> bool {
    ||| unicode_is_lowercase(c)
    ||| ('0' <= c && c <= '9')
    ||| c == '-'
}

/// Why a normalised slug is refused, or `None` when it is accepted: it must
/// be 1 to 63 bytes long in UTF-8, hold only lower-case letters, digits and
/// hyphens, and neither start nor end with a hyphen.
pub open spec fn slug_error(v: Seq<char>) -> Option<Seq<char>> {
    if v.len() == 0 || encode_utf8(v).len() > 63 {
        Some("Slug must be 1-63 characters"@)
    } else if !(forall|i: int| 0 <= i < v.len() ==> is_slug_char(#[trigger] v[i])) {
        Some("Slug must contain only lowercase letters, numbers, and hyphens"@)
    } else if v[0] == '-' || v.last() == '-' {
        Some("Slug cannot start or end with a hyphen"@)
    } else {
        None
    }
}

/// The rules a tenant slug is held to.
pub open spec fn is_valid_slug(v: Seq<char>) -> bool {
    slug_error(v) is None
}

/// Law: a normalised slug is accepted exactly when it is 1 to 63 bytes long
/// in UTF-8, every character is a lower-case letter, an ASCII digit or a
/// hyphen, and it neither starts nor ends with a hyphen; nothing else is
/// asked of it (it may start with a digit, for one).
pub proof fn law_slug_accepted_iff(v: Seq<char>)
    ensures
        is_valid_slug(v) <==> (v.len() > 0 && encode_utf8(v).len() <= 63 && (forall|i: int|
            0 <= i < v.len() ==> unicode_is_lowercase(#[trigger] v[i]) || ('0' <= v[i] && v[i]
                <= '9') || v[i] == '-') && v[0] != '-' && v[v.len() - 1] != '-'),
{
    if v.len() > 0 {
        assert(v.last() == v[v.len() - 1]);
    }
}

/// Every ASCII character of `v` is one of `a`-`z`, `0`-`9` and `-`.
pub open spec fn is_ascii_slug_text(v: Seq<char>) -> bool {
    forall|i: int|
        0 <= i < v.len() && (#[trigger] v[i] as u32) < 0x80 ==> ('a' <= v[i] && v[i] <= 'z') || (
        '0' <= v[i] && v[i] <= '9') || v[i] == '-'
}

/// Law: an ASCII slug is its own normal form: it has no white space at its
/// ends and no upper-case letter, so normalising it gives it back.
pub proof fn law_ascii_slug_is_its_own_normal_form(v: Seq<char>)
    requires
        is_valid_slug(v),
        is_ascii_slug_text(v),
        is_ascii_text(v),
    ensures
        trimmed(v) == v,
        ascii_normalized(v) == v,
{
    assert((v[0] as u32) < 0x80);
    assert((v.last() as u32) < 0x80);
    assert(v.last() == v[v.len() - 1]);
    lemma_trimmed_unchanged(v);
    assert forall|i: int| 0 <= i < v.len() implies #[trigger] ascii_lowercase(v)[i] == v[i] by {
        assert((v[i] as u32) < 0x80);
    }
    assert(ascii_lowercase(v) =~= v);
}

/// The unique, readable name of a tenant, e.g. `empresa-peru-sac`.
#[derive(Debug, PartialEq, Eq)]
pub struct TenantSlug {
    value: String,
}

impl View for TenantSlug {
    type V = Seq<char>;

    closed spec fn view(&self) -> Seq<char> {
        self.value@
    }
}

/// Whether every character of `v` is one that a slug may hold.
fn all_slug_chars(v: &str) -> (b: bool)
    ensures
        b == (forall|i: int| 0 <= i < v@.len() ==> is_slug_char(#[trigger] v@[i])),
        b ==> is_ascii_slug_text(v@),
{
    let cs = chars_of(v);
    let mut i: usize = 0;
    while i < cs.len()
        invariant
            i <= cs.len(),
            cs@ == v@,
            forall|k: int| 0 <= k < i ==> is_slug_char(#[trigger] v@[k]),
            forall|k: int|
                0 <= k < i && (#[trigger] v@[k] as u32) < 0x80 ==> ('a' <= v@[k] && v@[k] <= 'z')
                    || ('0' <= v@[k] && v@[k] <= '9') || v@[k] == '-',
        decreases cs.len() - i,
    {
        let c = cs[i];
        let lower = is_lowercase(c);
        if !(lower || ('0' <= c && c <= '9') || c == '-') {
            assert(!is_slug_char(v@[i as int]));
            return false;
        }
        i = i + 1;
    }
    true
}

impl TenantSlug {
    #[verifier::type_invariant]
    spec fn well_formed(self) -> bool {
        is_valid_slug(self.value@) && is_ascii_slug_text(self.value@)
    }

    /// Normalises `value` and accepts it as a slug if it keeps the slug
    /// rules; otherwise `Validation` with the message of the first rule
    /// that it breaks.
    pub fn new(value: &str) -> (out: Result<TenantSlug, DomainError>)
        ensures
            match out {
                Ok(slug) => slug@ == normalized(value@) && is_valid_slug(slug@)
                    && is_ascii_slug_text(slug@),
                Err(e) => slug_error(normalized(value@)) matches Some(m) && e@
                    == ErrorView::Validation(m),
            },
            is_ascii_text(trimmed(value@)) ==> normalized(value@) == ascii_normalized(value@),
    {
        let trimmed_value = trim(value);
        let v = to_lowercase(trimmed_value.as_str());
        if v.as_str().is_empty() || utf8_len_exceeds(v.as_str(), 63) {
            return Err(DomainError::Validation(string_of("Slug must be 1-63 characters")));
        }
        if !all_slug_chars(v.as_str()) {
            return Err(
                DomainError::Validation(
                    string_of("Slug must contain only lowercase letters, numbers, and hyphens"),
                ),
            );
        }
        let cs = chars_of(v.as_str());
        if cs[0] == '-' || cs[cs.len() - 1] == '-' {
            return Err(
                DomainError::Validation(string_of("Slug cannot start or end with a hyphen")),
            );
        }
        Ok(TenantSlug { value: v })
    }

    /// The normalised slug.
    pub fn value(&self) -> (out: &str)
        ensures
            out@ == self@,
            is_valid_slug(self@),
            is_ascii_slug_text(self@),
            is_ascii_text(self@) ==> trimmed(self@) == self@ && ascii_normalized(self@) == self@,
    {
        proof {
            use_type_invariant(self);
            if is_ascii_text(self@) {
                law_ascii_slug_is_its_own_normal_form(self@);
            }
        }
        self.value.as_str()
    }

    /// The slug as text, as `Display` writes it.
    pub fn to_string(&self) -> (out: String)
        ensures
            out@ == self@,
    {
        string_of(self.value.as_str())
    }
}

impl Clone for TenantSlug {
    fn clone(&self) -> (out: Self)
        ensures
            out@ == self@,
    {
        proof {
            use_type_invariant(self);
        }
        TenantSlug { value: self.value.clone() }
    }
}

} // verus!
