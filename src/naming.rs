//! Deterministic, sanitised names for the storage objects of a tenant.
use vstd::prelude::*;
use vstd::string::StringExecFns;

verus! {

/// A character that may stand in a storage object name unchanged.
pub open spec fn is_name_char(c: char) -> bool {
    ('a' <= c && c <= 'z') || ('A' <= c && c <= 'Z') || ('0' <= c && c <= '9') || c == '_'
}

/// Every character outside `[A-Za-z0-9_]` replaced by `_`.
pub open spec fn sanitized(s: Seq<char>) -> Seq<char> {
    s.map_values(|c: char| if is_name_char(c) { c } else { '_' })
}

/// The name of the object of kind `prefix` that belongs to tenant `domain`.
pub open spec fn table_name(prefix: Seq<char>, domain: Seq<char>) -> Seq<char> {
    sanitized(prefix + seq!['_'] + domain)
}

/// The pattern that matches one character that may not stand in a name.
pub const NAME_FILTER: &'static str = "[^a-zA-Z0-9_]";

/// The replacement for each character that `NAME_FILTER` matches.
pub const NAME_FILLER: &'static str = "_";

/// Relies on `regex::Regex::replace_all`: with the pattern `[^a-zA-Z0-9_]`
/// every match is a single character outside that class, and each match is
/// replaced by the literal `_`. `Regex::new` does not fail on that pattern.
#[verifier::external_body]
fn replace_all_matches(pattern: &str, text: &str, replacement: &str) -> (r: String)
    requires
        pattern@ == NAME_FILTER@,
        replacement@ == NAME_FILLER@,
    ensures
        r@ == sanitized(text@),
{
    regex::Regex::new(pattern).unwrap().replace_all(text, replacement).into_owned()
}

/// The storage object name `{prefix}_{domain}`, with every character outside
/// `[A-Za-z0-9_]` replaced by `_`.
pub fn get_table_name(prefix: &str, domain: &str) -> (r: String)
    ensures
        r@ == table_name(prefix@, domain@),
{
    let mut joined = String::from_str(prefix);
    joined.append("_");
    joined.append(domain);
    proof {
        reveal_strlit("_");
        assert(joined@ == prefix@ + seq!['_'] + domain@);
    }
    replace_all_matches(NAME_FILTER, joined.as_str(), NAME_FILLER)
}

/// Names are stable and safe: the name of a tenant's object depends on the
/// prefix and the domain alone, keeps the length of `{prefix}_{domain}`, and
/// holds only characters of `[A-Za-z0-9_]`.
pub proof fn lemma_name_stable_and_safe(prefix: Seq<char>, domain: Seq<char>)
    ensures
        table_name(prefix, domain) == sanitized(prefix + seq!['_'] + domain),
        table_name(prefix, domain).len() == prefix.len() + 1 + domain.len(),
        forall|i: int|
            0 <= i < table_name(prefix, domain).len() ==> is_name_char(
                #[trigger] table_name(prefix, domain)[i],
            ),
{
}

} // verus!
