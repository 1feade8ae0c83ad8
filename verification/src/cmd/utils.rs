//! Helpers of the command line front end.
use vstd::prelude::*;

verus! {

/// An optional name, or its default.
pub open spec fn name_or_default(v: Option<String>, default: Seq<char>) -> Seq<char> {
    match v {
        Some(s) => s@,
        None => default,
    }
}

/// An optional name, or its default, as an owned string.
fn owned_or(v: &Option<String>, default: &str) -> (r: String)
    ensures
        r@ == name_or_default(*v, default@),
{
    match v {
        Some(s) => s.clone(),
        None => String::from_str(default),
    }
}

/// The coordinates and search mode given on the command line, each
/// defaulting (level to `facility`, role, platform and site to `any`, mode
/// to `ancestor`), as `(level, role, platform, site, mode)`.
pub fn extract_coords(
    level: &Option<String>,
    role: &Option<String>,
    platform: &Option<String>,
    site: &Option<String>,
    mode: &Option<String>,
) -> (r: (String, String, String, String, String))
    ensures
        r.0@ == name_or_default(*level, "facility"@),
        r.1@ == name_or_default(*role, "any"@),
        r.2@ == name_or_default(*platform, "any"@),
        r.3@ == name_or_default(*site, "any"@),
        r.4@ == name_or_default(*mode, "ancestor"@),
{
    let r = owned_or(role, "any");
    let l = owned_or(level, "facility");
    let p = owned_or(platform, "any");
    let s = owned_or(site, "any");
    let m = owned_or(mode, "ancestor");
    (l, r, p, s, m)
}

} // verus!
