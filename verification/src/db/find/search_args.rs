//! What the searches for a package at coordinates share: their parameters
//! and their ORDER BY clause.
use crate::db::search_attribute::SearchAttribute;
use crate::text::{join, join_with};
use vstd::prelude::*;

verus! {

/// A searched name, or its default.
pub open spec fn or_default(v: Option<&str>, default: Seq<char>) -> Seq<char> {
    match v {
        Some(s) => s@,
        None => default,
    }
}

/// A searched name, or its default.
pub fn name_or<'b>(v: Option<&'b str>, default: &'b str) -> (r: &'b str)
    ensures
        r@ == or_default(v, default@),
{
    match v {
        Some(s) => s,
        None => default,
    }
}

/// The parameters of a search for a package at coordinates: the package,
/// then role, platform, level and site, each defaulting to `any` or the
/// facility.
pub open spec fn coords_args(
    package: &str,
    level: Option<&str>,
    role: Option<&str>,
    platform: Option<&str>,
    site: Option<&str>,
) -> Seq<Seq<char>> {
    seq![
        package@,
        or_default(role, "any"@),
        or_default(platform, "any"@),
        or_default(level, "facility"@),
        or_default(site, "any"@),
    ]
}

/// The parameters of a search for a package at coordinates.
pub fn coords_args_vec(
    package: &str,
    level: Option<&str>,
    role: Option<&str>,
    platform: Option<&str>,
    site: Option<&str>,
) -> (r: Vec<String>)
    ensures
        r.deep_view() == coords_args(package, level, role, platform, site),
{
    let r = vec![
        String::from_str(package),
        String::from_str(name_or(role, "any")),
        String::from_str(name_or(platform, "any")),
        String::from_str(name_or(level, "facility")),
        String::from_str(name_or(site, "any")),
    ];
    assert(r.deep_view() =~= coords_args(package, level, role, platform, site));
    r
}

/// The ordering names no unknown attribute.
pub open spec fn no_unknown_order(order: Option<Vec<SearchAttribute>>) -> bool {
    match order {
        Some(v) => forall|i: int| 0 <= i < v@.len() ==> v@[i] != SearchAttribute::Unknown,
        None => true,
    }
}

/// The column a known attribute orders rows by.
pub open spec fn find_column(a: SearchAttribute) -> Seq<char> {
    match a {
        SearchAttribute::Level => "level_name"@,
        SearchAttribute::Role => "role_name"@,
        SearchAttribute::Platform => "platform_name"@,
        SearchAttribute::Site => "site_name"@,
        SearchAttribute::Package => "package"@,
        SearchAttribute::Unknown => Seq::empty(),
    }
}

/// The column a known attribute orders rows by.
fn from_attr_to_str(attr: &SearchAttribute) -> (r: &'static str)
    requires
        *attr != SearchAttribute::Unknown,
    ensures
        r@ == find_column(*attr),
{
    match attr {
        SearchAttribute::Level => "level_name",
        SearchAttribute::Role => "role_name",
        SearchAttribute::Platform => "platform_name",
        SearchAttribute::Site => "site_name",
        SearchAttribute::Package => "package",
        SearchAttribute::Unknown => "",
    }
}

/// The ORDER BY clause of the given attributes, where given.
pub open spec fn find_order(order: Option<Vec<SearchAttribute>>) -> Seq<char> {
    match order {
        Some(v) => " ORDER BY "@ + join(v@.map_values(|a: SearchAttribute| find_column(a)), ","@),
        None => Seq::empty(),
    }
}

/// The ORDER BY clause of the given attributes, where given.
pub fn find_order_text(order: &Option<Vec<SearchAttribute>>) -> (r: String)
    requires
        no_unknown_order(*order),
    ensures
        r@ == find_order(*order),
{
    match order {
        Some(v) => {
            let mut cols: Vec<String> = Vec::new();
            let mut i: usize = 0;
            while i < v.len()
                invariant
                    i <= v.len(),
                    cols.len() == i,
                    forall|k: int| 0 <= k < v@.len() ==> v@[k] != SearchAttribute::Unknown,
                    forall|j: int| 0 <= j < i ==> #[trigger] cols@[j]@ == find_column(v@[j]),
                decreases v.len() - i,
            {
                cols.push(String::from_str(from_attr_to_str(&v[i])));
                i = i + 1;
            }
            assert(cols.deep_view() =~= v@.map_values(|a: SearchAttribute| find_column(a)));
            let mut s = String::from_str(" ORDER BY ");
            s.append(join_with(&cols, ",").as_str());
            s
        },
        None => String::new(),
    }
}

/// The text of the packages that go with a pin: ` [a, b]`, or ` []`.
pub open spec fn withs_text(withs: Option<Vec<String>>) -> Seq<char> {
    match withs {
        Some(w) => " ["@ + join(w.deep_view(), ", "@) + "]"@,
        None => " []"@,
    }
}

} // verus!
