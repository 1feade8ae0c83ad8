//! Small helpers shared by the queries.
use crate::text::{replace_char, replace_char_in, has_char, str_eq};
use vstd::prelude::*;

verus! {

/// The SQL operator for a search mode name; unknown names search
/// descendants.
pub open spec fn search_mode_op(name: Seq<char>) -> Seq<char> {
    if name == "exact"@ {
        "="@
    } else if name == "ancestor"@ {
        "@>"@
    } else {
        "<@"@
    }
}

/// The SQL operator for a search mode name: `exact` is `=`, `ancestor` is
/// `@>`, `descendant` and any other name is `<@`.
pub fn search_mode_name_to_op(name: &str) -> (r: &'static str)
    ensures
        r@ == search_mode_op(name@),
{
    if str_eq(name, "exact") {
        "="
    } else if str_eq(name, "ancestor") {
        "@>"
    } else {
        "<@"
    }
}

/// A coordinate value as it is searched for: the default itself, a value
/// holding `%` as it is, or else the value under the default (`default.value`);
/// with `substitute`, underscores then become dots.
pub open spec fn prepped_value(default: Seq<char>, value: Seq<char>, substitute: bool) -> Seq<
    char,
> {
    let v = if value == default {
        default
    } else if value.contains('%') {
        value
    } else {
        default + "."@ + value
    };
    if substitute {
        replace_char(v, '_', '.')
    } else {
        v
    }
}

/// Prepare a coordinate value for a search below `default`.
pub fn prep_query_str(default: &str, value: &str, substitute: bool) -> (r: String)
    ensures
        r@ == prepped_value(default@, value@, substitute),
{
    let result = if str_eq(value, default) {
        String::from_str(default)
    } else if has_char(value, '%') {
        String::from_str(value)
    } else {
        let mut s = String::from_str(default);
        s.append(".");
        s.append(value);
        s
    };
    if substitute {
        replace_char_in(result.as_str(), '_', '.')
    } else {
        result
    }
}

/// The value searched for on an axis: its default when unset, else the value
/// prepared below the default.
pub open spec fn axis_value(v: Option<&str>, default: Seq<char>, substitute: bool) -> Seq<char> {
    match v {
        Some(x) => prepped_value(default, x@, substitute),
        None => default,
    }
}

/// The value searched for on an axis.
pub fn axis_text(v: Option<&str>, default: &str, substitute: bool) -> (r: String)
    ensures
        r@ == axis_value(v, default@, substitute),
{
    match v {
        Some(x) => prep_query_str(default, x, substitute),
        None => String::from_str(default),
    }
}

/// A parameter of a query: a text or a number.
#[derive(Debug, PartialEq, Eq, Clone)]
pub enum QueryParam {
    Text(String),
    Int(i32),
    Long(i64),
}

/// `p` is the text `t`.
pub open spec fn is_text(p: QueryParam, t: Seq<char>) -> bool {
    p matches QueryParam::Text(s) && s@ == t
}

/// `p` is the 32-bit number `n`.
pub open spec fn is_int(p: QueryParam, n: int) -> bool {
    p matches QueryParam::Int(m) && m == n
}

/// `p` is the 64-bit number `n`.
pub open spec fn is_long(p: QueryParam, n: int) -> bool {
    p matches QueryParam::Long(m) && m == n
}

} // verus!
