//! Platforms: the operating system a package is pinned for (`cent7_64`),
//! or `any`.
use crate::coords_error::CoordsError;
use crate::text::{has_char, str_eq};
use vstd::prelude::*;

verus! {

/// A platform, or any platform.
#[derive(Debug, PartialEq, Eq, PartialOrd, Ord, Clone, Hash)]
pub enum Platform {
    /// A named platform, such as `cent7_64`.
    Named(String),
    /// Any platform.
    Any,
}

impl View for Platform {
    /// `None` for any platform, else the platform's name.
    type V = Option<Seq<char>>;

    open spec fn view(&self) -> Option<Seq<char>> {
        match self {
            Platform::Named(n) => Some(n@),
            Platform::Any => None,
        }
    }
}

/// A platform name is not blank and holds no space and no dot.
pub open spec fn platform_name_ok(s: Seq<char>) -> bool {
    s.len() > 0 && !s.contains(' ') && !s.contains('.')
}

/// What a platform name stands for: `Some(None)` for `any`, `Some(Some(name))`
/// for a valid name, `None` for a name that is not a platform.
pub open spec fn parse_platform(s: Seq<char>) -> Option<Option<Seq<char>>> {
    if s == "any"@ {
        Some(None)
    } else if platform_name_ok(s) {
        Some(Some(s))
    } else {
        None
    }
}

/// Reading back the text of a platform (its name, or `any`) gives the same
/// platform.
pub proof fn lemma_platform_text_round_trip(s: Seq<char>)
    requires
        parse_platform(s) is Some,
    ensures
        parse_platform(
            match parse_platform(s).unwrap() {
                Some(n) => n,
                None => "any"@,
            },
        ) == parse_platform(s),
{
}

impl Platform {
    /// Whether two values name the same platform.
    pub fn same_as(&self, other: &Platform) -> (r: bool)
        ensures
            r == (self@ == other@),
    {
        match (self, other) {
            (Platform::Named(a), Platform::Named(b)) => str_eq(a.as_str(), b.as_str()),
            (Platform::Any, Platform::Any) => true,
            _ => false,
        }
    }

    /// The platform named by `input`.
    pub fn from_str(input: &str) -> (r: Result<Platform, CoordsError>)
        ensures
            match r {
                Ok(x) => parse_platform(input@) == Some(x@),
                Err(CoordsError::FromStrToPlatformError { input: i }) => parse_platform(input@) is None
                    && i@ == input@,
                Err(_) => false,
            },
    {
        if str_eq(input, "any") {
            return Ok(Platform::Any);
        }
        if input.is_empty() || has_char(input, ' ') || has_char(input, '.') {
            return Err(CoordsError::FromStrToPlatformError { input: String::from_str(input) });
        }
        Ok(Platform::Named(String::from_str(input)))
    }

    /// Whether this is any platform.
    pub fn is_any(&self) -> (r: bool)
        ensures
            r == (self@ is None),
    {
        match self {
            Platform::Any => true,
            Platform::Named(_) => false,
        }
    }

    /// The platform's name; `any` for any platform.
    pub fn to_string(&self) -> (r: String)
        ensures
            r@ == match self@ {
                Some(n) => n,
                None => "any"@,
            },
    {
        match self {
            Platform::Named(n) => n.clone(),
            Platform::Any => String::from_str("any"),
        }
    }
}

} // verus!
