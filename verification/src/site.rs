//! Sites: the physical location a package is pinned for (`portland`),
//! or `any`.
use crate::coords_error::CoordsError;
use crate::text::{has_char, str_eq};
use vstd::prelude::*;

verus! {

/// A site, or any site.
#[derive(Debug, PartialEq, Eq, PartialOrd, Ord, Clone, Hash)]
pub enum Site {
    /// A named site, such as `portland`.
    Named(String),
    /// Any site.
    Any,
}

impl View for Site {
    /// `None` for any site, else the site's name.
    type V = Option<Seq<char>>;

    open spec fn view(&self) -> Option<Seq<char>> {
        match self {
            Site::Named(n) => Some(n@),
            Site::Any => None,
        }
    }
}

/// A site name is not blank and holds no space and no dot.
pub open spec fn site_name_ok(s: Seq<char>) -> bool {
    s.len() > 0 && !s.contains(' ') && !s.contains('.')
}

/// What a site name stands for: `Some(None)` for `any`, `Some(Some(name))`
/// for a valid name, `None` for a name that is not a site.
pub open spec fn parse_site(s: Seq<char>) -> Option<Option<Seq<char>>> {
    if s == "any"@ {
        Some(None)
    } else if site_name_ok(s) {
        Some(Some(s))
    } else {
        None
    }
}

/// Reading back the text of a site (its name, or `any`) gives the same
/// site.
pub proof fn lemma_site_text_round_trip(s: Seq<char>)
    requires
        parse_site(s) is Some,
    ensures
        parse_site(
            match parse_site(s).unwrap() {
                Some(n) => n,
                None => "any"@,
            },
        ) == parse_site(s),
{
}

impl Site {
    /// Whether two values name the same site.
    pub fn same_as(&self, other: &Site) -> (r: bool)
        ensures
            r == (self@ == other@),
    {
        match (self, other) {
            (Site::Named(a), Site::Named(b)) => str_eq(a.as_str(), b.as_str()),
            (Site::Any, Site::Any) => true,
            _ => false,
        }
    }

    /// The site named by `input`.
    pub fn from_str(input: &str) -> (r: Result<Site, CoordsError>)
        ensures
            match r {
                Ok(x) => parse_site(input@) == Some(x@),
                Err(CoordsError::FromStrToSiteError { input: i }) => parse_site(input@) is None
                    && i@ == input@,
                Err(_) => false,
            },
    {
        if str_eq(input, "any") {
            return Ok(Site::Any);
        }
        if input.is_empty() || has_char(input, ' ') || has_char(input, '.') {
            return Err(CoordsError::FromStrToSiteError { input: String::from_str(input) });
        }
        Ok(Site::Named(String::from_str(input)))
    }

    /// Whether this is any site.
    pub fn is_any(&self) -> (r: bool)
        ensures
            r == (self@ is None),
    {
        match self {
            Site::Any => true,
            Site::Named(_) => false,
        }
    }

    /// The site's name; `any` for any site.
    pub fn to_string(&self) -> (r: String)
        ensures
            r@ == match self@ {
                Some(n) => n,
                None => "any"@,
            },
    {
        match self {
            Site::Named(n) => n.clone(),
            Site::Any => String::from_str("any"),
        }
    }
}

} // verus!
