//! Find the version pin of a package at given coordinates, with the
//! packages that go with it.
use crate::coords_error::CoordsError;
use crate::db::find::search_args::{coords_args, coords_args_vec};
use crate::db::find::versionpins::{FindVersionPinsError, FindVersionPinsRow};
use vstd::prelude::*;

verus! {

/// Errors of a search for the version pin of a package.
#[allow(inconsistent_fields)]
#[derive(Debug)]
pub enum FindVersionPinError {
    /// The query found nothing.
    NoQueryResults,
    /// A distribution could not be made.
    CreateDistributionError { input: String, source: CoordsError },
    /// The database refused the query.
    TokioPostgresError { msg: &'static str, source: tokio_postgres::Error },
    /// The row the query found could not be read.
    FindVersionPinsRowError { source: FindVersionPinsError },
}

/// A search for the version pin of a package.
pub struct FindVersionPin<'a> {
    pub package: &'a str,
    pub level: Option<&'a str>,
    pub role: Option<&'a str>,
    pub platform: Option<&'a str>,
    pub site: Option<&'a str>,
}

/// The fields of a search other than its connection.
pub open spec fn same_versionpin_search(a: FindVersionPin, b: FindVersionPin) -> bool {
    &&& a.package == b.package
    &&& a.level == b.level
    &&& a.role == b.role
    &&& a.platform == b.platform
    &&& a.site == b.site
}

impl<'a> FindVersionPin<'a> {
    /// A search for the version pin of `package`, at the facility and
    /// any role, platform and site.
    pub fn new(package: &'a str) -> (r: Self)
        ensures
            r.package == package,
            r.level is None,
            r.role is None,
            r.platform is None,
            r.site is None,
    {
        FindVersionPin { package, level: None, role: None, platform: None, site: None }
    }

    /// Set the level.
    pub fn level(&mut self, level_n: &'a str) -> (r: &mut Self)
        ensures
            same_versionpin_search(*r, FindVersionPin { level: Some(level_n), ..*old(self) }),
            *final(self) == *final(r),
    {
        self.level = Some(level_n);
        self
    }

    /// Set the role.
    pub fn role(&mut self, role_n: &'a str) -> (r: &mut Self)
        ensures
            same_versionpin_search(*r, FindVersionPin { role: Some(role_n), ..*old(self) }),
            *final(self) == *final(r),
    {
        self.role = Some(role_n);
        self
    }

    /// Set the platform.
    pub fn platform(&mut self, platform_n: &'a str) -> (r: &mut Self)
        ensures
            same_versionpin_search(*r, FindVersionPin { platform: Some(platform_n), ..*old(self) }),
            *final(self) == *final(r),
    {
        self.platform = Some(platform_n);
        self
    }

    /// Set the site.
    pub fn site(&mut self, site_n: &'a str) -> (r: &mut Self)
        ensures
            same_versionpin_search(*r, FindVersionPin { site: Some(site_n), ..*old(self) }),
            *final(self) == *final(r),
    {
        self.site = Some(site_n);
        self
    }

    /// Set or clear the level.
    pub fn level_opt(&mut self, level_n: Option<&'a str>) -> (r: &mut Self)
        ensures
            same_versionpin_search(*r, FindVersionPin { level: level_n, ..*old(self) }),
            *final(self) == *final(r),
    {
        self.level = level_n;
        self
    }

    /// Set or clear the role.
    pub fn role_opt(&mut self, role_n: Option<&'a str>) -> (r: &mut Self)
        ensures
            same_versionpin_search(*r, FindVersionPin { role: role_n, ..*old(self) }),
            *final(self) == *final(r),
    {
        self.role = role_n;
        self
    }

    /// Set or clear the platform.
    pub fn platform_opt(&mut self, platform_n: Option<&'a str>) -> (r: &mut Self)
        ensures
            same_versionpin_search(*r, FindVersionPin { platform: platform_n, ..*old(self) }),
            *final(self) == *final(r),
    {
        self.platform = platform_n;
        self
    }

    /// Set or clear the site.
    pub fn site_opt(&mut self, site_n: Option<&'a str>) -> (r: &mut Self)
        ensures
            same_versionpin_search(*r, FindVersionPin { site: site_n, ..*old(self) }),
            *final(self) == *final(r),
    {
        self.site = site_n;
        self
    }

    /// The query text and its parameters: the package, then role,
    /// platform, level and site (defaulting to `any` and the facility).
    pub fn get_query_str(&self) -> (r: (String, Vec<String>))
        ensures
            r.0@ == "SELECT 
            versionpin_id, 
            distribution, 
            level_name, 
            role_name, 
            site_name, 
            platform_name,
            withs
        FROM find_distribution_and_withs(
            $1, 
            role => $2, 
            platform => $3, 
            level=>$4, 
            site => $5)"@,
            r.1.deep_view() == coords_args(self.package, self.level, self.role, self.platform, self.site),
    {
        let query_str = String::from_str("SELECT 
            versionpin_id, 
            distribution, 
            level_name, 
            role_name, 
            site_name, 
            platform_name,
            withs
        FROM find_distribution_and_withs(
            $1, 
            role => $2, 
            platform => $3, 
            level=>$4, 
            site => $5)");
        let args = coords_args_vec(self.package, self.level, self.role, self.platform, self.site);
        (query_str, args)
    }

    /// The result of the search from the last row the query returned, as
    /// read: no row is `NoQueryResults`, a row that could not be read is
    /// its error.
    pub fn from_last_row(last: Option<Result<FindVersionPinsRow, FindVersionPinsError>>) -> (r: Result<
        FindVersionPinsRow,
        FindVersionPinError,
    >)
        ensures
            match last {
                None => r matches Err(FindVersionPinError::NoQueryResults),
                Some(Ok(row)) => r == Ok::<FindVersionPinsRow, FindVersionPinError>(row),
                Some(Err(e)) => r matches Err(FindVersionPinError::FindVersionPinsRowError { source }) && source == e,
            },
    {
        match last {
            None => Err(FindVersionPinError::NoQueryResults),
            Some(Ok(row)) => Ok(row),
            Some(Err(e)) => Err(FindVersionPinError::FindVersionPinsRowError { source: e }),
        }
    }
}

} // verus!
