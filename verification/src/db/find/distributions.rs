//! Search for the distributions of a package pinned at given coordinates.
use crate::coords::{
    coords_accepted, coords_error_matches, coords_from_names, coords_text, describe_parts, parts_text, Coords,
};
use crate::coords_error::CoordsError;
use crate::db::find::search_args::{coords_args, coords_args_vec};
use crate::distribution::{distribution_problem, Distribution};
use crate::level::LevelSpec;
use crate::types::IdType;
use vstd::prelude::*;

verus! {

/// Errors of a distribution search.
#[derive(Debug)]
pub enum FindDistributionsError {
    /// The distribution of a row breaks the naming rules.
    DistributionInitError { msg: String, source: CoordsError },
    /// The names of a row do not make coordinates; `coords` shows them.
    CoordsTryFromPartsError { coords: String, source: CoordsError },
}

/// A row of a distribution search: a version pin, its distribution and its
/// coordinates.
#[derive(Debug)]
pub struct FindDistributionsRow {
    pub versionpin_id: IdType,
    pub distribution: Distribution,
    pub coords: Coords,
}

impl FindDistributionsRow {
    /// A row of the given values.
    pub fn new(versionpin_id: IdType, distribution: Distribution, coords: Coords) -> (r:
        FindDistributionsRow)
        ensures
            r == (FindDistributionsRow { versionpin_id, distribution, coords }),
    {
        FindDistributionsRow { versionpin_id, distribution, coords }
    }

    /// A row from the values a query returned: the distribution must keep
    /// the naming rules and the names must make coordinates; `parsed` is
    /// what levelspec made of the level name.
    pub fn try_from_parts(
        id: IdType,
        distribution: &str,
        level: &str,
        parsed: Option<LevelSpec>,
        role: &str,
        platform: &str,
        site: &str,
    ) -> (r: Result<FindDistributionsRow, FindDistributionsError>)
        ensures
            r is Ok <==> distribution_problem(distribution@) is None && coords_accepted(
                level@,
                parsed,
                role@,
                platform@,
                site@,
            ),
            r matches Ok(row) ==> row.versionpin_id == id && row.distribution@ == distribution@
                && coords_from_names(row.coords, level@, parsed, role@, platform@, site@),
            r matches Err(FindDistributionsError::DistributionInitError { msg, source }) ==> msg@ == distribution@
                && distribution_problem(distribution@) is Some,
            r matches Err(FindDistributionsError::CoordsTryFromPartsError { coords, source }) ==> distribution_problem(
                distribution@,
            ) is None && coords@ == parts_text(level@, role@, platform@, site@)
                && coords_error_matches(source, level@, parsed, role@, platform@, site@),
    {
        let new_distribution = match Distribution::new(distribution) {
            Ok(d) => d,
            Err(source) => {
                return Err(FindDistributionsError::DistributionInitError { msg: String::from_str(distribution), source });
            },
        };
        let coords = match Coords::try_from_parts(level, parsed, role, platform, site) {
            Ok(c) => c,
            Err(source) => {
                return Err(
                    FindDistributionsError::CoordsTryFromPartsError {
                        coords: describe_parts(level, role, platform, site),
                        source,
                    },
                );
            },
        };
        Ok(Self::new(id, new_distribution, coords))
    }

    /// A row from names that make coordinates; the distribution is taken as
    /// it is.
    pub fn from_parts(
        id: IdType,
        distribution: &str,
        level: &str,
        parsed: Option<LevelSpec>,
        role: &str,
        platform: &str,
        site: &str,
    ) -> (r: FindDistributionsRow)
        requires
            coords_accepted(level@, parsed, role@, platform@, site@),
        ensures
            r.versionpin_id == id && r.distribution@ == distribution@ && coords_from_names(
                r.coords,
                level@,
                parsed,
                role@,
                platform@,
                site@,
            ),
    {
        let distribution = Distribution::new_unchecked(distribution);
        let coords = match Coords::try_from_parts(level, parsed, role, platform, site) {
            Ok(c) => c,
            Err(_) => Coords::new().build(),
        };
        Self::new(id, distribution, coords)
    }

    /// The row as it is displayed: the distribution and the coordinates.
    pub fn to_string(&self) -> (r: String)
        ensures
            r@ == self.distribution@ + " "@ + coords_text(self.coords),
    {
        let mut s = self.distribution.to_string();
        s.append(" ");
        s.append(self.coords.to_string().as_str());
        s
    }
}

/// A search for distributions.
pub struct FindDistributions<'a> {
    /// The database connection the search runs on.
    pub client: &'a mut postgres::Client,
    pub package: &'a str,
    pub level: Option<&'a str>,
    pub role: Option<&'a str>,
    pub platform: Option<&'a str>,
    pub site: Option<&'a str>,
}

/// The fields of a search other than its connection.
pub open spec fn same_distributions_search(a: FindDistributions, b: FindDistributions) -> bool {
    &&& a.package == b.package
    &&& a.level == b.level
    &&& a.role == b.role
    &&& a.platform == b.platform
    &&& a.site == b.site
}

impl<'a> FindDistributions<'a> {
    /// A search for the distributions of `package` on `client`, at the
    /// facility and any role, platform and site.
    pub fn new(client: &'a mut postgres::Client, package: &'a str) -> (r: Self)
        ensures
            r.package == package,
            r.level is None,
            r.role is None,
            r.platform is None,
            r.site is None,
    {
        FindDistributions {
            client, package,
            level: None,
            role: None,
            platform: None,
            site: None,
        }
    }

    /// Set the level.
    pub fn level(&mut self, level_n: &'a str) -> (r: &mut Self)
        ensures
            same_distributions_search(*r, FindDistributions { level: Some(level_n), ..*old(self) }),
            *final(self) == *final(r),
    {
        self.level = Some(level_n);
        self
    }

    /// Set the role.
    pub fn role(&mut self, role_n: &'a str) -> (r: &mut Self)
        ensures
            same_distributions_search(*r, FindDistributions { role: Some(role_n), ..*old(self) }),
            *final(self) == *final(r),
    {
        self.role = Some(role_n);
        self
    }

    /// Set the platform.
    pub fn platform(&mut self, platform_n: &'a str) -> (r: &mut Self)
        ensures
            same_distributions_search(*r, FindDistributions { platform: Some(platform_n), ..*old(self) }),
            *final(self) == *final(r),
    {
        self.platform = Some(platform_n);
        self
    }

    /// Set the site.
    pub fn site(&mut self, site_n: &'a str) -> (r: &mut Self)
        ensures
            same_distributions_search(*r, FindDistributions { site: Some(site_n), ..*old(self) }),
            *final(self) == *final(r),
    {
        self.site = Some(site_n);
        self
    }

    /// The query text and its parameters: the package, then role,
    /// platform, level and site (defaulting to `any` and the facility).
    pub fn get_query_str(&self) -> (r: (String, Vec<String>))
        ensures
            r.0@ == "SELECT versionpin_id, 
                    distribution, 
                    level_name, 
                    role_name, 
                    site_name, 
                    platform_name
            FROM search_distributions(
                $1, 
                role => $2, 
                platform => $3, 
                level=>$4, 
                site => $5)"@,
            r.1.deep_view() == coords_args(self.package, self.level, self.role, self.platform, self.site),
    {
        let mut query_str = String::from_str("SELECT versionpin_id, 
                    distribution, 
                    level_name, 
                    role_name, 
                    site_name, 
                    platform_name
            FROM search_distributions(
                $1, 
                role => $2, 
                platform => $3, 
                level=>$4, 
                site => $5)");
        let args = coords_args_vec(self.package, self.level, self.role, self.platform, self.site);
        (query_str, args)
    }
}

} // verus!
