//! Search for the packages that go with a package at given coordinates.
use crate::coords::{
    coords_accepted, coords_error_matches, coords_from_names, coords_text, describe_parts, parts_text, Coords,
};
use crate::coords_error::CoordsError;
use crate::db::find::search_args::{
    coords_args, coords_args_vec, find_order, find_order_text, no_unknown_order,
};
use crate::db::search_attribute::{OrderDirection, SearchAttribute};
use crate::distribution::{distribution_problem, Distribution};
use crate::level::LevelSpec;
use crate::text::{i32_text, int_text};
use crate::types::IdType;
use vstd::prelude::*;

verus! {

/// Errors of a package search.
#[allow(inconsistent_fields)]
#[derive(Debug)]
pub enum FindWithsError {
    /// The distribution of a row breaks the naming rules.
    DistributionNewError { msg: String, source: CoordsError },
    /// The names of a row do not make coordinates; `coords` shows them.
    CoordsTryFromPartsError { coords: String, source: CoordsError },
    /// The database refused the query.
    TokioPostgresError { msg: &'static str, source: tokio_postgres::Error },
}

/// A row of a package search: a version pin, its distribution and its
/// coordinates.
#[derive(Debug)]
pub struct FindWithsRow {
    pub versionpin_id: IdType,
    pub distribution: Distribution,
    pub coords: Coords,
}

impl FindWithsRow {
    /// A row of the given values.
    pub fn new(versionpin_id: IdType, distribution: Distribution, coords: Coords) -> (r:
        FindWithsRow)
        ensures
            r == (FindWithsRow { versionpin_id, distribution, coords }),
    {
        FindWithsRow { versionpin_id, distribution, coords }
    }

    /// A row from the values a query returned: the distribution must keep
    /// the naming rules and the names must make coordinates; `parsed` is
    /// what levelspec made of the level name.
    pub fn try_from_parts(
        id: IdType,
        distribution: &str,
        level: &str,
        parsed: Option<LevelSpec>,
        role: &str,
        platform: &str,
        site: &str,
    ) -> (r: Result<FindWithsRow, FindWithsError>)
        ensures
            r is Ok <==> distribution_problem(distribution@) is None && coords_accepted(
                level@,
                parsed,
                role@,
                platform@,
                site@,
            ),
            r matches Ok(row) ==> row.versionpin_id == id && row.distribution@ == distribution@
                && coords_from_names(row.coords, level@, parsed, role@, platform@, site@),
            r matches Err(FindWithsError::DistributionNewError { msg, source }) ==> msg@ == distribution@
                && distribution_problem(distribution@) is Some,
            r matches Err(FindWithsError::CoordsTryFromPartsError { coords, source }) ==> distribution_problem(
                distribution@,
            ) is None && coords@ == parts_text(level@, role@, platform@, site@)
                && coords_error_matches(source, level@, parsed, role@, platform@, site@),
    {
        let new_distribution = match Distribution::new(distribution) {
            Ok(d) => d,
            Err(source) => {
                return Err(FindWithsError::DistributionNewError { msg: String::from_str(distribution), source });
            },
        };
        let coords = match Coords::try_from_parts(level, parsed, role, platform, site) {
            Ok(c) => c,
            Err(source) => {
                return Err(
                    FindWithsError::CoordsTryFromPartsError {
                        coords: describe_parts(level, role, platform, site),
                        source,
                    },
                );
            },
        };
        Ok(Self::new(id, new_distribution, coords))
    }

    /// A row from names that make coordinates; the distribution is taken as
    /// it is.
    pub fn from_parts(
        id: IdType,
        distribution: &str,
        level: &str,
        parsed: Option<LevelSpec>,
        role: &str,
        platform: &str,
        site: &str,
    ) -> (r: FindWithsRow)
        requires
            coords_accepted(level@, parsed, role@, platform@, site@),
        ensures
            r.versionpin_id == id && r.distribution@ == distribution@ && coords_from_names(
                r.coords,
                level@,
                parsed,
                role@,
                platform@,
                site@,
            ),
    {
        let distribution = Distribution::new_unchecked(distribution);
        let coords = match Coords::try_from_parts(level, parsed, role, platform, site) {
            Ok(c) => c,
            Err(_) => Coords::new().build(),
        };
        Self::new(id, distribution, coords)
    }

    /// The row as it is displayed: the version pin, the distribution and the coordinates.
    pub fn to_string(&self) -> (r: String)
        ensures
            r@ == int_text(self.versionpin_id as int) + " "@ + self.distribution@ + " "@ + coords_text(self.coords),
    {
        let mut s = i32_text(self.versionpin_id);
        s.append(" ");
        s.append(self.distribution.to_string().as_str());
        s.append(" ");
        s.append(self.coords.to_string().as_str());
        s
    }
}

/// A search for packages that go with a package.
pub struct FindWiths<'a> {
    /// The database connection the search runs on.
    pub client: &'a mut postgres::Client,
    pub package: &'a str,
    pub level: Option<&'a str>,
    pub role: Option<&'a str>,
    pub platform: Option<&'a str>,
    pub site: Option<&'a str>,
    pub order_by: Option<Vec<SearchAttribute>>,
    pub order_direction: Option<OrderDirection>,
}

/// The fields of a search other than its connection.
pub open spec fn same_withs_search(a: FindWiths, b: FindWiths) -> bool {
    &&& a.package == b.package
    &&& a.level == b.level
    &&& a.role == b.role
    &&& a.platform == b.platform
    &&& a.site == b.site
    &&& a.order_by == b.order_by
    &&& a.order_direction == b.order_direction
}

impl<'a> FindWiths<'a> {
    /// A search for the packages that go with `package` on `client`, at
    /// the facility and any role, platform and site.
    pub fn new(client: &'a mut postgres::Client, package: &'a str) -> (r: Self)
        ensures
            r.package == package,
            r.level is None,
            r.role is None,
            r.platform is None,
            r.site is None,
            r.order_by is None,
            r.order_direction is None,
    {
        FindWiths {
            client, package,
            level: None,
            role: None,
            platform: None,
            site: None,
            order_by: None,
            order_direction: None,
        }
    }

    /// Set the level.
    pub fn level(&mut self, level_n: &'a str) -> (r: &mut Self)
        ensures
            same_withs_search(*r, FindWiths { level: Some(level_n), ..*old(self) }),
            *final(self) == *final(r),
    {
        self.level = Some(level_n);
        self
    }

    /// Set the role.
    pub fn role(&mut self, role_n: &'a str) -> (r: &mut Self)
        ensures
            same_withs_search(*r, FindWiths { role: Some(role_n), ..*old(self) }),
            *final(self) == *final(r),
    {
        self.role = Some(role_n);
        self
    }

    /// Set the platform.
    pub fn platform(&mut self, platform_n: &'a str) -> (r: &mut Self)
        ensures
            same_withs_search(*r, FindWiths { platform: Some(platform_n), ..*old(self) }),
            *final(self) == *final(r),
    {
        self.platform = Some(platform_n);
        self
    }

    /// Set the site.
    pub fn site(&mut self, site_n: &'a str) -> (r: &mut Self)
        ensures
            same_withs_search(*r, FindWiths { site: Some(site_n), ..*old(self) }),
            *final(self) == *final(r),
    {
        self.site = Some(site_n);
        self
    }

    /// Set or clear the level.
    pub fn level_opt(&mut self, level_n: Option<&'a str>) -> (r: &mut Self)
        ensures
            same_withs_search(*r, FindWiths { level: level_n, ..*old(self) }),
            *final(self) == *final(r),
    {
        self.level = level_n;
        self
    }

    /// Set or clear the role.
    pub fn role_opt(&mut self, role_n: Option<&'a str>) -> (r: &mut Self)
        ensures
            same_withs_search(*r, FindWiths { role: role_n, ..*old(self) }),
            *final(self) == *final(r),
    {
        self.role = role_n;
        self
    }

    /// Set or clear the platform.
    pub fn platform_opt(&mut self, platform_n: Option<&'a str>) -> (r: &mut Self)
        ensures
            same_withs_search(*r, FindWiths { platform: platform_n, ..*old(self) }),
            *final(self) == *final(r),
    {
        self.platform = platform_n;
        self
    }

    /// Set or clear the site.
    pub fn site_opt(&mut self, site_n: Option<&'a str>) -> (r: &mut Self)
        ensures
            same_withs_search(*r, FindWiths { site: site_n, ..*old(self) }),
            *final(self) == *final(r),
    {
        self.site = site_n;
        self
    }

    /// Set or clear the attributes to order by.
    pub fn order_by_opt(&mut self, attributes: Option<Vec<SearchAttribute>>) -> (r: &mut Self)
        ensures
            same_withs_search(*r, FindWiths { order_by: attributes, ..*old(self) }),
            *final(self) == *final(r),
    {
        self.order_by = attributes;
        self
    }

    /// Set the direction to order in.
    pub fn order_direction(&mut self, direction: OrderDirection) -> (r: &mut Self)
        ensures
            same_withs_search(*r, FindWiths { order_direction: Some(direction), ..*old(self) }),
            *final(self) == *final(r),
    {
        self.order_direction = Some(direction);
        self
    }

    /// Set or clear the direction to order in.
    pub fn order_direction_opt(&mut self, direction: Option<OrderDirection>) -> (r: &mut Self)
        ensures
            same_withs_search(*r, FindWiths { order_direction: direction, ..*old(self) }),
            *final(self) == *final(r),
    {
        self.order_direction = direction;
        self
    }

    /// The query text and its parameters: the package, then role,
    /// platform, level and site (defaulting to `any` and the facility). Ordering by an unknown attribute is refused.
    pub fn get_query_str(&self) -> (r: (String, Vec<String>))
        requires
            no_unknown_order(self.order_by),
        ensures
            r.0@ == "SELECT 
                versionpin_id,
                distribution, 
                level_name, 
                role_name, 
                site_name, 
                platform_name
            FROM find_distribution_withs(
                $1,
                role => $2, 
                platform => $3, 
                level=> $4, 
                site => $5)"@ + find_order(self.order_by),
            r.1.deep_view() == coords_args(self.package, self.level, self.role, self.platform, self.site),
    {
        let mut query_str = String::from_str("SELECT 
                versionpin_id,
                distribution, 
                level_name, 
                role_name, 
                site_name, 
                platform_name
            FROM find_distribution_withs(
                $1,
                role => $2, 
                platform => $3, 
                level=> $4, 
                site => $5)");
        let o = find_order_text(&self.order_by);
        query_str.append(o.as_str());
        let args = coords_args_vec(self.package, self.level, self.role, self.platform, self.site);
        (query_str, args)
    }
}

} // verus!
