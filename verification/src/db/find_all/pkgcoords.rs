//! Search for package coordinates: where packages have been pinned.
use crate::coords_error::CoordsError;
use crate::db::search_attribute::{search_text, LtreeSearchMode, ParseError, SearchMode};
use crate::db::utils::{axis_text, axis_value, prep_query_str, prepped_value};
use crate::text::{
    ends_with, has_adjacent, has_char, has_char_adjacent, join, join_with, split_char, split_on,
    str_eq,
};
use crate::types::IdType;
use vstd::prelude::*;

verus! {

/// The columns that package coordinates may be ordered by.
#[derive(Debug, PartialEq, Eq, PartialOrd, Ord, Clone, Copy, Structural)]
pub enum OrderPkgCoordsBy {
    Package,
    Role,
    Level,
    Platform,
    Site,
}

/// The OrderPkgCoordsBy that a name stands for, or `None` for a name that stands
/// for none.
pub open spec fn parse_order_pkg_coords_by(s: Seq<char>) -> Option<OrderPkgCoordsBy> {
    if s == "package"@ || s == "Package"@ || s == "PACKAGE"@ {
        Some(OrderPkgCoordsBy::Package)
    } else if s == "role"@ || s == "Role"@ || s == "ROLE"@ {
        Some(OrderPkgCoordsBy::Role)
    } else if s == "level"@ || s == "Level"@ || s == "LEVEL"@ {
        Some(OrderPkgCoordsBy::Level)
    } else if s == "platform"@ || s == "Platform"@ || s == "PLATFORM"@ {
        Some(OrderPkgCoordsBy::Platform)
    } else if s == "site"@ || s == "Site"@ || s == "SITE"@ {
        Some(OrderPkgCoordsBy::Site)
    } else {
        None
    }
}

/// The name of a OrderPkgCoordsBy, as it is displayed.
pub open spec fn order_pkg_coords_by_text(x: OrderPkgCoordsBy) -> Seq<char> {
    match x {
        OrderPkgCoordsBy::Package => "package"@,
        OrderPkgCoordsBy::Role => "role"@,
        OrderPkgCoordsBy::Level => "level"@,
        OrderPkgCoordsBy::Platform => "platform"@,
        OrderPkgCoordsBy::Site => "site"@,
    }
}

/// Parsing the displayed name of a OrderPkgCoordsBy gives it back.
pub proof fn lemma_order_pkg_coords_by_round_trip(x: OrderPkgCoordsBy)
    ensures
        parse_order_pkg_coords_by(order_pkg_coords_by_text(x)) == Some(x),
{
    match x {
        OrderPkgCoordsBy::Package => {
            reveal_strlit("package");
        },
        OrderPkgCoordsBy::Role => {
            reveal_strlit("role");
            reveal_strlit("package");
            assert("role"@.len() != "package"@.len());
            reveal_strlit("Package");
            assert("role"@.len() != "Package"@.len());
            reveal_strlit("PACKAGE");
            assert("role"@.len() != "PACKAGE"@.len());
        },
        OrderPkgCoordsBy::Level => {
            reveal_strlit("level");
            reveal_strlit("package");
            assert("level"@.len() != "package"@.len());
            reveal_strlit("Package");
            assert("level"@.len() != "Package"@.len());
            reveal_strlit("PACKAGE");
            assert("level"@.len() != "PACKAGE"@.len());
            reveal_strlit("role");
            assert("level"@.len() != "role"@.len());
            reveal_strlit("Role");
            assert("level"@.len() != "Role"@.len());
            reveal_strlit("ROLE");
            assert("level"@.len() != "ROLE"@.len());
        },
        OrderPkgCoordsBy::Platform => {
            reveal_strlit("platform");
            reveal_strlit("package");
            assert("platform"@.len() != "package"@.len());
            reveal_strlit("Package");
            assert("platform"@.len() != "Package"@.len());
            reveal_strlit("PACKAGE");
            assert("platform"@.len() != "PACKAGE"@.len());
            reveal_strlit("role");
            assert("platform"@.len() != "role"@.len());
            reveal_strlit("Role");
            assert("platform"@.len() != "Role"@.len());
            reveal_strlit("ROLE");
            assert("platform"@.len() != "ROLE"@.len());
            reveal_strlit("level");
            assert("platform"@.len() != "level"@.len());
            reveal_strlit("Level");
            assert("platform"@.len() != "Level"@.len());
            reveal_strlit("LEVEL");
            assert("platform"@.len() != "LEVEL"@.len());
        },
        OrderPkgCoordsBy::Site => {
            reveal_strlit("site");
            reveal_strlit("package");
            assert("site"@.len() != "package"@.len());
            reveal_strlit("Package");
            assert("site"@.len() != "Package"@.len());
            reveal_strlit("PACKAGE");
            assert("site"@.len() != "PACKAGE"@.len());
            reveal_strlit("role");
            assert("site"@[0] != "role"@[0]);
            reveal_strlit("Role");
            assert("site"@[0] != "Role"@[0]);
            reveal_strlit("ROLE");
            assert("site"@[0] != "ROLE"@[0]);
            reveal_strlit("level");
            assert("site"@.len() != "level"@.len());
            reveal_strlit("Level");
            assert("site"@.len() != "Level"@.len());
            reveal_strlit("LEVEL");
            assert("site"@.len() != "LEVEL"@.len());
            reveal_strlit("platform");
            assert("site"@.len() != "platform"@.len());
            reveal_strlit("Platform");
            assert("site"@.len() != "Platform"@.len());
            reveal_strlit("PLATFORM");
            assert("site"@.len() != "PLATFORM"@.len());
        },
    }
}

impl OrderPkgCoordsBy {
    /// The OrderPkgCoordsBy named by `s`.
    pub fn from_str(s: &str) -> (r: Result<OrderPkgCoordsBy, ParseError>)
        ensures
            match r {
                Ok(x) => parse_order_pkg_coords_by(s@) == Some(x),
                Err(_) => parse_order_pkg_coords_by(s@) is None,
            },
    {
        if str_eq(s, "package") || str_eq(s, "Package") || str_eq(s, "PACKAGE") {
            return Ok(OrderPkgCoordsBy::Package);
        }
        if str_eq(s, "role") || str_eq(s, "Role") || str_eq(s, "ROLE") {
            return Ok(OrderPkgCoordsBy::Role);
        }
        if str_eq(s, "level") || str_eq(s, "Level") || str_eq(s, "LEVEL") {
            return Ok(OrderPkgCoordsBy::Level);
        }
        if str_eq(s, "platform") || str_eq(s, "Platform") || str_eq(s, "PLATFORM") {
            return Ok(OrderPkgCoordsBy::Platform);
        }
        if str_eq(s, "site") || str_eq(s, "Site") || str_eq(s, "SITE") {
            return Ok(OrderPkgCoordsBy::Site);
        }
        Err(ParseError::VariantNotFound)
    }

    /// The name, as it is displayed.
    pub fn as_str(&self) -> (r: &'static str)
        ensures
            r@ == order_pkg_coords_by_text(*self),
    {
        match self {
            OrderPkgCoordsBy::Package => "package",
            OrderPkgCoordsBy::Role => "role",
            OrderPkgCoordsBy::Level => "level",
            OrderPkgCoordsBy::Platform => "platform",
            OrderPkgCoordsBy::Site => "site",
        }
    }

    /// The name, as it is displayed.
    pub fn to_string(&self) -> (r: String)
        ensures
            r@ == order_pkg_coords_by_text(*self),
    {
        String::from_str(self.as_str())
    }
}
/// Errors of a package coordinates search.
#[derive(Debug)]
#[allow(inconsistent_fields)]
pub enum FindAllPkgCoordsError {
    /// A distribution could not be made.
    DistributionNewError { msg: String, source: CoordsError },
    /// Coordinates could not be made.
    CoordsTryFromPartsError { coords: String, source: CoordsError },
    /// The search has no database connection.
    NoClientError,
    /// The database refused the query.
    TokioPostgresError { msg: &'static str, source: tokio_postgres::Error },
}

/// A row of a package coordinates search.
#[derive(Debug, PartialEq, Eq)]
pub struct FindAllPkgCoordsRow {
    /// The id of the row in the pkgcoord table.
    pub id: IdType,
    pub package: String,
    pub level: String,
    pub role: String,
    pub platform: String,
    pub site: String,
}

/// Whether a row holds the given id and names.
pub open spec fn pkgcoords_row_holds(
    r: FindAllPkgCoordsRow,
    id: IdType,
    package: Seq<char>,
    level: Seq<char>,
    role: Seq<char>,
    platform: Seq<char>,
    site: Seq<char>,
) -> bool {
    &&& r.id == id
    &&& r.package@ == package
    &&& r.level@ == level
    &&& r.role@ == role
    &&& r.platform@ == platform
    &&& r.site@ == site
}

impl FindAllPkgCoordsRow {
    /// A row of the given id and names.
    pub fn new(
        id: IdType,
        package: &str,
        level: &str,
        role: &str,
        platform: &str,
        site: &str,
    ) -> (r: FindAllPkgCoordsRow)
        ensures
            pkgcoords_row_holds(r, id, package@, level@, role@, platform@, site@),
    {
        FindAllPkgCoordsRow {
            id,
            package: String::from_str(package),
            level: String::from_str(level),
            role: String::from_str(role),
            platform: String::from_str(platform),
            site: String::from_str(site),
        }
    }

    /// A row of the given id and names; this never fails.
    pub fn try_from_parts(
        id: IdType,
        package: &str,
        level: &str,
        role: &str,
        platform: &str,
        site: &str,
    ) -> (r: Result<FindAllPkgCoordsRow, FindAllPkgCoordsError>)
        ensures
            r matches Ok(row) && pkgcoords_row_holds(row, id, package@, level@, role@, platform@, site@),
    {
        Ok(Self::new(id, package, level, role, platform, site))
    }

    /// A row of the given id and names.
    pub fn from_parts(
        id: IdType,
        package: &str,
        level: &str,
        role: &str,
        platform: &str,
        site: &str,
    ) -> (r: FindAllPkgCoordsRow)
        ensures
            pkgcoords_row_holds(r, id, package@, level@, role@, platform@, site@),
    {
        Self::new(id, package, level, role, platform, site)
    }

    /// The row as it is displayed: `package (level role platform site)`.
    pub fn to_string(&self) -> (r: String)
        ensures
            r@ == self.package@ + " ("@ + self.level@ + " "@ + self.role@ + " "@ + self.platform@
                + " "@ + self.site@ + ")"@,
    {
        let mut s = self.package.clone();
        s.append(" (");
        s.append(self.level.as_str());
        s.append(" ");
        s.append(self.role.as_str());
        s.append(" ");
        s.append(self.platform.as_str());
        s.append(" ");
        s.append(self.site.as_str());
        s.append(")");
        s
    }
}

/// A search for package coordinates, set up step by step.
pub struct FindAllPkgCoords<'a> {
    /// The database connection the search runs on, if any.
    pub client: Option<&'a mut tokio_postgres::Client>,
    pub package: Option<&'a str>,
    pub level: Option<&'a str>,
    pub role: Option<&'a str>,
    pub platform: Option<&'a str>,
    pub site: Option<&'a str>,
    pub search_mode: SearchMode,
    pub order_by: Option<Vec<OrderPkgCoordsBy>>,
}

/// The order columns named in a comma separated list; names that stand for
/// no column are left out.
pub open spec fn parse_orders(names: Seq<Seq<char>>) -> Seq<OrderPkgCoordsBy>
    decreases names.len(),
{
    if names.len() == 0 {
        Seq::empty()
    } else {
        let rest = parse_orders(names.drop_last());
        match parse_order_pkg_coords_by(names.last()) {
            Some(o) => rest.push(o),
            None => rest,
        }
    }
}

/// The columns to order by, from a comma separated list of names.
fn orders_from(order: &str) -> (r: Vec<OrderPkgCoordsBy>)
    ensures
        r@ == parse_orders(split_char(order@, ',')),
{
    let names = split_on(order, ',');
    let mut orders: Vec<OrderPkgCoordsBy> = Vec::new();
    let mut i: usize = 0;
    while i < names.len()
        invariant
            i <= names.len(),
            names.deep_view() == split_char(order@, ','),
            orders@ == parse_orders(names.deep_view().take(i as int)),
        decreases names.len() - i,
    {
        assert(names.deep_view().take(i as int + 1).drop_last() =~= names.deep_view().take(
            i as int,
        ));
        match OrderPkgCoordsBy::from_str(names[i].as_str()) {
            Ok(value) => orders.push(value),
            Err(_) => {},
        }
        i = i + 1;
    }
    assert(names.deep_view().take(names.len() as int) =~= names.deep_view());
    orders
}

/// The fields of a search other than its connection and order.
pub open spec fn same_search(a: FindAllPkgCoords, b: FindAllPkgCoords) -> bool {
    &&& a.package == b.package
    &&& a.level == b.level
    &&& a.role == b.role
    &&& a.platform == b.platform
    &&& a.site == b.site
    &&& a.search_mode == b.search_mode
}

/// The select clause of the search.
pub open spec fn pkgcoords_select() -> Seq<char> {
    "SELECT \n\
     pkgcoord_id, \n\
     package, \n\
     level_name, \n\
     role_name, \n\
     platform_name, \n\
     site_name \n\
     FROM pkgcoord_view"@
}

/// The mode a coordinate is compared by: LIKE for a value holding `%`, else
/// the search's mode.
pub open spec fn clause_mode(value: Seq<char>, mode: SearchMode) -> SearchMode {
    if value.contains('%') {
        SearchMode::Like
    } else {
        mode
    }
}

/// The comparison of one coordinate with parameter `n`: by name (`like_var`)
/// when compared with LIKE, else by path (`var`).
pub open spec fn coord_clause(
    value: Seq<char>,
    mode: SearchMode,
    like_var: Seq<char>,
    var: Seq<char>,
    n: int,
) -> Seq<char> {
    let sm = clause_mode(value, mode);
    search_text(
        if sm == SearchMode::Like {
            like_var
        } else {
            var
        },
        sm,
        n,
    )
}

/// The mode the package is compared by: LIKE when it holds `%s`, else `=`.
pub open spec fn package_mode(p: Seq<char>) -> SearchMode {
    if has_adjacent(p, '%', 's') {
        SearchMode::Like
    } else {
        SearchMode::Equal
    }
}

/// The comparison of the package, when there is one.
pub open spec fn package_clause(package: Option<&str>) -> Seq<char> {
    match package {
        Some(p) => search_text(
            if package_mode(p@) == SearchMode::Like {
                "package_name"@
            } else {
                "package"@
            },
            package_mode(p@),
            1,
        ),
        None => Seq::empty(),
    }
}

/// The ORDER BY clause, when an order is set.
pub open spec fn pkgcoords_order(order_by: Option<Vec<OrderPkgCoordsBy>>) -> Seq<char> {
    match order_by {
        Some(v) => " ORDER BY "@ + join(
            v@.map_values(|o: OrderPkgCoordsBy| order_pkg_coords_by_text(o)),
            ","@,
        ),
        None => Seq::empty(),
    }
}

/// The query text of a search.
pub open spec fn pkgcoords_query(f: FindAllPkgCoords) -> Seq<char> {
    let n: int = if f.package is Some {
        2
    } else {
        1
    };
    pkgcoords_select() + package_clause(f.package) + coord_clause(
        axis_value(f.level, "facility"@, false),
        f.search_mode,
        "level_name"@,
        "level"@,
        n,
    ) + coord_clause(axis_value(f.role, "any"@, true), f.search_mode, "role_name"@, "role"@, n + 1)
        + coord_clause(
        axis_value(f.platform, "any"@, false),
        f.search_mode,
        "platform_name"@,
        "platform"@,
        n + 2,
    ) + coord_clause(axis_value(f.site, "any"@, false), f.search_mode, "site_name"@, "site"@, n + 3)
        + pkgcoords_order(f.order_by)
}

/// A package coordinate search with an order ends its query with
/// ` ORDER BY ` and the names of the ordering columns, in the order given,
/// joined by commas.
pub proof fn law_pkgcoords_ordered(f: FindAllPkgCoords)
    requires
        f.order_by is Some,
    ensures
        ends_with(
            pkgcoords_query(f),
            " ORDER BY "@ + join(
                f.order_by.unwrap()@.map_values(|o: OrderPkgCoordsBy| order_pkg_coords_by_text(o)),
                ","@,
            ),
        ),
{
    let q = pkgcoords_query(f);
    let t = " ORDER BY "@ + join(
        f.order_by.unwrap()@.map_values(|o: OrderPkgCoordsBy| order_pkg_coords_by_text(o)),
        ","@,
    );
    assert(q.subrange(q.len() - t.len(), q.len() as int) =~= t);
}

/// The parameters of a search's query: the package when there is one, then
/// the level, role, platform and site values.
pub open spec fn pkgcoords_params(f: FindAllPkgCoords) -> Seq<Seq<char>> {
    (match f.package {
        Some(p) => seq![p@],
        None => Seq::empty(),
    }) + seq![
        axis_value(f.level, "facility"@, false),
        axis_value(f.role, "any"@, true),
        axis_value(f.platform, "any"@, false),
        axis_value(f.site, "any"@, false),
    ]
}

/// The comparison of one coordinate with parameter `n`.
fn coord_clause_text(value: &str, mode: &SearchMode, like_var: &str, var: &str, n: i32) -> (r:
    String)
    ensures
        r@ == coord_clause(value@, *mode, like_var@, var@, n as int),
{
    let sm = if has_char(value, '%') {
        SearchMode::Like
    } else {
        *mode
    };
    let search_var = if sm == SearchMode::Like {
        like_var
    } else {
        var
    };
    SearchMode::search_string(search_var, &sm, n)
}

impl<'a> FindAllPkgCoords<'a> {
    /// A search that runs on `client`, with nothing set and comparing by
    /// ancestor.
    pub fn new(client: Option<&'a mut tokio_postgres::Client>) -> (r: FindAllPkgCoords<'a>)
        ensures
            r.client is Some <==> client is Some,
            r.package is None,
            r.level is None,
            r.role is None,
            r.platform is None,
            r.site is None,
            r.search_mode == SearchMode::Ltree(LtreeSearchMode::Ancestor),
            r.order_by is None,
    {
        FindAllPkgCoords {
            client,
            package: None,
            level: None,
            role: None,
            platform: None,
            site: None,
            search_mode: SearchMode::Ltree(LtreeSearchMode::Ancestor),
            order_by: None,
        }
    }

    /// Set the package name.
    pub fn package(&mut self, package_n: &'a str) -> (r: &mut Self)
        ensures
            r.package == Some(package_n),
            same_search(*r, FindAllPkgCoords { package: Some(package_n), ..*old(self) }),
            r.order_by == old(self).order_by,
            *final(self) == *final(r),
    {
        self.package = Some(package_n);
        self
    }

    /// Set the level.
    pub fn level(&mut self, level_n: &'a str) -> (r: &mut Self)
        ensures
            same_search(*r, FindAllPkgCoords { level: Some(level_n), ..*old(self) }),
            r.order_by == old(self).order_by,
            *final(self) == *final(r),
    {
        self.level = Some(level_n);
        self
    }

    /// Set the role.
    pub fn role(&mut self, role_n: &'a str) -> (r: &mut Self)
        ensures
            same_search(*r, FindAllPkgCoords { role: Some(role_n), ..*old(self) }),
            r.order_by == old(self).order_by,
            *final(self) == *final(r),
    {
        self.role = Some(role_n);
        self
    }

    /// Set the platform.
    pub fn platform(&mut self, platform_n: &'a str) -> (r: &mut Self)
        ensures
            same_search(*r, FindAllPkgCoords { platform: Some(platform_n), ..*old(self) }),
            r.order_by == old(self).order_by,
            *final(self) == *final(r),
    {
        self.platform = Some(platform_n);
        self
    }

    /// Set the site.
    pub fn site(&mut self, site_n: &'a str) -> (r: &mut Self)
        ensures
            same_search(*r, FindAllPkgCoords { site: Some(site_n), ..*old(self) }),
            r.order_by == old(self).order_by,
            *final(self) == *final(r),
    {
        self.site = Some(site_n);
        self
    }

    /// Set the search mode.
    pub fn search_mode(&mut self, mode: SearchMode) -> (r: &mut Self)
        ensures
            same_search(*r, FindAllPkgCoords { search_mode: mode, ..*old(self) }),
            r.order_by == old(self).order_by,
            *final(self) == *final(r),
    {
        self.search_mode = mode;
        self
    }

    /// Set the columns to order by from a comma separated list of names;
    /// names that stand for no column are left out.
    pub fn order_by(&mut self, order: &'a str) -> (r: &mut Self)
        ensures
            same_search(*r, *old(self)),
            r.order_by matches Some(v) && v@ == parse_orders(split_char(order@, ',')),
            *final(self) == *final(r),
    {
        self.order_by = Some(orders_from(order));
        self
    }

    /// Set or clear the package name.
    pub fn package_opt(&mut self, package_n: Option<&'a str>) -> (r: &mut Self)
        ensures
            same_search(*r, FindAllPkgCoords { package: package_n, ..*old(self) }),
            r.order_by == old(self).order_by,
            *final(self) == *final(r),
    {
        self.package = package_n;
        self
    }

    /// Set or clear the level.
    pub fn level_opt(&mut self, level_n: Option<&'a str>) -> (r: &mut Self)
        ensures
            same_search(*r, FindAllPkgCoords { level: level_n, ..*old(self) }),
            r.order_by == old(self).order_by,
            *final(self) == *final(r),
    {
        self.level = level_n;
        self
    }

    /// Set or clear the role.
    pub fn role_opt(&mut self, role_n: Option<&'a str>) -> (r: &mut Self)
        ensures
            same_search(*r, FindAllPkgCoords { role: role_n, ..*old(self) }),
            r.order_by == old(self).order_by,
            *final(self) == *final(r),
    {
        self.role = role_n;
        self
    }

    /// Set or clear the platform.
    pub fn platform_opt(&mut self, platform_n: Option<&'a str>) -> (r: &mut Self)
        ensures
            same_search(*r, FindAllPkgCoords { platform: platform_n, ..*old(self) }),
            r.order_by == old(self).order_by,
            *final(self) == *final(r),
    {
        self.platform = platform_n;
        self
    }

    /// Set or clear the site.
    pub fn site_opt(&mut self, site_n: Option<&'a str>) -> (r: &mut Self)
        ensures
            same_search(*r, FindAllPkgCoords { site: site_n, ..*old(self) }),
            r.order_by == old(self).order_by,
            *final(self) == *final(r),
    {
        self.site = site_n;
        self
    }

    /// Set the columns to order by from a comma separated list of names, or
    /// clear the order.
    pub fn order_by_opt(&mut self, order: Option<&'a str>) -> (r: &mut Self)
        ensures
            same_search(*r, *old(self)),
            match order {
                Some(o) => r.order_by matches Some(v) && v@ == parse_orders(split_char(o@, ',')),
                None => r.order_by is None,
            },
            *final(self) == *final(r),
    {
        match order {
            Some(o) => {
                self.order_by = Some(orders_from(o));
            },
            None => {
                self.order_by = None;
            },
        }
        self
    }

    /// Prepare a coordinate value for a search below `default`.
    fn prep_query_str(default: &str, value: &str, substitute: bool) -> (r: String)
        ensures
            r@ == prepped_value(default@, value@, substitute),
    {
        prep_query_str(default, value, substitute)
    }

    /// The query text and its parameters.
    pub fn get_query_str(&mut self) -> (r: (String, Vec<String>))
        ensures
            r.0@ == pkgcoords_query(*old(self)),
            r.1.deep_view() == pkgcoords_params(*old(self)),
            *final(self) == *old(self),
            old(self).order_by matches Some(v) ==> ends_with(
                r.0@,
                " ORDER BY "@ + join(
                    v@.map_values(|o: OrderPkgCoordsBy| order_pkg_coords_by_text(o)),
                    ","@,
                ),
            ),
    {
        let level = axis_text(self.level, "facility", false);
        let role = axis_text(self.role, "any", true);
        let platform = axis_text(self.platform, "any", false);
        let site = axis_text(self.site, "any", false);
        let mut prepared: Vec<String> = Vec::new();
        let mut query_str = String::from_str(
            "SELECT \n\
             pkgcoord_id, \n\
             package, \n\
             level_name, \n\
             role_name, \n\
             platform_name, \n\
             site_name \n\
             FROM pkgcoord_view",
        );
        let mut cnt: i32 = 1;
        match self.package {
            Some(package) => {
                let sm = if has_char_adjacent(package, '%', 's') {
                    SearchMode::Like
                } else {
                    SearchMode::Equal
                };
                let search_var = if sm == SearchMode::Like {
                    "package_name"
                } else {
                    "package"
                };
                let clause = SearchMode::search_string(search_var, &sm, cnt);
                query_str.append(clause.as_str());
                cnt = cnt + 1;
                prepared.push(String::from_str(package));
            },
            None => {},
        }
        let c = coord_clause_text(level.as_str(), &self.search_mode, "level_name", "level", cnt);
        query_str.append(c.as_str());
        let c = coord_clause_text(role.as_str(), &self.search_mode, "role_name", "role", cnt + 1);
        query_str.append(c.as_str());
        let c = coord_clause_text(
            platform.as_str(),
            &self.search_mode,
            "platform_name",
            "platform",
            cnt + 2,
        );
        query_str.append(c.as_str());
        let c = coord_clause_text(site.as_str(), &self.search_mode, "site_name", "site", cnt + 3);
        query_str.append(c.as_str());
        prepared.push(level);
        prepared.push(role);
        prepared.push(platform);
        prepared.push(site);
        match &self.order_by {
            Some(order) => {
                let mut names: Vec<String> = Vec::new();
                let mut i: usize = 0;
                while i < order.len()
                    invariant
                        i <= order.len(),
                        names.len() == i,
                        forall|j: int|
                            0 <= j < i ==> #[trigger] names@[j]@ == order_pkg_coords_by_text(
                                order@[j],
                            ),
                    decreases order.len() - i,
                {
                    names.push(order[i].to_string());
                    i = i + 1;
                }
                assert(names.deep_view() =~= order@.map_values(
                    |o: OrderPkgCoordsBy| order_pkg_coords_by_text(o),
                ));
                let joined = join_with(&names, ",");
                query_str.append(" ORDER BY ");
                query_str.append(joined.as_str());
            },
            None => {},
        }
        assert(prepared.deep_view() =~= pkgcoords_params(*self));
        proof {
            assert(query_str@ == pkgcoords_query(*self));
            if self.order_by is Some {
                law_pkgcoords_ordered(*self);
            }
        }
        (query_str, prepared)
    }
}

} // verus!
