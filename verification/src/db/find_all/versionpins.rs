//! Search for version pins: which distribution of each package is pinned
//! at which coordinates.
use crate::coords::{
    coords_accepted, coords_error_matches, coords_from_names, coords_text, describe_parts,
    parts_text, Coords,
};
use crate::coords_error::CoordsError;
use crate::db::search_attribute::{
    ltree_search_mode_text, order_direction_text, LtreeSearchMode, OrderDirection,
    SearchAttribute,
};
use crate::db::find::search_args::{name_or, or_default, withs_text};
use crate::distribution::{distribution_problem, Distribution};
use crate::level::LevelSpec;
use crate::text::{
    decimal, has_infix, i32_text, int_text, join, join_with, push_decimal, str_eq,
};
use crate::types::IdType;
use vstd::prelude::*;

verus! {

/// The column a search attribute orders version pins by.
pub open spec fn pin_order_column(a: SearchAttribute) -> Seq<char> {
    match a {
        SearchAttribute::Level => "level_name"@,
        SearchAttribute::Platform => "platform_name"@,
        SearchAttribute::Role => "role_name"@,
        SearchAttribute::Site => "site_name"@,
        SearchAttribute::Package => "distribution"@,
        SearchAttribute::Unknown => "unknown"@,
    }
}

/// The column a search attribute orders version pins by.
fn match_attrib(search_by: &SearchAttribute) -> (r: &'static str)
    ensures
        r@ == pin_order_column(*search_by),
{
    match *search_by {
        SearchAttribute::Level => "level_name",
        SearchAttribute::Platform => "platform_name",
        SearchAttribute::Role => "role_name",
        SearchAttribute::Site => "site_name",
        SearchAttribute::Package => "distribution",
        SearchAttribute::Unknown => "unknown",
    }
}

/// Errors of a version pin search.
#[derive(Debug)]
pub enum FindAllVersionPinsError {
    /// A distribution could not be made.
    VersionPinNewError { msg: String, source: CoordsError },
    /// Coordinates could not be made; `coords` shows them.
    CoordsTryFromPartsError { coords: String, source: CoordsError },
}

/// A row of a version pin search.
#[derive(Debug)]
pub struct FindAllVersionPinsRow {
    pub versionpin_id: IdType,
    pub distribution_id: IdType,
    pub pkgcoord_id: IdType,
    pub distribution: Distribution,
    pub coords: Coords,
    pub withs: Option<Vec<String>>,
}


impl FindAllVersionPinsRow {
    /// A row of the given values.
    pub fn new(
        versionpin_id: IdType,
        distribution_id: IdType,
        pkgcoord_id: IdType,
        distribution: Distribution,
        coords: Coords,
        withs: Option<Vec<String>>,
    ) -> (r: FindAllVersionPinsRow)
        ensures
            r == (FindAllVersionPinsRow {
                versionpin_id,
                distribution_id,
                pkgcoord_id,
                distribution,
                coords,
                withs,
            }),
    {
        FindAllVersionPinsRow {
            versionpin_id,
            distribution_id,
            pkgcoord_id,
            distribution,
            coords,
            withs,
        }
    }

    /// A row from the values a query returned: the distribution must keep
    /// the naming rules and the names must make coordinates; `parsed` is
    /// what levelspec made of the level name.
    pub fn try_from_parts(
        id: IdType,
        distribution_id: IdType,
        pkgcoord_id: IdType,
        distribution: &str,
        level: &str,
        parsed: Option<LevelSpec>,
        role: &str,
        platform: &str,
        site: &str,
        withs: Option<Vec<String>>,
    ) -> (r: Result<FindAllVersionPinsRow, FindAllVersionPinsError>)
        ensures
            r is Ok <==> distribution_problem(distribution@) is None && coords_accepted(
                level@,
                parsed,
                role@,
                platform@,
                site@,
            ),
            r matches Ok(row) ==> row.versionpin_id == id && row.distribution_id == distribution_id
                && row.pkgcoord_id == pkgcoord_id && row.distribution@ == distribution@
                && coords_from_names(row.coords, level@, parsed, role@, platform@, site@)
                && row.withs == withs,
            r matches Err(FindAllVersionPinsError::VersionPinNewError { msg, source }) ==> msg@
                == distribution@ && distribution_problem(distribution@) is Some,
            r matches Err(FindAllVersionPinsError::CoordsTryFromPartsError { coords, source })
                ==> distribution_problem(distribution@) is None && coords@ == parts_text(
                level@,
                role@,
                platform@,
                site@,
            ) && coords_error_matches(source, level@, parsed, role@, platform@, site@),
    {
        let new_distribution = match Distribution::new(distribution) {
            Ok(d) => d,
            Err(source) => {
                return Err(
                    FindAllVersionPinsError::VersionPinNewError {
                        msg: String::from_str(distribution),
                        source,
                    },
                );
            },
        };
        let coords = match Coords::try_from_parts(level, parsed, role, platform, site) {
            Ok(c) => c,
            Err(source) => {
                return Err(
                    FindAllVersionPinsError::CoordsTryFromPartsError {
                        coords: describe_parts(level, role, platform, site),
                        source,
                    },
                );
            },
        };
        Ok(Self::new(id, distribution_id, pkgcoord_id, new_distribution, coords, withs))
    }

    /// A row from names that make coordinates; the distribution is taken as
    /// it is.
    pub fn from_parts(
        id: IdType,
        distribution_id: IdType,
        pkgcoord_id: IdType,
        distribution: &str,
        level: &str,
        parsed: Option<LevelSpec>,
        role: &str,
        platform: &str,
        site: &str,
        withs: Option<Vec<String>>,
    ) -> (r: FindAllVersionPinsRow)
        requires
            coords_accepted(level@, parsed, role@, platform@, site@),
        ensures
            r.versionpin_id == id && r.distribution_id == distribution_id && r.pkgcoord_id
                == pkgcoord_id && r.distribution@ == distribution@ && coords_from_names(
                r.coords,
                level@,
                parsed,
                role@,
                platform@,
                site@,
            ) && r.withs == withs,
    {
        let distribution = Distribution::new_unchecked(distribution);
        let coords = match Coords::try_from_parts(level, parsed, role, platform, site) {
            Ok(c) => c,
            Err(_) => Coords::new().build(),
        };
        Self::new(id, distribution_id, pkgcoord_id, distribution, coords, withs)
    }

    /// The row as it is displayed: the distribution, its ids, its
    /// coordinates and the packages that go with it.
    pub fn to_string(&self) -> (r: String)
        ensures
            r@ == self.distribution@ + " (vp id:"@ + int_text(self.versionpin_id as int)
                + " dist id:"@ + int_text(self.distribution_id as int) + " pkgcoord id:"@
                + int_text(self.pkgcoord_id as int) + ") "@ + coords_text(self.coords) + withs_text(
                self.withs,
            ),
    {
        let mut s = self.distribution.to_string();
        s.append(" (vp id:");
        s.append(i32_text(self.versionpin_id).as_str());
        s.append(" dist id:");
        s.append(i32_text(self.distribution_id).as_str());
        s.append(" pkgcoord id:");
        s.append(i32_text(self.pkgcoord_id).as_str());
        s.append(") ");
        s.append(self.coords.to_string().as_str());
        match &self.withs {
            Some(w) => {
                s.append(" [");
                s.append(join_with(w, ", ").as_str());
                s.append("]");
            },
            None => {
                s.append(" []");
            },
        }
        s
    }
}

/// A search for version pins.
pub struct FindAllVersionPins<'a> {
    /// The database connection the search runs on.
    pub client: &'a mut postgres::Client,
    pub package: Option<&'a str>,
    pub version: Option<&'a str>,
    pub level: Option<&'a str>,
    pub isolate_facility: bool,
    pub role: Option<&'a str>,
    pub platform: Option<&'a str>,
    pub site: Option<&'a str>,
    pub order_by: Option<Vec<SearchAttribute>>,
    pub order_direction: Option<OrderDirection>,
    pub limit: Option<IdType>,
    pub search_mode: LtreeSearchMode,
}

/// The fields of a search other than its connection.
pub open spec fn same_pins_search(a: FindAllVersionPins, b: FindAllVersionPins) -> bool {
    &&& a.package == b.package
    &&& a.version == b.version
    &&& a.level == b.level
    &&& a.isolate_facility == b.isolate_facility
    &&& a.role == b.role
    &&& a.platform == b.platform
    &&& a.site == b.site
    &&& a.order_by == b.order_by
    &&& a.order_direction == b.order_direction
    &&& a.limit == b.limit
    &&& a.search_mode == b.search_mode
}


/// The query text of a version pin search: the pins found by
/// `findall_versionpins` at the coordinates (each defaulting to the
/// facility or `any`) with the search mode, of the package and version
/// where given, then the ORDER BY, direction and LIMIT clauses where given.
pub open spec fn pins_query(f: FindAllVersionPins) -> Seq<char> {
    "SELECT id, 
        distribution_id,
        pkgcoord_id,
        distribution, 
        level_name, 
        role_name, 
        site_name, 
        platform_name,
        withs
    FROM findall_versionpins(
        role => $1, 
        platform => $2, 
        level=>$3, 
        site => $4,
        search_mode => $5"@ + (match f.package {
        Some(_) => ",\n\tpackage_name => $"@ + decimal(6),
        None => Seq::empty(),
    }) + (match f.version {
        Some(_) => ",\n\tversion_name => $"@ + decimal(
            if f.package is Some {
                7nat
            } else {
                6nat
            },
        ),
        None => Seq::empty(),
    }) + ")"@ + (match f.order_by {
        Some(v) => " ORDER BY "@ + join(
            v@.map_values(|a: SearchAttribute| pin_order_column(a)),
            ","@,
        ),
        None => Seq::empty(),
    }) + (match f.order_direction {
        Some(d) => " "@ + order_direction_text(d) + " "@,
        None => Seq::empty(),
    }) + (match f.limit {
        Some(l) => " LIMIT "@ + int_text(l as int),
        None => Seq::empty(),
    })
}

/// The parameters of a version pin search: role, platform, level, site and
/// search mode, then the package and the version where given.
pub open spec fn pins_params(f: FindAllVersionPins) -> Seq<Seq<char>> {
    seq![
        or_default(f.role, "any"@),
        or_default(f.platform, "any"@),
        or_default(f.level, "facility"@),
        or_default(f.site, "any"@),
        ltree_search_mode_text(f.search_mode),
    ] + (match f.package {
        Some(p) => seq![p@],
        None => Seq::empty(),
    }) + (match f.version {
        Some(v) => seq![v@],
        None => Seq::empty(),
    })
}

/// The value searched for on an axis, or its default where none is.
pub open spec fn searched(v: Option<&str>, default: Seq<char>) -> Seq<char> {
    match v {
        Some(x) => x@,
        None => default,
    }
}

/// A version pin search binds the role searched for (or `any`) to its
/// first parameter and the platform (or `any`) to its second, then the
/// level (or the facility), the site (or `any`) and the name of the search
/// mode; its query hands `$1` to the role and `$2` to the platform.
pub proof fn law_pins_params_in_place(f: FindAllVersionPins)
    ensures
        pins_params(f).len() >= 5,
        pins_params(f)[0] == searched(f.role, "any"@),
        pins_params(f)[1] == searched(f.platform, "any"@),
        pins_params(f)[2] == searched(f.level, "facility"@),
        pins_params(f)[3] == searched(f.site, "any"@),
        pins_params(f)[4] == (match f.search_mode {
            LtreeSearchMode::Ancestor => "ancestor"@,
            LtreeSearchMode::Descendant => "descendant"@,
            LtreeSearchMode::Exact => "exact"@,
        }),
        has_infix(pins_query(f), "role => $1"@),
        has_infix(pins_query(f), "platform => $2"@),
{
    reveal_strlit("SELECT id, 
        distribution_id,
        pkgcoord_id,
        distribution, 
        level_name, 
        role_name, 
        site_name, 
        platform_name,
        withs
    FROM findall_versionpins(
        role => $1, 
        platform => $2, 
        level=>$3, 
        site => $4,
        search_mode => $5");
    reveal_strlit("role => $1");
    reveal_strlit("platform => $2");
    let q = pins_query(f);
    assert(q.subrange(217int, 217int + "role => $1"@.len()) =~= "role => $1"@);
    assert(q.subrange(238int, 238int + "platform => $2"@.len()) =~= "platform => $2"@);
}

/// A version pin search for a package binds it to its sixth parameter,
/// which its query hands to `package_name`; a version follows it (or takes
/// its place where no package is given) and goes to `version_name`.
pub proof fn law_pins_package_version_in_place(f: FindAllVersionPins)
    ensures
        f.package matches Some(p) ==> pins_params(f).len() >= 6 && pins_params(f)[5] == p@
            && has_infix(pins_query(f), "package_name => $6"@),
        f.version matches Some(v) ==> ({
            let k: nat = if f.package is Some { 7 } else { 6 };
            &&& pins_params(f).len() >= k
            &&& pins_params(f)[k - 1] == v@
            &&& has_infix(pins_query(f), "version_name => $"@ + decimal(k))
        }),
{
    reveal_strlit(",\n\tpackage_name => $");
    reveal_strlit("package_name => $6");
    reveal_strlit(",\n\tversion_name => $");
    reveal_strlit("version_name => $");
    assert(decimal(6) =~= seq!['6']);
    let head = "SELECT id, 
        distribution_id,
        pkgcoord_id,
        distribution, 
        level_name, 
        role_name, 
        site_name, 
        platform_name,
        withs
    FROM findall_versionpins(
        role => $1, 
        platform => $2, 
        level=>$3, 
        site => $4,
        search_mode => $5"@;
    let pc = match f.package {
        Some(_) => ",\n\tpackage_name => $"@ + decimal(6),
        None => Seq::empty(),
    };
    let vn: nat = if f.package is Some { 7 } else { 6 };
    let vc = match f.version {
        Some(_) => ",\n\tversion_name => $"@ + decimal(vn),
        None => Seq::empty(),
    };
    let q = pins_query(f);
    assert(q.take((head + pc + vc).len() as int) =~= head + pc + vc);
    if f.package is Some {
        let t = "package_name => $6"@;
        let i: int = head.len() as int + 3;
        assert(q.subrange(i, i + t.len()) =~= t);
    }
    if f.version is Some {
        let t = "version_name => $"@ + decimal(vn);
        let i: int = (head + pc).len() as int + 3;
        assert(q.subrange(i, i + t.len()) =~= t);
    }
}

/// Whether a row at the level `level_name` is kept: when facility pins are
/// kept apart, a search at the facility keeps only facility rows, and a
/// search at another level drops them.
pub open spec fn keeps_level(f: FindAllVersionPins, level_name: Seq<char>) -> bool {
    let level = or_default(f.level, "facility"@);
    !(f.isolate_facility && ((level == "facility"@ && level_name != "facility"@) || (level
        != "facility"@ && level_name == "facility"@)))
}


impl<'a> FindAllVersionPins<'a> {
    /// A search for every version pin on `client`, comparing by ancestor.
    pub fn new(client: &'a mut postgres::Client) -> (r: Self)
        ensures
            r.package is None,
            r.version is None,
            r.level is None,
            !r.isolate_facility,
            r.role is None,
            r.platform is None,
            r.site is None,
            r.order_by is None,
            r.order_direction is None,
            r.limit is None,
            r.search_mode == LtreeSearchMode::Ancestor,
    {
        FindAllVersionPins {
            client,
            package: None,
            version: None,
            level: None,
            isolate_facility: false,
            role: None,
            platform: None,
            site: None,
            order_by: None,
            order_direction: None,
            limit: None,
            search_mode: LtreeSearchMode::Ancestor,
        }
    }

    /// Search for the pins of this package.
    pub fn package(&mut self, package_n: &'a str) -> (r: &mut Self)
        ensures
            same_pins_search(*r, FindAllVersionPins { package: Some(package_n), ..*old(self) }),
            *final(self) == *final(r),
    {
        self.package = Some(package_n);
        self
    }

    /// Set or clear the package.
    pub fn some_package(&mut self, package_n: Option<&'a str>) -> (r: &mut Self)
        ensures
            same_pins_search(*r, FindAllVersionPins { package: package_n, ..*old(self) }),
            *final(self) == *final(r),
    {
        self.package = package_n;
        self
    }

    /// Search for the pins of this version.
    pub fn version(&mut self, version_n: &'a str) -> (r: &mut Self)
        ensures
            same_pins_search(*r, FindAllVersionPins { version: Some(version_n), ..*old(self) }),
            *final(self) == *final(r),
    {
        self.version = Some(version_n);
        self
    }

    /// Set or clear the version.
    pub fn some_version(&mut self, version_n: Option<&'a str>) -> (r: &mut Self)
        ensures
            same_pins_search(*r, FindAllVersionPins { version: version_n, ..*old(self) }),
            *final(self) == *final(r),
    {
        self.version = version_n;
        self
    }

    /// Set the level.
    pub fn level(&mut self, level_n: &'a str) -> (r: &mut Self)
        ensures
            same_pins_search(*r, FindAllVersionPins { level: Some(level_n), ..*old(self) }),
            *final(self) == *final(r),
    {
        self.level = Some(level_n);
        self
    }

    /// Keep facility pins apart from those of other levels.
    pub fn isolate_facility(&mut self, isolate: bool) -> (r: &mut Self)
        ensures
            same_pins_search(*r, FindAllVersionPins { isolate_facility: isolate, ..*old(self) }),
            *final(self) == *final(r),
    {
        self.isolate_facility = isolate;
        self
    }

    /// Set the role.
    pub fn role(&mut self, role_n: &'a str) -> (r: &mut Self)
        ensures
            same_pins_search(*r, FindAllVersionPins { role: Some(role_n), ..*old(self) }),
            *final(self) == *final(r),
    {
        self.role = Some(role_n);
        self
    }

    /// Set the platform.
    pub fn platform(&mut self, platform_n: &'a str) -> (r: &mut Self)
        ensures
            same_pins_search(*r, FindAllVersionPins { platform: Some(platform_n), ..*old(self) }),
            *final(self) == *final(r),
    {
        self.platform = Some(platform_n);
        self
    }

    /// Set the site.
    pub fn site(&mut self, site_n: &'a str) -> (r: &mut Self)
        ensures
            same_pins_search(*r, FindAllVersionPins { site: Some(site_n), ..*old(self) }),
            *final(self) == *final(r),
    {
        self.site = Some(site_n);
        self
    }

    /// Set the attributes to order by.
    pub fn order_by(&mut self, attributes: Vec<SearchAttribute>) -> (r: &mut Self)
        ensures
            same_pins_search(*r, FindAllVersionPins { order_by: Some(attributes), ..*old(self) }),
            *final(self) == *final(r),
    {
        self.order_by = Some(attributes);
        self
    }

    /// Set the direction to order in.
    pub fn order_direction(&mut self, direction: OrderDirection) -> (r: &mut Self)
        ensures
            same_pins_search(*r, FindAllVersionPins { order_direction: Some(direction), ..*old(self) }),
            *final(self) == *final(r),
    {
        self.order_direction = Some(direction);
        self
    }

    /// Set the largest number of rows to return.
    pub fn limit(&mut self, limit: IdType) -> (r: &mut Self)
        ensures
            same_pins_search(*r, FindAllVersionPins { limit: Some(limit), ..*old(self) }),
            *final(self) == *final(r),
    {
        self.limit = Some(limit);
        self
    }

    /// Set how coordinates are compared.
    pub fn search_mode(&mut self, mode: LtreeSearchMode) -> (r: &mut Self)
        ensures
            same_pins_search(*r, FindAllVersionPins { search_mode: mode, ..*old(self) }),
            *final(self) == *final(r),
    {
        self.search_mode = mode;
        self
    }

    /// The ORDER BY, direction and LIMIT clauses, where given.
    fn tail_text(&self) -> (r: String)
        ensures
            r@ == (match self.order_by {
                Some(v) => " ORDER BY "@ + join(
                    v@.map_values(|a: SearchAttribute| pin_order_column(a)),
                    ","@,
                ),
                None => Seq::empty(),
            }) + (match self.order_direction {
                Some(d) => " "@ + order_direction_text(d) + " "@,
                None => Seq::empty(),
            }) + (match self.limit {
                Some(l) => " LIMIT "@ + int_text(l as int),
                None => Seq::empty(),
            }),
    {
        let mut s = String::new();
        match &self.order_by {
            Some(order) => {
                let mut cols: Vec<String> = Vec::new();
                let mut i: usize = 0;
                while i < order.len()
                    invariant
                        i <= order.len(),
                        cols.len() == i,
                        forall|j: int| 0 <= j < i ==> #[trigger] cols@[j]@ == pin_order_column(order@[j]),
                    decreases order.len() - i,
                {
                    cols.push(String::from_str(match_attrib(&order[i])));
                    i = i + 1;
                }
                assert(cols.deep_view() =~= order@.map_values(
                    |a: SearchAttribute| pin_order_column(a),
                ));
                s.append(" ORDER BY ");
                s.append(join_with(&cols, ",").as_str());
            },
            None => {},
        }
        match &self.order_direction {
            Some(dir) => {
                s.append(" ");
                s.append(dir.as_str());
                s.append(" ");
            },
            None => {},
        }
        match self.limit {
            Some(limit) => {
                s.append(" LIMIT ");
                s.append(i32_text(limit).as_str());
            },
            None => {},
        }
        s
    }

    /// The query text and its parameters.
    pub fn get_query_str(&self) -> (r: (String, Vec<String>))
        ensures
            r.0@ == pins_query(*self),
            r.1.deep_view() == pins_params(*self),
            r.1@.len() >= 5,
            r.1@[0]@ == searched(self.role, "any"@),
            r.1@[1]@ == searched(self.platform, "any"@),
            r.1@[2]@ == searched(self.level, "facility"@),
            r.1@[3]@ == searched(self.site, "any"@),
            has_infix(r.0@, "role => $1"@),
            has_infix(r.0@, "platform => $2"@),
    {
        let level = name_or(self.level, "facility");
        let role = name_or(self.role, "any");
        let platform = name_or(self.platform, "any");
        let site = name_or(self.site, "any");
        let mut query_str = String::from_str("SELECT id, 
        distribution_id,
        pkgcoord_id,
        distribution, 
        level_name, 
        role_name, 
        site_name, 
        platform_name,
        withs
    FROM findall_versionpins(
        role => $1, 
        platform => $2, 
        level=>$3, 
        site => $4,
        search_mode => $5");
        let smode = self.search_mode.to_string();
        let mut args: Vec<String> = vec![
            String::from_str(role),
            String::from_str(platform),
            String::from_str(level),
            String::from_str(site),
            smode,
        ];
        let mut params_cnt: u64 = 6;
        match self.package {
            Some(package) => {
                query_str.append(",\n\tpackage_name => $");
                push_decimal(&mut query_str, params_cnt);
                params_cnt = params_cnt + 1;
                args.push(String::from_str(package));
            },
            None => {},
        }
        match self.version {
            Some(version) => {
                query_str.append(",\n\tversion_name => $");
                push_decimal(&mut query_str, params_cnt);
                args.push(String::from_str(version));
            },
            None => {},
        }
        query_str.append(")");
        let t = self.tail_text();
        query_str.append(t.as_str());
        assert(args.deep_view() =~= pins_params(*self));
        proof {
            law_pins_params_in_place(*self);
            assert(args@[0]@ == args.deep_view()[0]);
            assert(args@[1]@ == args.deep_view()[1]);
            assert(args@[2]@ == args.deep_view()[2]);
            assert(args@[3]@ == args.deep_view()[3]);
        }
        (query_str, args)
    }

    /// Whether a row the query returned at the level `level_name` belongs
    /// to the result.
    pub fn keeps_row(&self, level_name: &str) -> (r: bool)
        ensures
            r == keeps_level(*self, level_name@),
    {
        let level = name_or(self.level, "facility");
        let at_facility = str_eq(level, "facility");
        let row_facility = str_eq(level_name, "facility");
        !(self.isolate_facility && ((at_facility && !row_facility) || (!at_facility
            && row_facility)))
    }
}

} // verus!
