//! Search for the roles that version pins use, and where they use them.
use crate::coords::{
    axis_name, coords_accepted, coords_error_matches, describe_parts, level_value, parts_text,
    Coords,
};
use crate::coords_error::CoordsError;
use crate::db::search_attribute::{
    ltree_symbol, order_direction_text, LtreeSearchMode, OrderDirection, SearchAttribute,
};
use crate::db::utils::{axis_text, axis_value};
use crate::level::{level_text, LevelSpec};
use crate::platform::parse_platform;
use crate::role::parse_role;
use crate::site::parse_site;
use crate::text::{has_char, has_infix, i32_text, int_text, join, join_with, lemma_infix_prefix, lemma_infix_within};
use vstd::prelude::*;

verus! {

/// The column a search attribute orders roles by.
pub open spec fn role_order_column(a: SearchAttribute) -> Seq<char> {
    match a {
        SearchAttribute::Level => "level"@,
        SearchAttribute::Platform => "platform"@,
        SearchAttribute::Role => "role"@,
        SearchAttribute::Site => "site"@,
        SearchAttribute::Package => "distribution"@,
        SearchAttribute::Unknown => "unknown"@,
    }
}

/// The column a search attribute orders roles by.
fn match_attrib(search_by: &SearchAttribute) -> (r: &'static str)
    ensures
        r@ == role_order_column(*search_by),
{
    match *search_by {
        SearchAttribute::Level => "level",
        SearchAttribute::Platform => "platform",
        SearchAttribute::Role => "role",
        SearchAttribute::Site => "site",
        SearchAttribute::Package => "distribution",
        SearchAttribute::Unknown => "unknown",
    }
}

/// Errors of a role search.
#[derive(Debug)]
pub enum FindRolesError {
    /// A distribution could not be made.
    DistributionNewError { msg: String, source: CoordsError },
    /// The coordinates of a row could not be made; `coords` shows them.
    CoordsTryFromPartsError { coords: String, source: CoordsError },
}

/// A row of a role search: a role and where it is used.
#[derive(Debug, PartialEq, Eq)]
pub struct FindRolesRow {
    pub role: String,
    pub level: String,
    pub platform: String,
    pub site: String,
}

/// Whether a row holds the names of the coordinates that four accepted names
/// stand for.
pub open spec fn roles_row_from_names(
    row: FindRolesRow,
    role: Seq<char>,
    level: Seq<char>,
    parsed: Option<LevelSpec>,
    platform: Seq<char>,
    site: Seq<char>,
) -> bool {
    &&& row.role@ == axis_name(parse_role(role).unwrap())
    &&& row.level@ == level_text(level_value(level, parsed))
    &&& row.platform@ == axis_name(parse_platform(platform).unwrap())
    &&& row.site@ == axis_name(parse_site(site).unwrap())
}

impl FindRolesRow {
    /// A row of the given names.
    pub fn new(role: String, level: String, platform: String, site: String) -> (r: FindRolesRow)
        ensures
            r == (FindRolesRow { role, level, platform, site }),
    {
        FindRolesRow { role, level, platform, site }
    }

    /// A row from a role's name and the names of where it is used, each
    /// read as a coordinate and written back as text; `parsed` is what
    /// levelspec made of the level name.
    pub fn try_from_parts(
        role: &str,
        level: &str,
        parsed: Option<LevelSpec>,
        platform: &str,
        site: &str,
    ) -> (r: Result<FindRolesRow, FindRolesError>)
        ensures
            r is Ok <==> coords_accepted(level@, parsed, role@, platform@, site@),
            r matches Ok(row) ==> roles_row_from_names(row, role@, level@, parsed, platform@, site@),
            r matches Err(e) ==> (e matches FindRolesError::CoordsTryFromPartsError {
                coords,
                source,
            } && coords@ == parts_text(level@, role@, platform@, site@) && coords_error_matches(
                source,
                level@,
                parsed,
                role@,
                platform@,
                site@,
            )),
    {
        let coords = match Coords::try_from_parts(level, parsed, role, platform, site) {
            Ok(c) => c,
            Err(source) => {
                return Err(
                    FindRolesError::CoordsTryFromPartsError {
                        coords: describe_parts(level, role, platform, site),
                        source,
                    },
                );
            },
        };
        let Coords { role, level, platform, site } = coords;
        Ok(Self::new(role.to_string(), level.to_string(), platform.to_string(), site.to_string()))
    }

    /// A row from names that make coordinates.
    pub fn from_parts(
        role: &str,
        level: &str,
        parsed: Option<LevelSpec>,
        platform: &str,
        site: &str,
    ) -> (r: FindRolesRow)
        requires
            coords_accepted(level@, parsed, role@, platform@, site@),
        ensures
            roles_row_from_names(r, role@, level@, parsed, platform@, site@),
    {
        match Self::try_from_parts(role, level, parsed, platform, site) {
            Ok(row) => row,
            Err(_) => FindRolesRow {
                role: String::new(),
                level: String::new(),
                platform: String::new(),
                site: String::new(),
            },
        }
    }

    /// The row as it is displayed: `role @ (level:.. platform:.. site:..)`.
    pub fn to_string(&self) -> (r: String)
        ensures
            r@ == self.role@ + " @ (level:"@ + self.level@ + " platform:"@ + self.platform@
                + " site:"@ + self.site@ + ")"@,
    {
        let mut s = self.role.clone();
        s.append(" @ (level:");
        s.append(self.level.as_str());
        s.append(" platform:");
        s.append(self.platform.as_str());
        s.append(" site:");
        s.append(self.site.as_str());
        s.append(")");
        s
    }
}

/// A search for roles, set up step by step.
pub struct FindRoles<'a> {
    /// The database connection the search runs on.
    pub client: &'a mut postgres::Client,
    pub role: Option<&'a str>,
    pub level: Option<&'a str>,
    pub platform: Option<&'a str>,
    pub site: Option<&'a str>,
    pub order_by: Option<Vec<SearchAttribute>>,
    pub order_direction: Option<OrderDirection>,
    pub limit: Option<i32>,
    pub search_mode: LtreeSearchMode,
    pub simple: bool,
}

/// The comparison of a coordinate with parameter `n`: LIKE for a value
/// holding `%`, else by path with the search's operator.
pub open spec fn roles_comparison(extension: Seq<char>, op: Seq<char>, n: int, is_like: bool) -> Seq<
    char,
> {
    if is_like {
        " LIKE $"@ + int_text(n)
    } else {
        extension + " "@ + op + " text2ltree($"@ + int_text(n) + ")"@
    }
}

/// The comparison of a coordinate with parameter `params_cnt`.
fn prep_query(extension: &str, op: &str, params_cnt: i32, is_like: bool) -> (r: String)
    ensures
        r@ == roles_comparison(extension@, op@, params_cnt as int, is_like),
{
    let n = i32_text(params_cnt);
    if is_like {
        let mut s = String::from_str(" LIKE $");
        s.append(n.as_str());
        s
    } else {
        let mut s = String::from_str(extension);
        s.append(" ");
        s.append(op);
        s.append(" text2ltree($");
        s.append(n.as_str());
        s.append(")");
        s
    }
}

/// The coordinates a search restricts: the name of each set one with the
/// value searched for, in the order level, role, platform, site.
pub open spec fn roles_entries(f: FindRoles) -> Seq<(Seq<char>, Seq<char>)> {
    let e0 = Seq::<(Seq<char>, Seq<char>)>::empty();
    let e1 = if f.level is Some {
        e0.push(("level"@, axis_value(f.level, "facility"@, false)))
    } else {
        e0
    };
    let e2 = if f.role is Some {
        e1.push(("role"@, axis_value(f.role, "any"@, false)))
    } else {
        e1
    };
    let e3 = if f.platform is Some {
        e2.push(("platform"@, axis_value(f.platform, "any"@, false)))
    } else {
        e2
    };
    if f.site is Some {
        e3.push(("site"@, axis_value(f.site, "any"@, false)))
    } else {
        e3
    }
}

/// The conditions on the restricted coordinates, parameters numbered from 1
/// and joined by AND.
pub open spec fn roles_conditions(entries: Seq<(Seq<char>, Seq<char>)>, op: Seq<char>) -> Seq<char>
    decreases entries.len(),
{
    if entries.len() == 0 {
        Seq::empty()
    } else {
        let i = entries.len() - 1;
        roles_conditions(entries.drop_last(), op) + (if i > 0 {
            " AND "@
        } else {
            Seq::empty()
        }) + " "@ + entries.last().0 + roles_comparison(
            "_path"@,
            op,
            i + 1,
            entries.last().1.contains('%'),
        )
    }
}

/// The select clause of the simple search: role names only.
pub open spec fn roles_simple_select() -> Seq<char> {
    "SELECT DISTINCT 
                name
            FROM 
                role_view ORDER BY name"@
}

/// The select clause of the full search.
pub open spec fn roles_select() -> Seq<char> {
    "SELECT DISTINCT 
                role,
                level,
                platform,
                site 
            FROM 
                versionpin_view"@
}

/// The ORDER BY, direction and LIMIT clauses of a search's query.
pub open spec fn roles_tail(f: FindRoles) -> Seq<char> {
    (match f.order_by {
        Some(v) => " ORDER BY "@ + join(
            v@.map_values(|a: SearchAttribute| role_order_column(a)),
            ","@,
        ),
        None => Seq::empty(),
    }) + (match f.order_direction {
        Some(d) => " "@ + order_direction_text(d) + " "@,
        None => Seq::empty(),
    }) + (match f.limit {
        Some(l) => " LIMIT "@ + int_text(l as int),
        None => Seq::empty(),
    })
}

/// The query text of a search.
pub open spec fn roles_query(f: FindRoles) -> Seq<char> {
    if f.simple {
        roles_simple_select()
    } else {
        let entries = roles_entries(f);
        roles_select() + (if entries.len() > 0 {
            " WHERE "@ + roles_conditions(entries, ltree_symbol(f.search_mode))
        } else {
            Seq::empty()
        }) + roles_tail(f)
    }
}

/// The SQL operator that compares a coordinate's path under a search
/// mode: `=` for exact, `@>` for descendant, `<@` for ancestor.
pub open spec fn mode_operator(m: LtreeSearchMode) -> Seq<char> {
    match m {
        LtreeSearchMode::Exact => "="@,
        LtreeSearchMode::Descendant => "@>"@,
        LtreeSearchMode::Ancestor => "<@"@,
    }
}

/// The conditions start with the one on the first coordinate.
proof fn lemma_conditions_start(entries: Seq<(Seq<char>, Seq<char>)>, op: Seq<char>)
    requires
        entries.len() >= 1,
    ensures
        ({
            let first = " "@ + entries[0].0 + roles_comparison(
                "_path"@,
                op,
                1,
                entries[0].1.contains('%'),
            );
            first.len() <= roles_conditions(entries, op).len() && roles_conditions(
                entries,
                op,
            ).take(first.len() as int) == first
        }),
    decreases entries.len(),
{
    let first = " "@ + entries[0].0 + roles_comparison(
        "_path"@,
        op,
        1,
        entries[0].1.contains('%'),
    );
    if entries.len() == 1 {
        assert(roles_conditions(entries.drop_last(), op) =~= Seq::<char>::empty());
        assert(roles_conditions(entries, op) =~= first);
    } else {
        lemma_conditions_start(entries.drop_last(), op);
        assert(entries.drop_last()[0] == entries[0]);
        let c = roles_conditions(entries.drop_last(), op);
        assert(roles_conditions(entries, op).take(first.len() as int) =~= c.take(
            first.len() as int,
        ));
    }
}

/// A level with no `%` stays without one when it is made a path under the
/// facility.
proof fn lemma_level_value_plain(l: &str)
    requires
        !l@.contains('%'),
    ensures
        !axis_value(Some(l), "facility"@, false).contains('%'),
{
    reveal_strlit("facility");
    reveal_strlit(".");
    let v = axis_value(Some(l), "facility"@, false);
    if l@ != "facility"@ {
        assert(v =~= "facility"@ + "."@ + l@);
        assert forall|i: int| 0 <= i < v.len() implies v[i] != '%' by {
            if i >= 9 {
                assert(v[i] == l@[i - 9]);
            }
        }
    }
}

/// The condition on each coordinate without `%` occurs among the
/// conditions, numbered by its place.
proof fn lemma_conditions_hold(entries: Seq<(Seq<char>, Seq<char>)>, op: Seq<char>, k: int)
    requires
        0 <= k < entries.len(),
        !entries[k].1.contains('%'),
    ensures
        has_infix(
            roles_conditions(entries, op),
            " "@ + entries[k].0 + roles_comparison("_path"@, op, k + 1, false),
        ),
    decreases entries.len(),
{
    let n = entries.len() - 1;
    let prev = roles_conditions(entries.drop_last(), op);
    let sep = if n > 0 {
        " AND "@
    } else {
        Seq::<char>::empty()
    };
    let t = " "@ + entries[k].0 + roles_comparison("_path"@, op, k + 1, false);
    if k == n {
        let i: int = (prev + sep).len() as int;
        assert(roles_conditions(entries, op) =~= prev + sep + t);
        assert(roles_conditions(entries, op).subrange(i, i + t.len()) =~= t);
    } else {
        lemma_conditions_hold(entries.drop_last(), op, k);
        assert(entries.drop_last()[k] == entries[k]);
        let rest = sep + " "@ + entries.last().0 + roles_comparison(
            "_path"@,
            op,
            n + 1,
            entries.last().1.contains('%'),
        );
        lemma_infix_within(Seq::<char>::empty(), prev, rest, t);
        assert(Seq::<char>::empty() + prev + rest =~= roles_conditions(entries, op));
    }
}

/// A full role search compares each restricted coordinate whose value has
/// no `%` by its path, with the operator of the search's own mode, against
/// the parameter at the coordinate's place.
pub proof fn law_roles_conditions_by_mode(f: FindRoles, k: int)
    requires
        !f.simple,
        0 <= k < roles_entries(f).len(),
        !roles_entries(f)[k].1.contains('%'),
    ensures
        roles_params(f)[k] == roles_entries(f)[k].1,
        has_infix(
            roles_query(f),
            " "@ + roles_entries(f)[k].0 + "_path "@ + mode_operator(f.search_mode)
                + " text2ltree($"@ + int_text(k + 1) + ")"@,
        ),
{
    let entries = roles_entries(f);
    let op = ltree_symbol(f.search_mode);
    assert(op == mode_operator(f.search_mode));
    lemma_conditions_hold(entries, op, k);
    reveal_strlit(" ");
    reveal_strlit("_path");
    reveal_strlit("_path ");
    let t = " "@ + entries[k].0 + roles_comparison("_path"@, op, k + 1, false);
    assert(t =~= " "@ + entries[k].0 + "_path "@ + op + " text2ltree($"@ + int_text(k + 1) + ")"@);
    let c = roles_conditions(entries, op);
    lemma_infix_within(roles_select() + " WHERE "@, c, roles_tail(f), t);
    assert(roles_query(f) =~= roles_select() + " WHERE "@ + c + roles_tail(f));
}

/// A full role search at a level with no `%` compares the level's path
/// with its first parameter by the operator of its own search mode.
pub proof fn law_roles_compare_by_mode(f: FindRoles)
    requires
        !f.simple,
        f.level matches Some(l) && !l@.contains('%'),
    ensures
        has_infix(
            roles_query(f),
            " level_path "@ + mode_operator(f.search_mode) + " text2ltree($1)"@,
        ),
{
    let entries = roles_entries(f);
    let l = f.level.unwrap();
    lemma_level_value_plain(l);
    assert(entries[0] == ("level"@, axis_value(f.level, "facility"@, false)));
    let op = ltree_symbol(f.search_mode);
    assert(op == mode_operator(f.search_mode));
    lemma_conditions_start(entries, op);
    reveal_strlit("1");
    assert(int_text(1) == "1"@) by {
        reveal_with_fuel(crate::text::decimal, 2);
    }
    let t = " level_path "@ + op + " text2ltree($1)"@;
    let first = " "@ + entries[0].0 + roles_comparison("_path"@, op, 1, false);
    reveal_strlit(" ");
    reveal_strlit("level");
    reveal_strlit("_path");
    reveal_strlit(" text2ltree($");
    reveal_strlit(")");
    reveal_strlit(" level_path ");
    reveal_strlit(" text2ltree($1)");
    assert(first =~= t);
    let c = roles_conditions(entries, op);
    assert((c + roles_tail(f)).take(t.len() as int) =~= c.take(t.len() as int));
    lemma_infix_prefix(c + roles_tail(f), t, roles_select() + " WHERE "@);
    assert(roles_query(f) =~= roles_select() + " WHERE "@ + (c + roles_tail(f)));
}

/// The parameters of a search's query: the values of the restricted
/// coordinates; none for the simple search.
pub open spec fn roles_params(f: FindRoles) -> Seq<Seq<char>> {
    if f.simple {
        Seq::empty()
    } else {
        roles_entries(f).map_values(|e: (Seq<char>, Seq<char>)| e.1)
    }
}

/// The fields of a search other than its connection.
pub open spec fn same_roles_search(a: FindRoles, b: FindRoles) -> bool {
    &&& a.role == b.role
    &&& a.level == b.level
    &&& a.platform == b.platform
    &&& a.site == b.site
    &&& a.order_by == b.order_by
    &&& a.order_direction == b.order_direction
    &&& a.limit == b.limit
    &&& a.search_mode == b.search_mode
    &&& a.simple == b.simple
}

impl<'a> FindRoles<'a> {
    /// A search on `client` with nothing set, comparing by ancestor.
    pub fn new(client: &'a mut postgres::Client) -> (r: FindRoles<'a>)
        ensures
            r.role is None,
            r.level is None,
            r.platform is None,
            r.site is None,
            r.order_by is None,
            r.order_direction is None,
            r.limit is None,
            r.search_mode == LtreeSearchMode::Ancestor,
            !r.simple,
    {
        FindRoles {
            client,
            level: None,
            role: None,
            platform: None,
            site: None,
            order_by: None,
            order_direction: None,
            limit: None,
            search_mode: LtreeSearchMode::Ancestor,
            simple: false,
        }
    }

    /// Set the level.
    pub fn level(&mut self, level_n: &'a str) -> (r: &mut Self)
        ensures
            same_roles_search(*r, FindRoles { level: Some(level_n), ..*old(self) }),
            *final(self) == *final(r),
    {
        self.level = Some(level_n);
        self
    }

    /// Set the role.
    pub fn role(&mut self, role_n: &'a str) -> (r: &mut Self)
        ensures
            same_roles_search(*r, FindRoles { role: Some(role_n), ..*old(self) }),
            *final(self) == *final(r),
    {
        self.role = Some(role_n);
        self
    }

    /// Set the platform.
    pub fn platform(&mut self, platform_n: &'a str) -> (r: &mut Self)
        ensures
            same_roles_search(*r, FindRoles { platform: Some(platform_n), ..*old(self) }),
            *final(self) == *final(r),
    {
        self.platform = Some(platform_n);
        self
    }

    /// Set the site.
    pub fn site(&mut self, site_n: &'a str) -> (r: &mut Self)
        ensures
            same_roles_search(*r, FindRoles { site: Some(site_n), ..*old(self) }),
            *final(self) == *final(r),
    {
        self.site = Some(site_n);
        self
    }

    /// Ask for role names only.
    pub fn simple(&mut self, simple: bool) -> (r: &mut Self)
        ensures
            same_roles_search(*r, FindRoles { simple: simple, ..*old(self) }),
            *final(self) == *final(r),
    {
        self.simple = simple;
        self
    }

    /// Set or clear the level.
    pub fn level_opt(&mut self, level: Option<&'a str>) -> (r: &mut Self)
        ensures
            same_roles_search(*r, FindRoles { level: level, ..*old(self) }),
            *final(self) == *final(r),
    {
        self.level = level;
        self
    }

    /// Set or clear the role.
    pub fn role_opt(&mut self, role: Option<&'a str>) -> (r: &mut Self)
        ensures
            same_roles_search(*r, FindRoles { role: role, ..*old(self) }),
            *final(self) == *final(r),
    {
        self.role = role;
        self
    }

    /// Set or clear the platform.
    pub fn platform_opt(&mut self, platform: Option<&'a str>) -> (r: &mut Self)
        ensures
            same_roles_search(*r, FindRoles { platform: platform, ..*old(self) }),
            *final(self) == *final(r),
    {
        self.platform = platform;
        self
    }

    /// Set or clear the site.
    pub fn site_opt(&mut self, site: Option<&'a str>) -> (r: &mut Self)
        ensures
            same_roles_search(*r, FindRoles { site: site, ..*old(self) }),
            *final(self) == *final(r),
    {
        self.site = site;
        self
    }

    /// Set the attributes to order by.
    pub fn order_by(&mut self, attributes: Vec<SearchAttribute>) -> (r: &mut Self)
        ensures
            same_roles_search(*r, FindRoles { order_by: Some(attributes), ..*old(self) }),
            *final(self) == *final(r),
    {
        self.order_by = Some(attributes);
        self
    }

    /// Set the direction to order in.
    pub fn order_direction(&mut self, direction: OrderDirection) -> (r: &mut Self)
        ensures
            same_roles_search(*r, FindRoles { order_direction: Some(direction), ..*old(self) }),
            *final(self) == *final(r),
    {
        self.order_direction = Some(direction);
        self
    }

    /// Set the largest number of rows to return.
    pub fn limit(&mut self, limit: i32) -> (r: &mut Self)
        ensures
            same_roles_search(*r, FindRoles { limit: Some(limit), ..*old(self) }),
            *final(self) == *final(r),
    {
        self.limit = Some(limit);
        self
    }

    /// Set how coordinates are compared.
    pub fn search_mode(&mut self, mode: LtreeSearchMode) -> (r: &mut Self)
        ensures
            same_roles_search(*r, FindRoles { search_mode: mode, ..*old(self) }),
            *final(self) == *final(r),
    {
        self.search_mode = mode;
        self
    }

    /// The names and searched values of the coordinates the search
    /// restricts.
    fn entries(&self) -> (r: (Vec<&'static str>, Vec<String>))
        ensures
            r.0.len() == roles_entries(*self).len(),
            r.1.len() == roles_entries(*self).len(),
            roles_entries(*self).len() <= 4,
            forall|k: int| 0 <= k < r.0.len() ==> #[trigger] r.0@[k]@ == roles_entries(*self)[k].0,
            forall|k: int| 0 <= k < r.1.len() ==> #[trigger] r.1@[k]@ == roles_entries(*self)[k].1,
    {
        let mut names: Vec<&'static str> = Vec::new();
        let mut params: Vec<String> = Vec::new();
        let ghost mut e: Seq<(Seq<char>, Seq<char>)> = Seq::empty();
        if self.level.is_some() {
            names.push("level");
            params.push(axis_text(self.level, "facility", false));
            proof {
                e = e.push(("level"@, axis_value(self.level, "facility"@, false)));
            }
        }
        if self.role.is_some() {
            names.push("role");
            params.push(axis_text(self.role, "any", false));
            proof {
                e = e.push(("role"@, axis_value(self.role, "any"@, false)));
            }
        }
        if self.platform.is_some() {
            names.push("platform");
            params.push(axis_text(self.platform, "any", false));
            proof {
                e = e.push(("platform"@, axis_value(self.platform, "any"@, false)));
            }
        }
        if self.site.is_some() {
            names.push("site");
            params.push(axis_text(self.site, "any", false));
            proof {
                e = e.push(("site"@, axis_value(self.site, "any"@, false)));
            }
        }
        assert(e =~= roles_entries(*self));
        (names, params)
    }

    /// The ORDER BY, direction and LIMIT clauses of the query.
    fn tail_text(&self) -> (r: String)
        ensures
            r@ == roles_tail(*self),
    {
        let mut s = String::new();
        match &self.order_by {
            Some(order) => {
                let o = order_text(order);
                s.append(o.as_str());
            },
            None => {},
        }
        match &self.order_direction {
            Some(dir) => {
                s.append(" ");
                s.append(dir.as_str());
                s.append(" ");
            },
            None => {},
        }
        match self.limit {
            Some(limit) => {
                let l = i32_text(limit);
                s.append(" LIMIT ");
                s.append(l.as_str());
            },
            None => {},
        }
        s
    }

    /// The query text and its parameters.
    pub fn get_query_str(&self) -> (r: (String, Vec<String>))
        ensures
            r.0@ == roles_query(*self),
            r.1.deep_view() == roles_params(*self),
            (!self.simple && (self.level matches Some(l) && !l@.contains('%'))) ==> has_infix(
                r.0@,
                " level_path "@ + mode_operator(self.search_mode) + " text2ltree($1)"@,
            ),
    {
        if self.simple {
            let q = String::from_str("SELECT DISTINCT 
                name
            FROM 
                role_view ORDER BY name");
            let p: Vec<String> = Vec::new();
            assert(p.deep_view() =~= roles_params(*self));
            return (q, p);
        }
        let (names, params) = self.entries();
        proof {
            assert forall|k: int| 0 <= k < params.len() implies params.deep_view()[k]
                == roles_params(*self)[k] by {
                assert(params@[k]@ == roles_entries(*self)[k].1);
            }
            assert(params.deep_view() =~= roles_params(*self));
        }
        let op = self.search_mode.to_symbol();
        let mut query_str = String::from_str("SELECT DISTINCT 
                role,
                level,
                platform,
                site 
            FROM 
                versionpin_view");
        if names.len() > 0 {
            query_str.append(" WHERE ");
            let c = conditions_text(&names, &params, op, Ghost(roles_entries(*self)));
            query_str.append(c.as_str());
        }
        let t = self.tail_text();
        query_str.append(t.as_str());
        proof {
            assert(query_str@ == roles_query(*self));
            if self.level is Some && !self.level.unwrap()@.contains('%') {
                law_roles_compare_by_mode(*self);
            }
        }
        (query_str, params)
    }
}

/// The conditions on the coordinates named by `names` with the values in
/// `params`.
fn conditions_text(
    names: &Vec<&'static str>,
    params: &Vec<String>,
    op: &str,
    Ghost(entries): Ghost<Seq<(Seq<char>, Seq<char>)>>,
) -> (r: String)
    requires
        names.len() == entries.len(),
        params.len() == entries.len(),
        entries.len() <= 4,
        forall|k: int|
            0 <= k < names.len() ==> #[trigger] names@[k]@ == entries[k].0 && params@[k]@
                == entries[k].1,
    ensures
        r@ == roles_conditions(entries, op@),
{
    let mut s = String::new();
    let mut i: usize = 0;
    while i < names.len()
        invariant
            i <= names.len(),
            names.len() == entries.len(),
            params.len() == entries.len(),
            entries.len() <= 4,
            forall|k: int|
                0 <= k < names.len() ==> #[trigger] names@[k]@ == entries[k].0 && params@[k]@
                    == entries[k].1,
            s@ == roles_conditions(entries.take(i as int), op@),
        decreases names.len() - i,
    {
        assert(entries.take(i as int + 1).drop_last() =~= entries.take(i as int));
        if i > 0 {
            s.append(" AND ");
        }
        s.append(" ");
        s.append(names[i]);
        let is_like = has_char(params[i].as_str(), '%');
        let c = prep_query("_path", op, (i + 1) as i32, is_like);
        s.append(c.as_str());
        proof {
            let t = entries.take(i as int + 1);
            assert(t.last() == entries[i as int]);
            assert(s@ =~= roles_conditions(t, op@));
        }
        i = i + 1;
    }
    assert(entries.take(names.len() as int) =~= entries);
    s
}

/// The ORDER BY clause for the given attributes.
fn order_text(order: &Vec<SearchAttribute>) -> (r: String)
    ensures
        r@ == " ORDER BY "@ + join(
            order@.map_values(|a: SearchAttribute| role_order_column(a)),
            ","@,
        ),
{
    let mut cols: Vec<String> = Vec::new();
    let mut i: usize = 0;
    while i < order.len()
        invariant
            i <= order.len(),
            cols.len() == i,
            forall|j: int| 0 <= j < i ==> #[trigger] cols@[j]@ == role_order_column(order@[j]),
        decreases order.len() - i,
    {
        cols.push(String::from_str(match_attrib(&order[i])));
        i = i + 1;
    }
    assert(cols.deep_view() =~= order@.map_values(|a: SearchAttribute| role_order_column(a)));
    let joined = join_with(&cols, ",");
    let mut s = String::from_str(" ORDER BY ");
    s.append(joined.as_str());
    s
}


} // verus!
