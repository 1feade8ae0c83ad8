//! Search for the levels that have been defined.
use crate::coords_error::CoordsError;
use crate::db::search_attribute::{OrderDirection, ParseError};
use crate::text::{decimal, has_infix, join, join_with, push_decimal, str_eq};
use crate::db::utils::{is_int, is_text, QueryParam};
use crate::types::IdType;
use vstd::prelude::*;

verus! {

/// The columns that levels may be ordered by.
#[derive(Debug, PartialEq, Eq, PartialOrd, Ord, Clone, Copy, Structural)]
pub enum OrderLevelBy {
    Name,
    Category,
}

/// The OrderLevelBy that a name stands for, or `None` for a name that stands
/// for none.
pub open spec fn parse_order_level_by(s: Seq<char>) -> Option<OrderLevelBy> {
    if s == "name"@ || s == "Name"@ || s == "NAME"@ {
        Some(OrderLevelBy::Name)
    } else if s == "show"@ || s == "Show"@ || s == "SHOW"@ {
        Some(OrderLevelBy::Category)
    } else {
        None
    }
}

/// The name of a OrderLevelBy, as it is displayed.
pub open spec fn order_level_by_text(x: OrderLevelBy) -> Seq<char> {
    match x {
        OrderLevelBy::Name => "name"@,
        OrderLevelBy::Category => "show"@,
    }
}

/// Parsing the displayed name of a OrderLevelBy gives it back.
pub proof fn lemma_order_level_by_round_trip(x: OrderLevelBy)
    ensures
        parse_order_level_by(order_level_by_text(x)) == Some(x),
{
    match x {
        OrderLevelBy::Name => {
            reveal_strlit("name");
        },
        OrderLevelBy::Category => {
            reveal_strlit("show");
            reveal_strlit("name");
            assert("show"@[0] != "name"@[0]);
            reveal_strlit("Name");
            assert("show"@[0] != "Name"@[0]);
            reveal_strlit("NAME");
            assert("show"@[0] != "NAME"@[0]);
        },
    }
}

impl OrderLevelBy {
    /// The OrderLevelBy named by `s`.
    pub fn from_str(s: &str) -> (r: Result<OrderLevelBy, ParseError>)
        ensures
            match r {
                Ok(x) => parse_order_level_by(s@) == Some(x),
                Err(_) => parse_order_level_by(s@) is None,
            },
    {
        if str_eq(s, "name") || str_eq(s, "Name") || str_eq(s, "NAME") {
            return Ok(OrderLevelBy::Name);
        }
        if str_eq(s, "show") || str_eq(s, "Show") || str_eq(s, "SHOW") {
            return Ok(OrderLevelBy::Category);
        }
        Err(ParseError::VariantNotFound)
    }

    /// The name, as it is displayed.
    pub fn as_str(&self) -> (r: &'static str)
        ensures
            r@ == order_level_by_text(*self),
    {
        match self {
            OrderLevelBy::Name => "name",
            OrderLevelBy::Category => "show",
        }
    }

    /// The name, as it is displayed.
    pub fn to_string(&self) -> (r: String)
        ensures
            r@ == order_level_by_text(*self),
    {
        String::from_str(self.as_str())
    }
}

/// The ORDER BY clause: the given columns, or the name.
pub open spec fn order_level_by_clause(order: Option<Vec<OrderLevelBy>>) -> Seq<char> {
    match order {
        Some(v) => " ORDER BY "@ + join(v@.map_values(|a: OrderLevelBy| order_level_by_text(a)), ","@),
        None => "  ORDER BY name"@,
    }
}

/// The ORDER BY clause: the given columns, or the name.
fn order_level_by_order_clause(order: &Option<Vec<OrderLevelBy>>) -> (r: String)
    ensures
        r@ == order_level_by_clause(*order),
{
    match order {
        Some(v) => {
            let mut cols: Vec<String> = Vec::new();
            let mut i: usize = 0;
            while i < v.len()
                invariant
                    i <= v.len(),
                    cols.len() == i,
                    forall|j: int| 0 <= j < i ==> #[trigger] cols@[j]@ == order_level_by_text(v@[j]),
                decreases v.len() - i,
            {
                cols.push(v[i].to_string());
                i = i + 1;
            }
            assert(cols.deep_view() =~= v@.map_values(|a: OrderLevelBy| order_level_by_text(a)));
            let joined = join_with(&cols, ",");
            let mut s = String::from_str(" ORDER BY ");
            s.append(joined.as_str());
            s
        },
        None => String::from_str("  ORDER BY name"),
    }
}

/// Errors of a level search.
#[derive(Debug)]
pub enum FindAllLevelsError {
    /// A distribution could not be made.
    DistributionNewError { msg: String, source: CoordsError },
    /// Coordinates could not be made.
    CoordsTryFromPartsError { coords: String, source: CoordsError },
}

/// A row of a level search.
#[derive(Debug, PartialEq, Eq)]
pub struct FindAllLevelsRow {
    pub level: String,
    pub show: String,
}

impl FindAllLevelsRow {
    /// A row of the given names.
    pub fn new(level: String, show: String) -> (r: FindAllLevelsRow)
        ensures
            r == (FindAllLevelsRow { level, show }),
    {
        FindAllLevelsRow { level, show }
    }

    /// A row from the names a query returned.
    pub fn try_from_parts(level: &str, show: &str) -> (r: Result<FindAllLevelsRow, FindAllLevelsError>)
        ensures
            r matches Ok(row) && row.level@ == level@ && row.show@ == show@,
    {
        Ok(Self::new(String::from_str(level), String::from_str(show)))
    }

    /// A row from the names a query returned.
    pub fn from_parts(level: &str, show: &str) -> (r: FindAllLevelsRow)
        ensures
            r.level@ == level@ && r.show@ == show@,
    {
        match Self::try_from_parts(level, show) {
            Ok(row) => row,
            Err(_) => FindAllLevelsRow { level: String::new(), show: String::new() },
        }
    }

    /// The row as it is displayed: `level  (show)`.
    pub fn to_string(&self) -> (r: String)
        ensures
            r@ == self.level@ + "  ("@ + self.show@ + ")"@,
    {
        let mut s = self.level.clone();
        s.append("  (");
        s.append(self.show.as_str());
        s.append(")");
        s
    }
}

/// A search for levels.
pub struct FindAllLevels<'a> {
    /// The database connection the search runs on.
    pub client: &'a mut postgres::Client,
    pub level: Option<&'a str>,
    pub show: Option<&'a str>,
    pub depth: Option<u8>,
    pub order_by: Option<Vec<OrderLevelBy>>,
    pub order_direction: Option<OrderDirection>,
    pub limit: Option<IdType>,
}

/// The fields of a search other than its connection.
pub open spec fn same_levels_search(a: FindAllLevels, b: FindAllLevels) -> bool {
    &&& a.level == b.level
    &&& a.show == b.show
    &&& a.depth == b.depth
    &&& a.order_by == b.order_by
    &&& a.order_direction == b.order_direction
    &&& a.limit == b.limit
}

/// The search restricts the show: one is given, and it is not `any`.
pub open spec fn restricts_show(f: FindAllLevels) -> bool {
    f.show matches Some(s) && s@ != "any"@
}

/// The query text of a level search: levels other than `any`, of the show
/// and at the depth where given, ordered by the given columns or by name.
pub open spec fn levels_query(f: FindAllLevels) -> Seq<char> {
    "SELECT DISTINCT 
                name,
                show
            FROM 
                level_view WHERE name <> 'any'"@ + (if restricts_show(f) {
        " AND show = $1"@
    } else {
        Seq::empty()
    }) + (if f.depth is Some {
        " AND nlevel(path) = $"@ + decimal(if restricts_show(f) {
            2nat
        } else {
            1nat
        })
    } else {
        Seq::empty()
    }) + order_level_by_clause(f.order_by)
}

/// A level search given a show other than `any` restricts the `show`
/// column of the levels to its first parameter.
pub proof fn law_levels_restrict_show(f: FindAllLevels)
    requires
        f.show matches Some(s) && s@ != "any"@,
    ensures
        has_infix(levels_query(f), " AND show = $1"@),
{
    let q = levels_query(f);
    let head = "SELECT DISTINCT 
                name,
                show
            FROM 
                level_view WHERE name <> 'any'"@;
    let x = " AND show = $1"@;
    let k: int = head.len() as int;
    assert(q.subrange(k, k + x.len()) =~= x);
}

impl<'a> FindAllLevels<'a> {
    /// A search for every level on `client`.
    pub fn new(client: &'a mut postgres::Client) -> (r: Self)
        ensures
            r.level is None,
            r.show is None,
            r.depth is None,
            r.order_by is None,
            r.order_direction is None,
            r.limit is None,
    {
        FindAllLevels {
            client,
            show: None,
            level: None,
            depth: None,
            order_by: None,
            order_direction: None,
            limit: None,
        }
    }

    /// Set the level.
    pub fn level(&mut self, level_n: &'a str) -> (r: &mut Self)
        ensures
            same_levels_search(*r, FindAllLevels { level: Some(level_n), ..*old(self) }),
            *final(self) == *final(r),
    {
        self.level = Some(level_n);
        self
    }

    /// Search the levels of this show.
    pub fn show(&mut self, show_n: &'a str) -> (r: &mut Self)
        ensures
            same_levels_search(*r, FindAllLevels { show: Some(show_n), ..*old(self) }),
            *final(self) == *final(r),
    {
        self.show = Some(show_n);
        self
    }

    /// Search the levels this deep below the facility.
    pub fn depth(&mut self, depth_n: u8) -> (r: &mut Self)
        ensures
            same_levels_search(*r, FindAllLevels { depth: Some(depth_n), ..*old(self) }),
            *final(self) == *final(r),
    {
        self.depth = Some(depth_n);
        self
    }

    /// Set or clear the show.
    pub fn show_opt(&mut self, show: Option<&'a str>) -> (r: &mut Self)
        ensures
            same_levels_search(*r, FindAllLevels { show: show, ..*old(self) }),
            *final(self) == *final(r),
    {
        self.show = show;
        self
    }

    /// Set or clear the level.
    pub fn level_opt(&mut self, level: Option<&'a str>) -> (r: &mut Self)
        ensures
            same_levels_search(*r, FindAllLevels { level: level, ..*old(self) }),
            *final(self) == *final(r),
    {
        self.level = level;
        self
    }

    /// Set or clear the depth.
    pub fn depth_opt(&mut self, depth: Option<u8>) -> (r: &mut Self)
        ensures
            same_levels_search(*r, FindAllLevels { depth: depth, ..*old(self) }),
            *final(self) == *final(r),
    {
        self.depth = depth;
        self
    }

    /// Set the columns to order by.
    pub fn order_by(&mut self, attributes: Vec<OrderLevelBy>) -> (r: &mut Self)
        ensures
            same_levels_search(*r, FindAllLevels { order_by: Some(attributes), ..*old(self) }),
            *final(self) == *final(r),
    {
        self.order_by = Some(attributes);
        self
    }

    /// Set the direction to order in.
    pub fn order_direction(&mut self, direction: OrderDirection) -> (r: &mut Self)
        ensures
            same_levels_search(*r, FindAllLevels { order_direction: Some(direction), ..*old(self) }),
            *final(self) == *final(r),
    {
        self.order_direction = Some(direction);
        self
    }

    /// Set the largest number of rows to return.
    pub fn limit(&mut self, limit: IdType) -> (r: &mut Self)
        ensures
            same_levels_search(*r, FindAllLevels { limit: Some(limit), ..*old(self) }),
            *final(self) == *final(r),
    {
        self.limit = Some(limit);
        self
    }

    /// The query text and its parameters: the show, then the number of
    /// parts of the levels (the depth and one), where given.
    pub fn get_query_str(&self) -> (r: (String, Vec<QueryParam>))
        requires
            self.depth != Some(255u8),
        ensures
            r.0@ == levels_query(*self),
            r.1.len() == (if restricts_show(*self) {
                1int
            } else {
                0int
            }) + (if self.depth is Some {
                1int
            } else {
                0int
            }),
            restricts_show(*self) ==> is_text(r.1@[0], self.show.unwrap()@),
            (self.show matches Some(s) && s@ != "any"@) ==> has_infix(r.0@, " AND show = $1"@),
            self.depth is Some ==> is_int(r.1@[r.1.len() - 1], self.depth.unwrap() + 1),
    {
        let mut params: Vec<QueryParam> = Vec::new();
        let mut query_str = String::from_str("SELECT DISTINCT 
                name,
                show
            FROM 
                level_view WHERE name <> 'any'");
        let mut cnt: u64 = 1;
        match self.show {
            Some(show) => {
                if !str_eq(show, "any") {
                    query_str.append(" AND show = $1");
                    params.push(QueryParam::Text(String::from_str(show)));
                    cnt = cnt + 1;
                }
            },
            None => {},
        }
        match self.depth {
            Some(d) => {
                let depth: i32 = (d + 1) as i32;
                query_str.append(" AND nlevel(path) = $");
                push_decimal(&mut query_str, cnt);
                params.push(QueryParam::Int(depth));
            },
            None => {},
        }
        let o = order_level_by_order_clause(&self.order_by);
        query_str.append(o.as_str());
        proof {
            if restricts_show(*self) {
                law_levels_restrict_show(*self);
            }
        }
        (query_str, params)
    }
}

} // verus!
