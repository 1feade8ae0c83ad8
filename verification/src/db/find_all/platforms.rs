//! Search for the platforms that have been defined.
use crate::coords_error::CoordsError;
use crate::db::search_attribute::{OrderDirection, ParseError};
use crate::text::{join, join_with, str_eq};
use crate::types::IdType;
use vstd::prelude::*;

verus! {

/// The columns that platforms may be ordered by.
#[derive(Debug, PartialEq, Eq, PartialOrd, Ord, Clone, Copy, Structural)]
pub enum OrderPlatformBy {
    Name,
}

/// The OrderPlatformBy that a name stands for, or `None` for a name that stands
/// for none.
pub open spec fn parse_order_platform_by(s: Seq<char>) -> Option<OrderPlatformBy> {
    if s == "name"@ || s == "Name"@ || s == "NAME"@ {
        Some(OrderPlatformBy::Name)
    } else {
        None
    }
}

/// The name of a OrderPlatformBy, as it is displayed.
pub open spec fn order_platform_by_text(x: OrderPlatformBy) -> Seq<char> {
    match x {
        OrderPlatformBy::Name => "name"@,
    }
}

/// Parsing the displayed name of a OrderPlatformBy gives it back.
pub proof fn lemma_order_platform_by_round_trip(x: OrderPlatformBy)
    ensures
        parse_order_platform_by(order_platform_by_text(x)) == Some(x),
{
    match x {
        OrderPlatformBy::Name => {
            reveal_strlit("name");
        },
    }
}

impl OrderPlatformBy {
    /// The OrderPlatformBy named by `s`.
    pub fn from_str(s: &str) -> (r: Result<OrderPlatformBy, ParseError>)
        ensures
            match r {
                Ok(x) => parse_order_platform_by(s@) == Some(x),
                Err(_) => parse_order_platform_by(s@) is None,
            },
    {
        if str_eq(s, "name") || str_eq(s, "Name") || str_eq(s, "NAME") {
            return Ok(OrderPlatformBy::Name);
        }
        Err(ParseError::VariantNotFound)
    }

    /// The name, as it is displayed.
    pub fn as_str(&self) -> (r: &'static str)
        ensures
            r@ == order_platform_by_text(*self),
    {
        match self {
            OrderPlatformBy::Name => "name",
        }
    }

    /// The name, as it is displayed.
    pub fn to_string(&self) -> (r: String)
        ensures
            r@ == order_platform_by_text(*self),
    {
        String::from_str(self.as_str())
    }
}

/// The ORDER BY clause: the given columns, or the name.
pub open spec fn order_platform_by_clause(order: Option<Vec<OrderPlatformBy>>) -> Seq<char> {
    match order {
        Some(v) => " ORDER BY "@ + join(v@.map_values(|a: OrderPlatformBy| order_platform_by_text(a)), ","@),
        None => "  ORDER BY name"@,
    }
}

/// The ORDER BY clause: the given columns, or the name.
fn order_platform_by_order_clause(order: &Option<Vec<OrderPlatformBy>>) -> (r: String)
    ensures
        r@ == order_platform_by_clause(*order),
{
    match order {
        Some(v) => {
            let mut cols: Vec<String> = Vec::new();
            let mut i: usize = 0;
            while i < v.len()
                invariant
                    i <= v.len(),
                    cols.len() == i,
                    forall|j: int| 0 <= j < i ==> #[trigger] cols@[j]@ == order_platform_by_text(v@[j]),
                decreases v.len() - i,
            {
                cols.push(v[i].to_string());
                i = i + 1;
            }
            assert(cols.deep_view() =~= v@.map_values(|a: OrderPlatformBy| order_platform_by_text(a)));
            let joined = join_with(&cols, ",");
            let mut s = String::from_str(" ORDER BY ");
            s.append(joined.as_str());
            s
        },
        None => String::from_str("  ORDER BY name"),
    }
}

/// Errors of a platform search.
#[derive(Debug)]
pub enum FindAllPlatformsError {
    /// A distribution could not be made.
    DistributionNewError { msg: String, source: CoordsError },
    /// Coordinates could not be made.
    CoordsTryFromPartsError { coords: String, source: CoordsError },
}

/// A row of a platform search.
#[derive(Debug, PartialEq, Eq)]
pub struct FindAllPlatformsRow {
    pub name: String,
}

impl FindAllPlatformsRow {
    /// A row of the given name.
    pub fn new(name: String) -> (r: FindAllPlatformsRow)
        ensures
            r == (FindAllPlatformsRow { name }),
    {
        FindAllPlatformsRow { name }
    }

    /// A row from the name a query returned.
    pub fn try_from_parts(platform: &str) -> (r: Result<FindAllPlatformsRow, FindAllPlatformsError>)
        ensures
            r matches Ok(row) && row.name@ == platform@,
    {
        Ok(Self::new(String::from_str(platform)))
    }

    /// A row from the name a query returned.
    pub fn from_parts(platform: &str) -> (r: FindAllPlatformsRow)
        ensures
            r.name@ == platform@,
    {
        match Self::try_from_parts(platform) {
            Ok(row) => row,
            Err(_) => FindAllPlatformsRow { name: String::new() },
        }
    }

    /// The row as it is displayed: the name.
    pub fn to_string(&self) -> (r: String)
        ensures
            r@ == self.name@,
    {
        self.name.clone()
    }
}

/// A search for platforms.
pub struct FindAllPlatforms<'a> {
    /// The database connection the search runs on.
    pub client: &'a mut postgres::Client,
    pub name: Option<&'a str>,
    pub order_by: Option<Vec<OrderPlatformBy>>,
    pub order_direction: Option<OrderDirection>,
    pub limit: Option<IdType>,
}

/// The fields of a search other than its connection.
pub open spec fn same_platforms_search(a: FindAllPlatforms, b: FindAllPlatforms) -> bool {
    &&& a.name == b.name
    &&& a.order_by == b.order_by
    &&& a.order_direction == b.order_direction
    &&& a.limit == b.limit
}

/// The query text of a platform search: every platform, ordered by the
/// given columns or by name. The name, direction and limit are not used.
pub open spec fn platforms_query(f: FindAllPlatforms) -> Seq<char> {
    "SELECT DISTINCT 
                name
            FROM 
                platform_view"@ + order_platform_by_clause(f.order_by)
}

impl<'a> FindAllPlatforms<'a> {
    /// A search for every platform on `client`.
    pub fn new(client: &'a mut postgres::Client) -> (r: Self)
        ensures
            r.name is None,
            r.order_by is None,
            r.order_direction is None,
            r.limit is None,
    {
        FindAllPlatforms { client, name: None, order_by: None, order_direction: None, limit: None }
    }

    /// Search for the platforms of this name.
    pub fn name(&mut self, name: &'a str) -> (r: &mut Self)
        ensures
            same_platforms_search(*r, FindAllPlatforms { name: Some(name), ..*old(self) }),
            *final(self) == *final(r),
    {
        self.name = Some(name);
        self
    }

    /// Set or clear the name searched for.
    pub fn name_opt(&mut self, name: Option<&'a str>) -> (r: &mut Self)
        ensures
            same_platforms_search(*r, FindAllPlatforms { name: name, ..*old(self) }),
            *final(self) == *final(r),
    {
        self.name = name;
        self
    }

    /// Set the columns to order by.
    pub fn order_by(&mut self, attributes: Vec<OrderPlatformBy>) -> (r: &mut Self)
        ensures
            same_platforms_search(*r, FindAllPlatforms { order_by: Some(attributes), ..*old(self) }),
            *final(self) == *final(r),
    {
        self.order_by = Some(attributes);
        self
    }

    /// Set the direction to order in.
    pub fn order_direction(&mut self, direction: OrderDirection) -> (r: &mut Self)
        ensures
            same_platforms_search(*r, FindAllPlatforms { order_direction: Some(direction), ..*old(self) }),
            *final(self) == *final(r),
    {
        self.order_direction = Some(direction);
        self
    }

    /// Set the largest number of rows to return.
    pub fn limit(&mut self, limit: IdType) -> (r: &mut Self)
        ensures
            same_platforms_search(*r, FindAllPlatforms { limit: Some(limit), ..*old(self) }),
            *final(self) == *final(r),
    {
        self.limit = Some(limit);
        self
    }

    /// The query text; the query has no parameters.
    pub fn get_query_str(&self) -> (r: String)
        ensures
            r@ == platforms_query(*self),
    {
        let mut query_str = String::from_str("SELECT DISTINCT 
                name
            FROM 
                platform_view");
        let o = order_platform_by_order_clause(&self.order_by);
        query_str.append(o.as_str());
        query_str
    }
}

} // verus!
