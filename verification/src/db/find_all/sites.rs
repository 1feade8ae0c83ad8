//! Search for the sites that have been defined.
use crate::coords_error::CoordsError;
use crate::db::search_attribute::ParseError;
use crate::text::{has_char, str_eq};
use vstd::prelude::*;

verus! {

/// The columns that sites may be ordered by.
#[derive(Debug, PartialEq, Eq, PartialOrd, Ord, Clone, Copy, Structural)]
pub enum OrderSiteBy {
    Name,
}

/// The OrderSiteBy that a name stands for, or `None` for a name that stands
/// for none.
pub open spec fn parse_order_site_by(s: Seq<char>) -> Option<OrderSiteBy> {
    if s == "name"@ || s == "Name"@ || s == "NAME"@ {
        Some(OrderSiteBy::Name)
    } else {
        None
    }
}

/// The name of a OrderSiteBy, as it is displayed.
pub open spec fn order_site_by_text(x: OrderSiteBy) -> Seq<char> {
    match x {
        OrderSiteBy::Name => "name"@,
    }
}

/// Parsing the displayed name of a OrderSiteBy gives it back.
pub proof fn lemma_order_site_by_round_trip(x: OrderSiteBy)
    ensures
        parse_order_site_by(order_site_by_text(x)) == Some(x),
{
    match x {
        OrderSiteBy::Name => {
            reveal_strlit("name");
        },
    }
}

impl OrderSiteBy {
    /// The OrderSiteBy named by `s`.
    pub fn from_str(s: &str) -> (r: Result<OrderSiteBy, ParseError>)
        ensures
            match r {
                Ok(x) => parse_order_site_by(s@) == Some(x),
                Err(_) => parse_order_site_by(s@) is None,
            },
    {
        if str_eq(s, "name") || str_eq(s, "Name") || str_eq(s, "NAME") {
            return Ok(OrderSiteBy::Name);
        }
        Err(ParseError::VariantNotFound)
    }

    /// The name, as it is displayed.
    pub fn as_str(&self) -> (r: &'static str)
        ensures
            r@ == order_site_by_text(*self),
    {
        match self {
            OrderSiteBy::Name => "name",
        }
    }

    /// The name, as it is displayed.
    pub fn to_string(&self) -> (r: String)
        ensures
            r@ == order_site_by_text(*self),
    {
        String::from_str(self.as_str())
    }
}

/// Errors of a site search.
#[allow(inconsistent_fields)]
#[derive(Debug)]
pub enum FindAllSitesError {
    /// A distribution could not be made.
    DistributionNewError { msg: String, source: CoordsError },
    /// Coordinates could not be made.
    CoordsTryFromPartsError { coords: String, source: CoordsError },
    /// The database refused the query.
    TokioPostgresError { msg: &'static str, source: tokio_postgres::Error },
}

/// A row of a site search.
#[derive(Debug, PartialEq, Eq)]
pub struct FindAllSitesRow {
    pub name: String,
}

impl FindAllSitesRow {
    /// A row of the given name.
    pub fn new(name: String) -> (r: FindAllSitesRow)
        ensures
            r == (FindAllSitesRow { name }),
    {
        FindAllSitesRow { name }
    }

    /// A row from the name a query returned.
    pub fn try_from_parts(site: &str) -> (r: Result<FindAllSitesRow, FindAllSitesError>)
        ensures
            r matches Ok(row) && row.name@ == site@,
    {
        Ok(Self::new(String::from_str(site)))
    }

    /// A row from the name a query returned.
    pub fn from_parts(site: &str) -> (r: FindAllSitesRow)
        ensures
            r.name@ == site@,
    {
        match Self::try_from_parts(site) {
            Ok(row) => row,
            Err(_) => FindAllSitesRow { name: String::new() },
        }
    }

    /// The row as it is displayed: the name.
    pub fn to_string(&self) -> (r: String)
        ensures
            r@ == self.name@,
    {
        self.name.clone()
    }
}

/// A search for sites.
pub struct FindAllSites<'a> {
    pub name: Option<&'a str>,
}

/// The query text of a site search: sites other than `any`, those matching
/// the name where one is given (with LIKE where it holds `%`), by name.
pub open spec fn sites_query(f: FindAllSites) -> Seq<char> {
    "SELECT DISTINCT 
                name
            FROM 
                site_view WHERE name <> 'any'"@ + (match f.name {
        Some(n) => " AND name "@ + (if n@.contains('%') {
            "LIKE"@
        } else {
            "="@
        }) + " $1"@,
        None => Seq::empty(),
    }) + "  ORDER BY name"@
}

/// The parameters of a site search: the name, where one is given.
pub open spec fn sites_params(f: FindAllSites) -> Seq<Seq<char>> {
    match f.name {
        Some(n) => seq![n@],
        None => Seq::empty(),
    }
}

impl<'a> FindAllSites<'a> {
    /// A search for every site.
    pub fn new() -> (r: Self)
        ensures
            r.name is None,
    {
        FindAllSites { name: None }
    }

    /// Search for the sites of this name.
    pub fn name(&mut self, name: &'a str) -> (r: &mut Self)
        ensures
            r.name == Some(name),
            *final(self) == *final(r),
    {
        self.name = Some(name);
        self
    }

    /// Set or clear the name searched for.
    pub fn name_opt(&mut self, name: Option<&'a str>) -> (r: &mut Self)
        ensures
            r.name == name,
            *final(self) == *final(r),
    {
        self.name = name;
        self
    }

    /// The query text and its parameters.
    pub fn get_query_str(&self) -> (r: (String, Vec<String>))
        ensures
            r.0@ == sites_query(*self),
            r.1.deep_view() == sites_params(*self),
    {
        let mut params: Vec<String> = Vec::new();
        let mut query_str = String::from_str("SELECT DISTINCT 
                name
            FROM 
                site_view WHERE name <> 'any'");
        match self.name {
            Some(name) => {
                let op = if has_char(name, '%') {
                    "LIKE"
                } else {
                    "="
                };
                params.push(String::from_str(name));
                query_str.append(" AND name ");
                query_str.append(op);
                query_str.append(" $1");
            },
            None => {},
        }
        query_str.append("  ORDER BY name");
        assert(params.deep_view() =~= sites_params(*self));
        (query_str, params)
    }
}

} // verus!
