//! Search for the packages that have been defined.
use crate::coords_error::CoordsError;
use crate::db::search_attribute::ParseError;
use crate::text::{has_char, str_eq};
use vstd::prelude::*;

verus! {

/// The columns that packages may be ordered by.
#[derive(Debug, PartialEq, Eq, PartialOrd, Ord, Clone, Copy, Structural)]
pub enum OrderPackageBy {
    Name,
}

/// The OrderPackageBy that a name stands for, or `None` for a name that stands
/// for none.
pub open spec fn parse_order_package_by(s: Seq<char>) -> Option<OrderPackageBy> {
    if s == "name"@ || s == "Name"@ || s == "NAME"@ {
        Some(OrderPackageBy::Name)
    } else {
        None
    }
}

/// The name of a OrderPackageBy, as it is displayed.
pub open spec fn order_package_by_text(x: OrderPackageBy) -> Seq<char> {
    match x {
        OrderPackageBy::Name => "name"@,
    }
}

/// Parsing the displayed name of a OrderPackageBy gives it back.
pub proof fn lemma_order_package_by_round_trip(x: OrderPackageBy)
    ensures
        parse_order_package_by(order_package_by_text(x)) == Some(x),
{
    match x {
        OrderPackageBy::Name => {
            reveal_strlit("name");
        },
    }
}

impl OrderPackageBy {
    /// The OrderPackageBy named by `s`.
    pub fn from_str(s: &str) -> (r: Result<OrderPackageBy, ParseError>)
        ensures
            match r {
                Ok(x) => parse_order_package_by(s@) == Some(x),
                Err(_) => parse_order_package_by(s@) is None,
            },
    {
        if str_eq(s, "name") || str_eq(s, "Name") || str_eq(s, "NAME") {
            return Ok(OrderPackageBy::Name);
        }
        Err(ParseError::VariantNotFound)
    }

    /// The name, as it is displayed.
    pub fn as_str(&self) -> (r: &'static str)
        ensures
            r@ == order_package_by_text(*self),
    {
        match self {
            OrderPackageBy::Name => "name",
        }
    }

    /// The name, as it is displayed.
    pub fn to_string(&self) -> (r: String)
        ensures
            r@ == order_package_by_text(*self),
    {
        String::from_str(self.as_str())
    }
}

/// Errors of a package search.
#[allow(inconsistent_fields)]
#[derive(Debug)]
pub enum FindAllPackagesError {
    /// A distribution could not be made.
    DistributionNewError { msg: String, source: CoordsError },
    /// Coordinates could not be made.
    CoordsTryFromPartsError { coords: String, source: CoordsError },
    /// The database refused the query.
    TokioPostgresError { msg: &'static str, source: tokio_postgres::Error },
}

/// A row of a package search.
#[derive(Debug, PartialEq, Eq)]
pub struct FindAllPackagesRow {
    pub name: String,
}

impl FindAllPackagesRow {
    /// A row of the given name.
    pub fn new(name: String) -> (r: FindAllPackagesRow)
        ensures
            r == (FindAllPackagesRow { name }),
    {
        FindAllPackagesRow { name }
    }

    /// A row from the name a query returned.
    pub fn try_from_parts(name: &str) -> (r: Result<FindAllPackagesRow, FindAllPackagesError>)
        ensures
            r matches Ok(row) && row.name@ == name@,
    {
        Ok(Self::new(String::from_str(name)))
    }

    /// A row from the name a query returned.
    pub fn from_parts(name: &str) -> (r: FindAllPackagesRow)
        ensures
            r.name@ == name@,
    {
        match Self::try_from_parts(name) {
            Ok(row) => row,
            Err(_) => FindAllPackagesRow { name: String::new() },
        }
    }

    /// The row as it is displayed: the name.
    pub fn to_string(&self) -> (r: String)
        ensures
            r@ == self.name@,
    {
        self.name.clone()
    }
}

/// A search for packages.
pub struct FindAllPackages<'a> {
    pub name: Option<&'a str>,
}

/// The query text of a package search: the packages matching the name
/// where one is given (with LIKE where it holds `%`), by name.
pub open spec fn packages_query(f: FindAllPackages) -> Seq<char> {
    "SELECT 
                name
            FROM 
                package"@ + (match f.name {
        Some(n) => " WHERE name "@ + (if n@.contains('%') {
            "LIKE"@
        } else {
            "="@
        }) + " $1"@,
        None => Seq::empty(),
    }) + "  ORDER BY name"@
}

/// The parameters of a package search: the name, where one is given.
pub open spec fn packages_params(f: FindAllPackages) -> Seq<Seq<char>> {
    match f.name {
        Some(n) => seq![n@],
        None => Seq::empty(),
    }
}

impl<'a> FindAllPackages<'a> {
    /// A search for every package.
    pub fn new() -> (r: Self)
        ensures
            r.name is None,
    {
        FindAllPackages { name: None }
    }

    /// Search for the packages of this name.
    pub fn name(&mut self, name: &'a str) -> (r: &mut Self)
        ensures
            r.name == Some(name),
            *final(self) == *final(r),
    {
        self.name = Some(name);
        self
    }

    /// Set or clear the name searched for.
    pub fn name_opt(&mut self, name: Option<&'a str>) -> (r: &mut Self)
        ensures
            r.name == name,
            *final(self) == *final(r),
    {
        self.name = name;
        self
    }

    /// The query text and its parameters.
    pub fn get_query_str(&self) -> (r: (String, Vec<String>))
        ensures
            r.0@ == packages_query(*self),
            r.1.deep_view() == packages_params(*self),
    {
        let mut params: Vec<String> = Vec::new();
        let mut query_str = String::from_str("SELECT 
                name
            FROM 
                package");
        match self.name {
            Some(name) => {
                let op = if has_char(name, '%') {
                    "LIKE"
                } else {
                    "="
                };
                params.push(String::from_str(name));
                query_str.append(" WHERE name ");
                query_str.append(op);
                query_str.append(" $1");
            },
            None => {},
        }
        query_str.append("  ORDER BY name");
        assert(params.deep_view() =~= packages_params(*self));
        (query_str, params)
    }
}

} // verus!
