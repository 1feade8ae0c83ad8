//! Search for the roles that have been defined.
use crate::coords_error::CoordsError;
use crate::db::search_attribute::{OrderDirection, ParseError};
use crate::text::{join, join_with, str_eq};
use crate::types::IdType;
use vstd::prelude::*;

verus! {

/// The columns that roles may be ordered by.
#[derive(Debug, PartialEq, Eq, PartialOrd, Ord, Clone, Copy, Structural)]
pub enum OrderRoleBy {
    Name,
    Category,
}

/// The OrderRoleBy that a name stands for, or `None` for a name that stands
/// for none.
pub open spec fn parse_order_role_by(s: Seq<char>) -> Option<OrderRoleBy> {
    if s == "name"@ || s == "Name"@ || s == "NAME"@ {
        Some(OrderRoleBy::Name)
    } else if s == "category"@ || s == "Category"@ || s == "CATEGORY"@ {
        Some(OrderRoleBy::Category)
    } else {
        None
    }
}

/// The name of a OrderRoleBy, as it is displayed.
pub open spec fn order_role_by_text(x: OrderRoleBy) -> Seq<char> {
    match x {
        OrderRoleBy::Name => "name"@,
        OrderRoleBy::Category => "category"@,
    }
}

/// Parsing the displayed name of a OrderRoleBy gives it back.
pub proof fn lemma_order_role_by_round_trip(x: OrderRoleBy)
    ensures
        parse_order_role_by(order_role_by_text(x)) == Some(x),
{
    match x {
        OrderRoleBy::Name => {
            reveal_strlit("name");
        },
        OrderRoleBy::Category => {
            reveal_strlit("category");
            reveal_strlit("name");
            assert("category"@.len() != "name"@.len());
            reveal_strlit("Name");
            assert("category"@.len() != "Name"@.len());
            reveal_strlit("NAME");
            assert("category"@.len() != "NAME"@.len());
        },
    }
}

impl OrderRoleBy {
    /// The OrderRoleBy named by `s`.
    pub fn from_str(s: &str) -> (r: Result<OrderRoleBy, ParseError>)
        ensures
            match r {
                Ok(x) => parse_order_role_by(s@) == Some(x),
                Err(_) => parse_order_role_by(s@) is None,
            },
    {
        if str_eq(s, "name") || str_eq(s, "Name") || str_eq(s, "NAME") {
            return Ok(OrderRoleBy::Name);
        }
        if str_eq(s, "category") || str_eq(s, "Category") || str_eq(s, "CATEGORY") {
            return Ok(OrderRoleBy::Category);
        }
        Err(ParseError::VariantNotFound)
    }

    /// The name, as it is displayed.
    pub fn as_str(&self) -> (r: &'static str)
        ensures
            r@ == order_role_by_text(*self),
    {
        match self {
            OrderRoleBy::Name => "name",
            OrderRoleBy::Category => "category",
        }
    }

    /// The name, as it is displayed.
    pub fn to_string(&self) -> (r: String)
        ensures
            r@ == order_role_by_text(*self),
    {
        String::from_str(self.as_str())
    }
}

/// The categories of roles.
#[derive(Debug, PartialEq, Eq, PartialOrd, Ord, Clone, Copy, Structural)]
pub enum Categories {
    Role,
    Subrole,
    Any,
}

/// The Categories that a name stands for, or `None` for a name that stands
/// for none.
pub open spec fn parse_categories(s: Seq<char>) -> Option<Categories> {
    if s == "role"@ || s == "Role"@ || s == "ROLE"@ {
        Some(Categories::Role)
    } else if s == "subrole"@ || s == "Subrole"@ || s == "SUBROLE"@ {
        Some(Categories::Subrole)
    } else if s == "any"@ || s == "Any"@ || s == "ANY"@ {
        Some(Categories::Any)
    } else {
        None
    }
}

/// The name of a Categories, as it is displayed.
pub open spec fn categories_text(x: Categories) -> Seq<char> {
    match x {
        Categories::Role => "role"@,
        Categories::Subrole => "subrole"@,
        Categories::Any => "any"@,
    }
}

/// Parsing the displayed name of a Categories gives it back.
pub proof fn lemma_categories_round_trip(x: Categories)
    ensures
        parse_categories(categories_text(x)) == Some(x),
{
    match x {
        Categories::Role => {
            reveal_strlit("role");
        },
        Categories::Subrole => {
            reveal_strlit("subrole");
            reveal_strlit("role");
            assert("subrole"@.len() != "role"@.len());
            reveal_strlit("Role");
            assert("subrole"@.len() != "Role"@.len());
            reveal_strlit("ROLE");
            assert("subrole"@.len() != "ROLE"@.len());
        },
        Categories::Any => {
            reveal_strlit("any");
            reveal_strlit("role");
            assert("any"@.len() != "role"@.len());
            reveal_strlit("Role");
            assert("any"@.len() != "Role"@.len());
            reveal_strlit("ROLE");
            assert("any"@.len() != "ROLE"@.len());
            reveal_strlit("subrole");
            assert("any"@.len() != "subrole"@.len());
            reveal_strlit("Subrole");
            assert("any"@.len() != "Subrole"@.len());
            reveal_strlit("SUBROLE");
            assert("any"@.len() != "SUBROLE"@.len());
        },
    }
}

impl Categories {
    /// The Categories named by `s`.
    pub fn from_str(s: &str) -> (r: Result<Categories, ParseError>)
        ensures
            match r {
                Ok(x) => parse_categories(s@) == Some(x),
                Err(_) => parse_categories(s@) is None,
            },
    {
        if str_eq(s, "role") || str_eq(s, "Role") || str_eq(s, "ROLE") {
            return Ok(Categories::Role);
        }
        if str_eq(s, "subrole") || str_eq(s, "Subrole") || str_eq(s, "SUBROLE") {
            return Ok(Categories::Subrole);
        }
        if str_eq(s, "any") || str_eq(s, "Any") || str_eq(s, "ANY") {
            return Ok(Categories::Any);
        }
        Err(ParseError::VariantNotFound)
    }

    /// The name, as it is displayed.
    pub fn as_str(&self) -> (r: &'static str)
        ensures
            r@ == categories_text(*self),
    {
        match self {
            Categories::Role => "role",
            Categories::Subrole => "subrole",
            Categories::Any => "any",
        }
    }

    /// The name, as it is displayed.
    pub fn to_string(&self) -> (r: String)
        ensures
            r@ == categories_text(*self),
    {
        String::from_str(self.as_str())
    }
}

/// The ORDER BY clause: the given columns, or the name.
pub open spec fn order_role_by_clause(order: Option<Vec<OrderRoleBy>>) -> Seq<char> {
    match order {
        Some(v) => " ORDER BY "@ + join(v@.map_values(|a: OrderRoleBy| order_role_by_text(a)), ","@),
        None => "  ORDER BY name"@,
    }
}

/// The ORDER BY clause: the given columns, or the name.
fn order_role_by_order_clause(order: &Option<Vec<OrderRoleBy>>) -> (r: String)
    ensures
        r@ == order_role_by_clause(*order),
{
    match order {
        Some(v) => {
            let mut cols: Vec<String> = Vec::new();
            let mut i: usize = 0;
            while i < v.len()
                invariant
                    i <= v.len(),
                    cols.len() == i,
                    forall|j: int| 0 <= j < i ==> #[trigger] cols@[j]@ == order_role_by_text(v@[j]),
                decreases v.len() - i,
            {
                cols.push(v[i].to_string());
                i = i + 1;
            }
            assert(cols.deep_view() =~= v@.map_values(|a: OrderRoleBy| order_role_by_text(a)));
            let joined = join_with(&cols, ",");
            let mut s = String::from_str(" ORDER BY ");
            s.append(joined.as_str());
            s
        },
        None => String::from_str("  ORDER BY name"),
    }
}

/// Errors of a role search.
#[allow(inconsistent_fields)]
#[derive(Debug)]
pub enum FindAllRolesError {
    /// A distribution could not be made.
    DistributionNewError { msg: String, source: CoordsError },
    /// Coordinates could not be made.
    CoordsTryFromPartsError { coords: String, source: CoordsError },
    /// The database refused the query.
    TokioPostgresError { msg: &'static str, source: tokio_postgres::Error },
}

/// A row of a role search.
#[derive(Debug, PartialEq, Eq)]
pub struct FindAllRolesRow {
    pub role: String,
    pub category: String,
}

impl FindAllRolesRow {
    /// A row of the given names.
    pub fn new(role: String, category: String) -> (r: FindAllRolesRow)
        ensures
            r == (FindAllRolesRow { role, category }),
    {
        FindAllRolesRow { role, category }
    }

    /// A row from the names a query returned.
    pub fn try_from_parts(role: &str, category: &str) -> (r: Result<FindAllRolesRow, FindAllRolesError>)
        ensures
            r matches Ok(row) && row.role@ == role@ && row.category@ == category@,
    {
        Ok(Self::new(String::from_str(role), String::from_str(category)))
    }

    /// A row from the names a query returned.
    pub fn from_parts(role: &str, category: &str) -> (r: FindAllRolesRow)
        ensures
            r.role@ == role@ && r.category@ == category@,
    {
        match Self::try_from_parts(role, category) {
            Ok(row) => row,
            Err(_) => FindAllRolesRow { role: String::new(), category: String::new() },
        }
    }

    /// The row as it is displayed: `role  (category)`.
    pub fn to_string(&self) -> (r: String)
        ensures
            r@ == self.role@ + "  ("@ + self.category@ + ")"@,
    {
        let mut s = self.role.clone();
        s.append("  (");
        s.append(self.category.as_str());
        s.append(")");
        s
    }
}

/// A search for roles.
pub struct FindAllRoles<'a> {
    pub role: Option<&'a str>,
    pub category: Option<&'a str>,
    pub order_by: Option<Vec<OrderRoleBy>>,
    pub order_direction: Option<OrderDirection>,
    pub limit: Option<IdType>,
}

/// The fields of a search other than its connection.
pub open spec fn same_all_roles_search(a: FindAllRoles, b: FindAllRoles) -> bool {
    &&& a.role == b.role
    &&& a.category == b.category
    &&& a.order_by == b.order_by
    &&& a.order_direction == b.order_direction
    &&& a.limit == b.limit
}

/// The search restricts the category: one is given that names a category,
/// and it is not `any` as written.
pub open spec fn restricts_category(f: FindAllRoles) -> bool {
    f.category matches Some(c) && parse_categories(c@) is Some && c@ != "any"@
}

/// The query text of a role search: roles other than `any`, of the
/// category where it restricts one, ordered by the given columns or by
/// name. The role, direction and limit are not used.
pub open spec fn all_roles_query(f: FindAllRoles) -> Seq<char> {
    "SELECT DISTINCT 
                name,
                category
            FROM 
                role_view WHERE name <> 'any'"@ + (if restricts_category(f) {
        " AND category = $1"@
    } else {
        Seq::empty()
    }) + order_role_by_clause(f.order_by)
}

/// The parameters of a role search: the category, where it restricts one.
pub open spec fn all_roles_params(f: FindAllRoles) -> Seq<Seq<char>> {
    if restricts_category(f) {
        seq![f.category.unwrap()@]
    } else {
        Seq::empty()
    }
}

impl<'a> FindAllRoles<'a> {
    /// A search for every role.
    pub fn new() -> (r: Self)
        ensures
            r.role is None,
            r.category is None,
            r.order_by is None,
            r.order_direction is None,
            r.limit is None,
    {
        FindAllRoles { category: None, role: None, order_by: None, order_direction: None, limit: None }
    }

    /// Set the role.
    pub fn role(&mut self, role_n: &'a str) -> (r: &mut Self)
        ensures
            same_all_roles_search(*r, FindAllRoles { role: Some(role_n), ..*old(self) }),
            *final(self) == *final(r),
    {
        self.role = Some(role_n);
        self
    }

    /// Search the roles of this category.
    pub fn category(&mut self, category_n: &'a str) -> (r: &mut Self)
        ensures
            same_all_roles_search(*r, FindAllRoles { category: Some(category_n), ..*old(self) }),
            *final(self) == *final(r),
    {
        self.category = Some(category_n);
        self
    }

    /// Set or clear the category.
    pub fn category_opt(&mut self, category: Option<&'a str>) -> (r: &mut Self)
        ensures
            same_all_roles_search(*r, FindAllRoles { category: category, ..*old(self) }),
            *final(self) == *final(r),
    {
        self.category = category;
        self
    }

    /// Set or clear the role.
    pub fn role_opt(&mut self, role: Option<&'a str>) -> (r: &mut Self)
        ensures
            same_all_roles_search(*r, FindAllRoles { role: role, ..*old(self) }),
            *final(self) == *final(r),
    {
        self.role = role;
        self
    }

    /// Set the columns to order by.
    pub fn order_by(&mut self, attributes: Vec<OrderRoleBy>) -> (r: &mut Self)
        ensures
            same_all_roles_search(*r, FindAllRoles { order_by: Some(attributes), ..*old(self) }),
            *final(self) == *final(r),
    {
        self.order_by = Some(attributes);
        self
    }

    /// Set or clear the columns to order by.
    pub fn order_by_opt(&mut self, attributes: Option<Vec<OrderRoleBy>>) -> (r: &mut Self)
        ensures
            same_all_roles_search(*r, FindAllRoles { order_by: attributes, ..*old(self) }),
            *final(self) == *final(r),
    {
        self.order_by = attributes;
        self
    }

    /// Set the direction to order in.
    pub fn order_direction(&mut self, direction: OrderDirection) -> (r: &mut Self)
        ensures
            same_all_roles_search(*r, FindAllRoles { order_direction: Some(direction), ..*old(self) }),
            *final(self) == *final(r),
    {
        self.order_direction = Some(direction);
        self
    }

    /// Set or clear the direction to order in.
    pub fn order_direction_opt(&mut self, direction: Option<OrderDirection>) -> (r: &mut Self)
        ensures
            same_all_roles_search(*r, FindAllRoles { order_direction: direction, ..*old(self) }),
            *final(self) == *final(r),
    {
        self.order_direction = direction;
        self
    }

    /// Set the largest number of rows to return.
    pub fn limit(&mut self, limit: IdType) -> (r: &mut Self)
        ensures
            same_all_roles_search(*r, FindAllRoles { limit: Some(limit), ..*old(self) }),
            *final(self) == *final(r),
    {
        self.limit = Some(limit);
        self
    }

    /// Set or clear the largest number of rows to return.
    pub fn limit_opt(&mut self, limit: Option<IdType>) -> (r: &mut Self)
        ensures
            same_all_roles_search(*r, FindAllRoles { limit: limit, ..*old(self) }),
            *final(self) == *final(r),
    {
        self.limit = limit;
        self
    }

    /// The query text and its parameters.
    pub fn get_query_str(&self) -> (r: (String, Vec<String>))
        ensures
            r.0@ == all_roles_query(*self),
            r.1.deep_view() == all_roles_params(*self),
    {
        let mut params: Vec<String> = Vec::new();
        let mut query_str = String::from_str("SELECT DISTINCT 
                name,
                category
            FROM 
                role_view WHERE name <> 'any'");
        match self.category {
            Some(category) => {
                if Categories::from_str(category).is_ok() && !str_eq(category, "any") {
                    query_str.append(" AND category = $1");
                    params.push(String::from_str(category));
                }
            },
            None => {},
        }
        let o = order_role_by_order_clause(&self.order_by);
        query_str.append(o.as_str());
        assert(params.deep_view() =~= all_roles_params(*self));
        (query_str, params)
    }
}

} // verus!
