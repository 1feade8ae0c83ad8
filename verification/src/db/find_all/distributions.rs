//! Search for the distributions: the versions of packages.
use crate::coords_error::CoordsError;
use crate::db::search_attribute::{order_direction_text, OrderDirection};
use crate::text::{
    count_char, has_char, has_infix, lemma_infix_concat, lemma_split_len, lemma_split_two,
    split_char, split_on,
};
use crate::types::IdType;
use vstd::prelude::*;

verus! {

/// Errors of a distribution search.
#[allow(inconsistent_fields)]
#[derive(Debug)]
pub enum FindAllDistributionsError {
    /// A distribution could not be made.
    DistributionNewError { msg: String, source: CoordsError },
    /// Coordinates could not be made.
    CoordsTryFromPartsError { coords: String, source: CoordsError },
    /// A distribution name is not a package and a version joined by one
    /// dash.
    DistributionError { distribution: String },
    /// The database refused the query.
    TokioPostgresError { msg: &'static str, source: tokio_postgres::Error },
}

/// A row of a distribution search.
#[derive(Debug, PartialEq, Eq)]
pub struct FindAllDistributionsRow {
    pub id: IdType,
    pub package: String,
    pub version: String,
}

/// A row read back from its displayed text is the row: for a package and a
/// version without dashes, `try_from` of `package-version` finds the two
/// again.
pub proof fn lemma_row_text_round_trip(package: Seq<char>, version: Seq<char>)
    requires
        !package.contains('-'),
        !version.contains('-'),
    ensures
        count_char(package + "-"@ + version, '-') == 1,
        split_char(package + "-"@ + version, '-')[0] == package,
        split_char(package + "-"@ + version, '-')[1] == version,
{
    reveal_strlit("-");
    assert("-"@ =~= seq!['-']);
    lemma_split_two(package, version, '-');
}

impl FindAllDistributionsRow {
    /// A row of the given id, package and version.
    pub fn new(id: IdType, package: String, version: String) -> (r: FindAllDistributionsRow)
        ensures
            r == (FindAllDistributionsRow { id, package, version }),
    {
        FindAllDistributionsRow { id, package, version }
    }

    /// A row from the values a query returned.
    pub fn try_from_parts(id: IdType, package: &str, version: &str) -> (r: Result<
        FindAllDistributionsRow,
        FindAllDistributionsError,
    >)
        ensures
            r matches Ok(row) && row.id == id && row.package@ == package@ && row.version@
                == version@,
    {
        Ok(Self::new(id, String::from_str(package), String::from_str(version)))
    }

    /// A row from a distribution name: the package and the version on
    /// either side of its one dash. Fails unless the name holds exactly one
    /// dash.
    pub fn try_from(id: IdType, distribution: &str) -> (r: Result<
        FindAllDistributionsRow,
        FindAllDistributionsError,
    >)
        ensures
            r is Ok <==> count_char(distribution@, '-') == 1,
            r matches Ok(row) ==> row.id == id && row.package@ == split_char(
                distribution@,
                '-',
            )[0] && row.version@ == split_char(distribution@, '-')[1],
            r matches Err(e) ==> e matches FindAllDistributionsError::DistributionError {
                distribution: d,
            } && d@ == distribution@,
    {
        let pieces = split_on(distribution, '-');
        proof {
            lemma_split_len(distribution@, '-');
            assert(pieces.deep_view().len() == pieces@.len());
        }
        if pieces.len() != 2 {
            return Err(
                FindAllDistributionsError::DistributionError {
                    distribution: String::from_str(distribution),
                },
            );
        }
        assert(pieces.deep_view()[0] == pieces@[0]@);
        assert(pieces.deep_view()[1] == pieces@[1]@);
        Ok(Self::new(id, pieces[0].clone(), pieces[1].clone()))
    }

    /// A row from the values a query returned.
    pub fn from_parts(id: IdType, package: &str, version: &str) -> (r: FindAllDistributionsRow)
        ensures
            r.id == id && r.package@ == package@ && r.version@ == version@,
    {
        match Self::try_from_parts(id, package, version) {
            Ok(row) => row,
            Err(_) => FindAllDistributionsRow { id, package: String::new(), version: String::new() },
        }
    }

    /// The row as it is displayed: `package-version`.
    pub fn to_string(&self) -> (r: String)
        ensures
            r@ == self.package@ + "-"@ + self.version@,
    {
        let mut s = self.package.clone();
        s.append("-");
        s.append(self.version.as_str());
        s
    }
}

/// A search for distributions.
pub struct FindAllDistributions<'a> {
    /// The database connection the search runs on.
    pub client: &'a mut tokio_postgres::Client,
    pub package: Option<&'a str>,
    pub version: Option<&'a str>,
    pub order_direction: Option<OrderDirection>,
}

/// The fields of a search other than its connection.
pub open spec fn same_distributions_search(a: FindAllDistributions, b: FindAllDistributions) -> bool {
    &&& a.package == b.package
    &&& a.version == b.version
    &&& a.order_direction == b.order_direction
}

/// The comparison for a searched value: LIKE where it holds `%`.
pub open spec fn like_or_equal(v: Seq<char>) -> Seq<char> {
    if v.contains('%') {
        "like"@
    } else {
        "="@
    }
}

/// The direction distributions are ordered in: the one given, else
/// descending.
pub open spec fn distributions_direction(f: FindAllDistributions) -> Seq<char> {
    match f.order_direction {
        Some(d) => order_direction_text(d),
        None => "DESC"@,
    }
}

/// The query text of a distribution search: those of the package and of
/// the version where given, by package and version.
pub open spec fn distributions_query(f: FindAllDistributions) -> Seq<char> {
    "SELECT 
                distribution_id,
                package,
                version_name
            FROM 
                distribution_view"@ + (match f.package {
        Some(p) => " WHERE package "@ + like_or_equal(p@) + " $1"@,
        None => Seq::empty(),
    }) + (match f.version {
        Some(v) => if f.package is None {
            " WHERE version_name "@ + like_or_equal(v@) + " $1"@
        } else {
            " AND version_name "@ + like_or_equal(v@) + " $2"@
        },
        None => Seq::empty(),
    }) + "  ORDER BY package "@ + distributions_direction(f) + ", version "@
        + distributions_direction(f)
}

/// The parameters of a distribution search: the package and the version,
/// where given.
pub open spec fn distributions_params(f: FindAllDistributions) -> Seq<Seq<char>> {
    (match f.package {
        Some(p) => seq![p@],
        None => Seq::empty(),
    }) + (match f.version {
        Some(v) => seq![v@],
        None => Seq::empty(),
    })
}

/// Each condition of a distribution search names the parameter that holds
/// its own value: the package is the first parameter and its condition
/// names `$1`; the version follows it, and its condition names `$2` after
/// a package and `$1` without one.
pub proof fn law_distribution_conditions_in_place(f: FindAllDistributions)
    ensures
        f.package matches Some(p) ==> distributions_params(f)[0] == p@
            && has_infix(distributions_query(f), (" WHERE package "@ + like_or_equal(p@) + " $1"@)),
        f.version matches Some(v) ==> (f.package is None ==> (distributions_params(f)[0] == v@
            && has_infix(distributions_query(f), (" WHERE version_name "@ + like_or_equal(v@) + " $1"@)))),
        f.version matches Some(v) ==> (f.package is Some ==> (distributions_params(f)[1] == v@
            && has_infix(distributions_query(f), (" AND version_name "@ + like_or_equal(v@) + " $2"@)))),
{
    let head = "SELECT 
                distribution_id,
                package,
                version_name
            FROM 
                distribution_view"@;
    let pc = if f.package is None { Seq::<char>::empty() } else { (" WHERE package "@ + like_or_equal(f.package.unwrap()@) + " $1"@) };
    let vc = if f.version is None { Seq::<char>::empty() } else if f.package is None { (" WHERE version_name "@ + like_or_equal(f.version.unwrap()@) + " $1"@) } else { (" AND version_name "@ + like_or_equal(f.version.unwrap()@) + " $2"@) };
    let tail = "  ORDER BY package "@ + distributions_direction(f) + ", version "@
        + distributions_direction(f);
    let q = distributions_query(f);
    assert(q =~= head + pc + (vc + tail));
    lemma_infix_concat(head, pc, vc + tail);
    assert(q =~= (head + pc) + vc + tail);
    lemma_infix_concat(head + pc, vc, tail);
}

impl<'a> FindAllDistributions<'a> {
    /// A search for every distribution on `client`.
    pub fn new(client: &'a mut tokio_postgres::Client) -> (r: Self)
        ensures
            r.package is None,
            r.version is None,
            r.order_direction is None,
    {
        FindAllDistributions { client, package: None, version: None, order_direction: None }
    }

    /// Search for the distributions of this package.
    pub fn package(&mut self, package: &'a str) -> (r: &mut Self)
        ensures
            same_distributions_search(*r, FindAllDistributions { package: Some(package), ..*old(self) }),
            *final(self) == *final(r),
    {
        self.package = Some(package);
        self
    }

    /// Search for the distributions of this version.
    pub fn version(&mut self, version: &'a str) -> (r: &mut Self)
        ensures
            same_distributions_search(*r, FindAllDistributions { version: Some(version), ..*old(self) }),
            *final(self) == *final(r),
    {
        self.version = Some(version);
        self
    }

    /// Set or clear the package.
    pub fn package_opt(&mut self, package: Option<&'a str>) -> (r: &mut Self)
        ensures
            same_distributions_search(*r, FindAllDistributions { package: package, ..*old(self) }),
            *final(self) == *final(r),
    {
        self.package = package;
        self
    }

    /// Set or clear the version.
    pub fn version_opt(&mut self, version: Option<&'a str>) -> (r: &mut Self)
        ensures
            same_distributions_search(*r, FindAllDistributions { version: version, ..*old(self) }),
            *final(self) == *final(r),
    {
        self.version = version;
        self
    }

    /// Set the direction to order in.
    pub fn order_direction(&mut self, direction: OrderDirection) -> (r: &mut Self)
        ensures
            same_distributions_search(*r, FindAllDistributions { order_direction: Some(direction), ..*old(self) }),
            *final(self) == *final(r),
    {
        self.order_direction = Some(direction);
        self
    }

    /// Set or clear the direction to order in.
    pub fn order_direction_opt(&mut self, direction: Option<OrderDirection>) -> (r: &mut Self)
        ensures
            same_distributions_search(*r, FindAllDistributions { order_direction: direction, ..*old(self) }),
            *final(self) == *final(r),
    {
        self.order_direction = direction;
        self
    }

    /// The query text and its parameters.
    pub fn get_query_str(&self) -> (r: (String, Vec<String>))
        ensures
            r.0@ == distributions_query(*self),
            r.1.deep_view() == distributions_params(*self),
            self.package matches Some(p) ==> r.1@[0]@ == p@
                && has_infix(r.0@, (" WHERE package "@ + like_or_equal(p@) + " $1"@)),
            self.version matches Some(v) ==> (self.package is None ==> (r.1@[0]@ == v@
                && has_infix(r.0@, (" WHERE version_name "@ + like_or_equal(v@) + " $1"@)))),
            self.version matches Some(v) ==> (self.package is Some ==> (r.1@[1]@ == v@
                && has_infix(r.0@, (" AND version_name "@ + like_or_equal(v@) + " $2"@)))),
    {
        let mut params: Vec<String> = Vec::new();
        let mut query_str = String::from_str("SELECT 
                distribution_id,
                package,
                version_name
            FROM 
                distribution_view");
        let direction = match &self.order_direction {
            Some(d) => d.as_str(),
            None => "DESC",
        };
        match self.package {
            Some(package) => {
                let q = if has_char(package, '%') {
                    "like"
                } else {
                    "="
                };
                query_str.append(" WHERE package ");
                query_str.append(q);
                query_str.append(" $1");
                params.push(String::from_str(package));
            },
            None => {},
        }
        match self.version {
            Some(version) => {
                let q = if has_char(version, '%') {
                    "like"
                } else {
                    "="
                };
                if self.package.is_none() {
                    query_str.append(" WHERE version_name ");
                    query_str.append(q);
                    query_str.append(" $1");
                } else {
                    query_str.append(" AND version_name ");
                    query_str.append(q);
                    query_str.append(" $2");
                }
                params.push(String::from_str(version));
            },
            None => {},
        }
        query_str.append("  ORDER BY package ");
        query_str.append(direction);
        query_str.append(", version ");
        query_str.append(direction);
        assert(params.deep_view() =~= distributions_params(*self));
        proof {
            assert(query_str@ == distributions_query(*self));
            law_distribution_conditions_in_place(*self);
            if params.len() > 0 {
                assert(params@[0]@ == params.deep_view()[0]);
            }
            if params.len() > 1 {
                assert(params@[1]@ == params.deep_view()[1]);
            }
        }
        (query_str, params)
    }
}

} // verus!
