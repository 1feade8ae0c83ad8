//! Search for the revisions: the transactions that changed version pins.
use crate::coords_error::CoordsError;
use crate::db::search_attribute::{order_direction_text, OrderDirection, ParseError};
use crate::db::utils::{is_int, is_long, is_text, QueryParam};
use crate::text::{decimal, i32_text, i64_text, int_text, join, join_with, push_decimal, str_eq};
use crate::types::{IdType, LongIdType};
use vstd::prelude::*;

verus! {

/// The columns that revisions may be ordered by.
#[derive(Debug, PartialEq, Eq, PartialOrd, Ord, Clone, Copy, Structural)]
pub enum OrderRevisionBy {
    Id,
    Author,
}

/// The OrderRevisionBy that a name stands for, or `None` for a name that stands
/// for none.
pub open spec fn parse_order_revision_by(s: Seq<char>) -> Option<OrderRevisionBy> {
    if s == "id"@ || s == "Id"@ || s == "ID"@ {
        Some(OrderRevisionBy::Id)
    } else if s == "author"@ || s == "Author"@ || s == "AUTHOR"@ {
        Some(OrderRevisionBy::Author)
    } else {
        None
    }
}

/// The name of a OrderRevisionBy, as it is displayed.
pub open spec fn order_revision_by_text(x: OrderRevisionBy) -> Seq<char> {
    match x {
        OrderRevisionBy::Id => "id"@,
        OrderRevisionBy::Author => "author"@,
    }
}

/// Parsing the displayed name of a OrderRevisionBy gives it back.
pub proof fn lemma_order_revision_by_round_trip(x: OrderRevisionBy)
    ensures
        parse_order_revision_by(order_revision_by_text(x)) == Some(x),
{
    match x {
        OrderRevisionBy::Id => {
            reveal_strlit("id");
        },
        OrderRevisionBy::Author => {
            reveal_strlit("author");
            reveal_strlit("id");
            assert("author"@.len() != "id"@.len());
            reveal_strlit("Id");
            assert("author"@.len() != "Id"@.len());
            reveal_strlit("ID");
            assert("author"@.len() != "ID"@.len());
        },
    }
}

impl OrderRevisionBy {
    /// The OrderRevisionBy named by `s`.
    pub fn from_str(s: &str) -> (r: Result<OrderRevisionBy, ParseError>)
        ensures
            match r {
                Ok(x) => parse_order_revision_by(s@) == Some(x),
                Err(_) => parse_order_revision_by(s@) is None,
            },
    {
        if str_eq(s, "id") || str_eq(s, "Id") || str_eq(s, "ID") {
            return Ok(OrderRevisionBy::Id);
        }
        if str_eq(s, "author") || str_eq(s, "Author") || str_eq(s, "AUTHOR") {
            return Ok(OrderRevisionBy::Author);
        }
        Err(ParseError::VariantNotFound)
    }

    /// The name, as it is displayed.
    pub fn as_str(&self) -> (r: &'static str)
        ensures
            r@ == order_revision_by_text(*self),
    {
        match self {
            OrderRevisionBy::Id => "id",
            OrderRevisionBy::Author => "author",
        }
    }

    /// The name, as it is displayed.
    pub fn to_string(&self) -> (r: String)
        ensures
            r@ == order_revision_by_text(*self),
    {
        String::from_str(self.as_str())
    }
}

/// Errors of a revision search.
#[derive(Debug)]
pub enum FindAllRevisionsError {
    /// A distribution could not be made.
    DistributionNewError { msg: String, source: CoordsError },
    /// Coordinates could not be made.
    CoordsTryFromPartsError { coords: String, source: CoordsError },
}

/// A row of a revision search: a transaction and who made it, why.
#[derive(Debug, PartialEq, Eq)]
pub struct FindAllRevisionsRow {
    pub id: IdType,
    pub transaction_id: LongIdType,
    pub author: String,
    pub comment: String,
}

impl FindAllRevisionsRow {
    /// A row of the given values.
    pub fn new(id: IdType, transaction_id: LongIdType, author: String, comment: String) -> (r:
        FindAllRevisionsRow)
        ensures
            r == (FindAllRevisionsRow { id, transaction_id, author, comment }),
    {
        FindAllRevisionsRow { id, transaction_id, author, comment }
    }

    /// A row from the values a query returned.
    pub fn try_from_parts(
        id: IdType,
        transaction_id: LongIdType,
        author: &str,
        comment: &str,
    ) -> (r: Result<FindAllRevisionsRow, FindAllRevisionsError>)
        ensures
            r matches Ok(row) && row.id == id && row.transaction_id == transaction_id
                && row.author@ == author@ && row.comment@ == comment@,
    {
        Ok(Self::new(id, transaction_id, String::from_str(author), String::from_str(comment)))
    }

    /// A row from the values a query returned.
    pub fn from_parts(id: IdType, transaction_id: LongIdType, author: &str, comment: &str) -> (r:
        FindAllRevisionsRow)
        ensures
            r.id == id && r.transaction_id == transaction_id && r.author@ == author@
                && r.comment@ == comment@,
    {
        match Self::try_from_parts(id, transaction_id, author, comment) {
            Ok(row) => row,
            Err(_) => FindAllRevisionsRow {
                id,
                transaction_id,
                author: String::new(),
                comment: String::new(),
            },
        }
    }

    /// The row as it is displayed: id, transaction, author and comment,
    /// separated by spaces.
    pub fn to_string(&self) -> (r: String)
        ensures
            r@ == int_text(self.id as int) + " "@ + int_text(self.transaction_id as int) + " "@
                + self.author@ + " "@ + self.comment@,
    {
        let mut s = i32_text(self.id);
        s.append(" ");
        s.append(i64_text(self.transaction_id).as_str());
        s.append(" ");
        s.append(self.author.as_str());
        s.append(" ");
        s.append(self.comment.as_str());
        s
    }
}

/// A search for revisions.
pub struct FindAllRevisions<'a> {
    /// The database connection the search runs on.
    pub client: &'a mut postgres::Client,
    pub id: Option<IdType>,
    pub transaction_id: Option<LongIdType>,
    pub author: Option<&'a str>,
    pub order_by: Option<Vec<OrderRevisionBy>>,
    pub order_direction: Option<OrderDirection>,
    pub limit: Option<IdType>,
}

/// The fields of a search other than its connection.
pub open spec fn same_revisions_search(a: FindAllRevisions, b: FindAllRevisions) -> bool {
    &&& a.id == b.id
    &&& a.transaction_id == b.transaction_id
    &&& a.author == b.author
    &&& a.order_by == b.order_by
    &&& a.order_direction == b.order_direction
    &&& a.limit == b.limit
}

/// `WHERE` for the first condition, `AND` for the others.
pub open spec fn where_and(before: nat) -> Seq<char> {
    if before == 0 {
        "WHERE"@
    } else {
        "AND"@
    }
}

/// The number of conditions on the id and the transaction.
pub open spec fn id_conditions(f: FindAllRevisions) -> nat {
    (if f.id is Some {
        1nat
    } else {
        0nat
    }) + (if f.transaction_id is Some {
        1nat
    } else {
        0nat
    })
}

/// The direction the columns are ordered in: the one given, else ascending.
pub open spec fn revisions_direction(f: FindAllRevisions) -> Seq<char> {
    match f.order_direction {
        Some(d) => order_direction_text(d),
        None => "ASC"@,
    }
}

/// The ORDER BY clause, where columns are given.
pub open spec fn revisions_order(f: FindAllRevisions) -> Seq<char> {
    match f.order_by {
        Some(v) => if v@.len() > 0 {
            " ORDER BY "@ + join(
                v@.map_values(|a: OrderRevisionBy| order_revision_by_text(a) + " "@ + revisions_direction(f)),
                ","@,
            )
        } else {
            Seq::empty()
        },
        None => Seq::empty(),
    }
}

/// The query text of a revision search. Each condition on the id, the
/// transaction or the author replaces the text built so far: the query
/// holds the last of them alone, followed by the ORDER BY clause.
pub open spec fn revisions_query(f: FindAllRevisions) -> Seq<char> {
    let q1 = if f.id is Some {
        " "@ + where_and(0) + " id = $"@ + decimal(1)
    } else {
        "SELECT 
                id, transaction_id, author, comment
            FROM 
                revision_view"@
    };
    let n1: nat = if f.id is Some {
        1
    } else {
        0
    };
    let q2 = if f.transaction_id is Some {
        " "@ + where_and(n1) + " transaction_id = $"@ + decimal(n1 + 1)
    } else {
        q1
    };
    let n2 = id_conditions(f);
    let q3 = if f.author is Some {
        " "@ + where_and(n2) + " author = $"@ + decimal(n2 + 1)
    } else {
        q2
    };
    q3 + revisions_order(f)
}

impl<'a> FindAllRevisions<'a> {
    /// A search for every revision on `client`.
    pub fn new(client: &'a mut postgres::Client) -> (r: Self)
        ensures
            r.id is None,
            r.transaction_id is None,
            r.author is None,
            r.order_by is None,
            r.order_direction is None,
            r.limit is None,
    {
        FindAllRevisions {
            client,
            id: None,
            transaction_id: None,
            author: None,
            order_by: None,
            order_direction: None,
            limit: None,
        }
    }

    /// Search for the revision of this id.
    pub fn id(&mut self, id: IdType) -> (r: &mut Self)
        ensures
            same_revisions_search(*r, FindAllRevisions { id: Some(id), ..*old(self) }),
            *final(self) == *final(r),
    {
        self.id = Some(id);
        self
    }

    /// Search for the revision of this transaction.
    pub fn transaction_id(&mut self, txid: LongIdType) -> (r: &mut Self)
        ensures
            same_revisions_search(*r, FindAllRevisions { transaction_id: Some(txid), ..*old(self) }),
            *final(self) == *final(r),
    {
        self.transaction_id = Some(txid);
        self
    }

    /// Search for the revisions by this author.
    pub fn author(&mut self, author: &'a str) -> (r: &mut Self)
        ensures
            same_revisions_search(*r, FindAllRevisions { author: Some(author), ..*old(self) }),
            *final(self) == *final(r),
    {
        self.author = Some(author);
        self
    }

    /// Set or clear the id.
    pub fn id_opt(&mut self, id: Option<IdType>) -> (r: &mut Self)
        ensures
            same_revisions_search(*r, FindAllRevisions { id: id, ..*old(self) }),
            *final(self) == *final(r),
    {
        self.id = id;
        self
    }

    /// Set or clear the transaction.
    pub fn transaction_id_opt(&mut self, txid: Option<LongIdType>) -> (r: &mut Self)
        ensures
            same_revisions_search(*r, FindAllRevisions { transaction_id: txid, ..*old(self) }),
            *final(self) == *final(r),
    {
        self.transaction_id = txid;
        self
    }

    /// Set or clear the author.
    pub fn author_opt(&mut self, author: Option<&'a str>) -> (r: &mut Self)
        ensures
            same_revisions_search(*r, FindAllRevisions { author: author, ..*old(self) }),
            *final(self) == *final(r),
    {
        self.author = author;
        self
    }

    /// Set the columns to order by.
    pub fn order_by(&mut self, attributes: Vec<OrderRevisionBy>) -> (r: &mut Self)
        ensures
            same_revisions_search(*r, FindAllRevisions { order_by: Some(attributes), ..*old(self) }),
            *final(self) == *final(r),
    {
        self.order_by = Some(attributes);
        self
    }

    /// Set the direction to order in.
    pub fn order_direction(&mut self, direction: OrderDirection) -> (r: &mut Self)
        ensures
            same_revisions_search(*r, FindAllRevisions { order_direction: Some(direction), ..*old(self) }),
            *final(self) == *final(r),
    {
        self.order_direction = Some(direction);
        self
    }

    /// Set or clear the direction to order in.
    pub fn order_direction_opt(&mut self, direction: Option<OrderDirection>) -> (r: &mut Self)
        ensures
            same_revisions_search(*r, FindAllRevisions { order_direction: direction, ..*old(self) }),
            *final(self) == *final(r),
    {
        self.order_direction = direction;
        self
    }

    /// Set the largest number of rows to return.
    pub fn limit(&mut self, limit: IdType) -> (r: &mut Self)
        ensures
            same_revisions_search(*r, FindAllRevisions { limit: Some(limit), ..*old(self) }),
            *final(self) == *final(r),
    {
        self.limit = Some(limit);
        self
    }

    /// Set or clear the largest number of rows to return.
    pub fn limit_opt(&mut self, limit: Option<IdType>) -> (r: &mut Self)
        ensures
            same_revisions_search(*r, FindAllRevisions { limit: limit, ..*old(self) }),
            *final(self) == *final(r),
    {
        self.limit = limit;
        self
    }

    /// The ORDER BY clause, where columns are given.
    fn order_text(&self) -> (r: String)
        ensures
            r@ == revisions_order(*self),
    {
        let direction = match &self.order_direction {
            Some(dir) => dir.as_str(),
            None => "ASC",
        };
        match &self.order_by {
            Some(v) => {
                if v.len() == 0 {
                    return String::new();
                }
                let mut cols: Vec<String> = Vec::new();
                let mut i: usize = 0;
                while i < v.len()
                    invariant
                        i <= v.len(),
                        cols.len() == i,
                        direction@ == revisions_direction(*self),
                        forall|j: int|
                            0 <= j < i ==> #[trigger] cols@[j]@ == order_revision_by_text(v@[j])
                                + " "@ + direction@,
                    decreases v.len() - i,
                {
                    let mut c = v[i].to_string();
                    c.append(" ");
                    c.append(direction);
                    cols.push(c);
                    i = i + 1;
                }
                assert(cols.deep_view() =~= v@.map_values(
                    |a: OrderRevisionBy| order_revision_by_text(a) + " "@ + revisions_direction(*self),
                ));
                let joined = join_with(&cols, ",");
                let mut s = String::from_str(" ORDER BY ");
                s.append(joined.as_str());
                s
            },
            None => String::new(),
        }
    }

    /// The query text and its parameters: the id, the transaction and the
    /// author, where given, in this order.
    pub fn get_query_str(&self) -> (r: (String, Vec<QueryParam>))
        ensures
            r.0@ == revisions_query(*self),
            r.1.len() == id_conditions(*self) + (if self.author is Some {
                1nat
            } else {
                0nat
            }),
            self.id is Some ==> is_int(r.1@[0], self.id.unwrap() as int),
            self.transaction_id is Some ==> is_long(
                r.1@[id_conditions(*self) - 1],
                self.transaction_id.unwrap() as int,
            ),
            self.author is Some ==> is_text(r.1@[r.1.len() - 1], self.author.unwrap()@),
    {
        let mut params: Vec<QueryParam> = Vec::new();
        let mut query_str = String::from_str("SELECT 
                id, transaction_id, author, comment
            FROM 
                revision_view");
        let mut where_and = "WHERE";
        let mut prep_id: u64 = 1;
        if let Some(id) = self.id {
            query_str = String::from_str(" ");
            query_str.append(where_and);
            query_str.append(" id = $");
            push_decimal(&mut query_str, prep_id);
            where_and = "AND";
            prep_id = prep_id + 1;
            params.push(QueryParam::Int(id));
        }
        if let Some(transaction_id) = self.transaction_id {
            query_str = String::from_str(" ");
            query_str.append(where_and);
            query_str.append(" transaction_id = $");
            push_decimal(&mut query_str, prep_id);
            where_and = "AND";
            prep_id = prep_id + 1;
            params.push(QueryParam::Long(transaction_id));
        }
        if let Some(author) = self.author {
            query_str = String::from_str(" ");
            query_str.append(where_and);
            query_str.append(" author = $");
            push_decimal(&mut query_str, prep_id);
            params.push(QueryParam::Text(String::from_str(author)));
        }
        let o = self.order_text();
        query_str.append(o.as_str());
        (query_str, params)
    }
}

} // verus!
