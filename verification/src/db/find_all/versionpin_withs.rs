//! Search for the packages that go with a version pin.
use crate::coords_error::CoordsError;
use crate::text::{i32_text, int_text};
use crate::types::IdType;
use vstd::prelude::*;

verus! {

/// Errors of a search for the packages that go with a version pin.
#[allow(inconsistent_fields)]
#[derive(Debug)]
pub enum FindAllWithsError {
    /// A package could not be made.
    WithNewError { msg: String, source: CoordsError },
    /// Coordinates could not be made.
    CoordsTryFromPartsError { coords: String, source: CoordsError },
    /// The database refused the query.
    TokioPostgresError { msg: &'static str, source: tokio_postgres::Error },
}

/// A package that goes with a version pin, at its position.
#[derive(Debug, PartialEq, Eq)]
pub struct FindAllWithsRow {
    pub id: IdType,
    pub vpin_id: IdType,
    pub with: String,
    pub order: IdType,
}

impl FindAllWithsRow {
    /// A row of the given values.
    pub fn new(id: IdType, vpin_id: IdType, with: String, order: IdType) -> (r: FindAllWithsRow)
        ensures
            r == (FindAllWithsRow { id, vpin_id, with, order }),
    {
        FindAllWithsRow { id, vpin_id, with, order }
    }

    /// A row from the values a query returned.
    pub fn try_from_parts(id: IdType, vpin_id: IdType, with: String, order: IdType) -> (r: Result<
        FindAllWithsRow,
        FindAllWithsError,
    >)
        ensures
            r == Ok::<FindAllWithsRow, FindAllWithsError>(FindAllWithsRow { id, vpin_id, with, order }),
    {
        Ok(Self::new(id, vpin_id, with, order))
    }

    /// A row from the values a query returned.
    pub fn from_parts(id: IdType, vpin_id: IdType, with: String, order: IdType) -> (r: FindAllWithsRow)
        ensures
            r == (FindAllWithsRow { id, vpin_id, with, order }),
    {
        Self::new(id, vpin_id, with, order)
    }

    /// The row as it is displayed: `with order: n (id:i vpin id:v )`.
    pub fn to_string(&self) -> (r: String)
        ensures
            r@ == self.with@ + " order: "@ + int_text(self.order as int) + " (id:"@ + int_text(
                self.id as int,
            ) + " vpin id:"@ + int_text(self.vpin_id as int) + " )"@,
    {
        let mut s = self.with.clone();
        s.append(" order: ");
        s.append(i32_text(self.order).as_str());
        s.append(" (id:");
        s.append(i32_text(self.id).as_str());
        s.append(" vpin id:");
        s.append(i32_text(self.vpin_id).as_str());
        s.append(" )");
        s
    }
}

/// A search for the packages that go with a version pin.
pub struct FindAllWiths {
    pub vpin_id: IdType,
}

/// The query text of the search: the packages of version pin `$1`, by
/// position.
pub open spec fn withs_query() -> Seq<char> {
    "SELECT id, versionpin, package, pinorder
        FROM withpackage WHERE versionpin = $1 ORDER BY pinorder"@
}

impl FindAllWiths {
    /// A search for the packages that go with the version pin `vpin_id`.
    pub fn new(vpin_id: IdType) -> (r: Self)
        ensures
            r.vpin_id == vpin_id,
    {
        FindAllWiths { vpin_id }
    }

    /// The query text and its parameter, the version pin.
    pub fn get_query_str(&self) -> (r: (String, IdType))
        ensures
            r.0@ == withs_query(),
            r.1 == self.vpin_id,
    {
        (String::from_str("SELECT id, versionpin, package, pinorder
        FROM withpackage WHERE versionpin = $1 ORDER BY pinorder"), self.vpin_id)
    }
}

} // verus!
