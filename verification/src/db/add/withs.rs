//! Set the packages that go with a version pin: the old ones are deleted,
//! then each new one is inserted with its position.
use crate::types::IdType;
use vstd::prelude::*;

verus! {

/// Why the packages of a version pin could not be set.
#[allow(inconsistent_fields)]
#[derive(Debug)]
pub enum AddWithsError {
    /// The database refused a statement.
    TokioPostgresError { msg: &'static str, source: tokio_postgres::Error },
    /// No package name was given.
    NoWithNamesError,
    /// No package was given to set.
    NoUpdatesError,
}

/// Sets the packages that go with a version pin.
pub struct AddWiths {
    result_cnt: u64,
}

impl AddWiths {
    /// The number of packages the last call set.
    pub closed spec fn count(&self) -> u64 {
        self.result_cnt
    }

    /// A builder that has set nothing yet.
    pub fn new() -> (r: Self)
        ensures
            r.count() == 0,
    {
        Self { result_cnt: 0 }
    }

    /// Forget the number of packages set.
    pub fn reset_result_cnt(&mut self)
        ensures
            final(self).count() == 0,
    {
        self.result_cnt = 0;
    }

    /// The number of packages the last call set.
    pub fn get_result_cnt(&self) -> (r: u64)
        ensures
            r == self.count(),
    {
        self.result_cnt
    }

    /// The builder after it set `cnt` packages.
    pub fn record_result(self, cnt: u64) -> (r: Self)
        ensures
            r.count() == cnt,
    {
        let mut s = self;
        s.result_cnt = cnt;
        s
    }

    /// The statement that deletes the packages of the version pin `$1`.
    pub fn delete_statement() -> (r: &'static str)
        ensures
            r@ == "DELETE FROM withpackage WHERE versionpin = $1"@,
    {
        "DELETE FROM withpackage WHERE versionpin = $1"
    }

    /// The statement that inserts package `$2` at position `$3` for the
    /// version pin `$1`.
    pub fn insert_statement() -> (r: &'static str)
        ensures
            r@ == "INSERT INTO withpackage (versionpin, package, pinorder) values ($1,$2,$3)"@,
    {
        "INSERT INTO withpackage (versionpin, package, pinorder) values ($1,$2,$3)"
    }

    /// The rows to insert for the version pin `vpin_id`: each package with
    /// its position, counted from 0. Fails when no package was given.
    pub fn prepare(&self, vpin_id: IdType, withs: &Vec<String>) -> (r: Result<
        Vec<(IdType, String, i32)>,
        AddWithsError,
    >)
        requires
            withs.len() <= i32::MAX,
        ensures
            r matches Err(AddWithsError::NoUpdatesError) <==> withs.len() == 0,
            r is Err ==> r matches Err(AddWithsError::NoUpdatesError),
            r matches Ok(rows) ==> rows.len() == withs.len() && forall|k: int|
                0 <= k < rows.len() ==> (#[trigger] rows@[k]).0 == vpin_id && rows@[k].1@
                    == withs@[k]@ && rows@[k].2 == k,
    {
        if withs.len() == 0 {
            return Err(AddWithsError::NoUpdatesError);
        }
        let mut rows: Vec<(IdType, String, i32)> = Vec::new();
        let mut cnt: i32 = 0;
        while (cnt as usize) < withs.len()
            invariant
                withs.len() <= i32::MAX,
                0 <= cnt <= withs.len(),
                rows.len() == cnt,
                forall|k: int|
                    0 <= k < rows.len() ==> (#[trigger] rows@[k]).0 == vpin_id && rows@[k].1@
                        == withs@[k]@ && rows@[k].2 == k,
            decreases withs.len() - cnt,
        {
            rows.push((vpin_id, withs[cnt as usize].clone(), cnt));
            cnt = cnt + 1;
        }
        Ok(rows)
    }
}

} // verus!
