//! Add packages: each distinct package name once.
use crate::db::add::statement::{
    first_occurrences, insert_statement, insert_statement_text, lemma_first_occurrences_empty,
    unique_names,
};
use vstd::prelude::*;

verus! {

/// Why packages could not be added.
#[allow(inconsistent_fields)]
#[derive(Debug)]
pub enum AddPackagesError {
    /// The database refused the statement.
    TokioPostgresError { msg: &'static str, source: tokio_postgres::Error },
    /// No package name was given.
    NoPackageNamesError,
}

/// Adds packages.
pub struct AddPackages {
    names: Vec<String>,
    result_cnt: u64,
}

impl View for AddPackages {
    type V = Seq<Seq<char>>;

    /// The package names given so far, in order.
    closed spec fn view(&self) -> Seq<Seq<char>> {
        self.names.deep_view()
    }
}

impl AddPackages {
    /// The number of rows the last statement added.
    pub closed spec fn count(&self) -> u64 {
        self.result_cnt
    }

    /// A builder with no package names.
    pub fn new() -> (r: Self)
        ensures
            r@ == Seq::<Seq<char>>::empty(),
            r.count() == 0,
    {
        let r = Self { names: Vec::new(), result_cnt: 0 };
        assert(r@ =~= Seq::<Seq<char>>::empty());
        r
    }

    /// Add one package name.
    pub fn package(self, name: &str) -> (r: Self)
        ensures
            r@ == self@.push(name@),
            r.count() == self.count(),
    {
        let mut s = self;
        let ghost before = s.names.deep_view();
        s.names.push(String::from_str(name));
        assert(s.names.deep_view() =~= before.push(name@));
        s
    }

    /// Add the package names of `names`, emptying it.
    pub fn packages(self, names: &mut Vec<String>) -> (r: Self)
        ensures
            r@ == self@ + old(names).deep_view(),
            final(names)@.len() == 0,
            r.count() == self.count(),
    {
        let mut s = self;
        let ghost before = s.names.deep_view();
        let ghost added = names.deep_view();
        s.names.append(names);
        assert(s.names.deep_view() =~= before + added);
        s
    }

    /// Forget the number of rows added.
    pub fn reset_result_cnt(&mut self)
        ensures
            final(self).count() == 0,
            final(self)@ == old(self)@,
    {
        self.result_cnt = 0;
    }

    /// The number of rows the last statement added.
    pub fn get_result_cnt(&self) -> (r: u64)
        ensures
            r == self.count(),
    {
        self.result_cnt
    }

    /// The builder after its statement added `cnt` rows.
    pub fn record_result(self, cnt: u64) -> (r: Self)
        ensures
            r.count() == cnt,
            r@ == self@,
    {
        let mut s = self;
        s.result_cnt = cnt;
        s
    }

    /// The statement that adds the packages and its parameters, each
    /// distinct package name once. Fails when no name was given.
    pub fn prepare(&self) -> (r: Result<(String, Vec<String>), AddPackagesError>)
        ensures
            r matches Err(AddPackagesError::NoPackageNamesError) <==> self@.len() == 0,
            !(r matches Err(AddPackagesError::TokioPostgresError { .. })),
            r matches Ok((stmt, params)) ==> params.deep_view() == first_occurrences(self@) && stmt@
                == insert_statement("package"@, "name"@, params.len() as nat, false),
    {
        let packages = unique_names(&self.names);
        proof {
            lemma_first_occurrences_empty(self@);
            assert(packages.deep_view().len() == packages@.len());
        }
        if packages.len() == 0 {
            return Err(AddPackagesError::NoPackageNamesError);
        }
        let stmt = insert_statement_text("package", "name", packages.len(), false);
        Ok((stmt, packages))
    }
}

} // verus!
