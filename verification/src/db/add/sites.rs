//! Add sites: each distinct site name, in lower case, under `any`.
use crate::db::add::statement::{
    all_ascii, ascii_lowered, lemma_first_occurrences_ascii, lemma_lowered_ascii,
    first_occurrences, insert_statement, insert_statement_text, lemma_first_occurrences_empty,
    lowercase_each, lowered, unique_names,
};
use crate::text::{ascii_lower, char_count, count_char, has_char, has_char_pair, has_pair, is_ascii_text, lowercase};
use vstd::prelude::*;

verus! {

/// What is wrong with a site name.
#[derive(Debug, PartialEq, PartialOrd, Eq, Ord)]
pub enum InvalidSiteKind {
    InvalidName,
    InvalidCharacter,
}

/// Why sites could not be added.
#[allow(inconsistent_fields)]
#[derive(Debug)]
pub enum AddSitesError {
    /// The database refused the statement.
    TokioPostgresError { msg: &'static str, source: tokio_postgres::Error },
    /// No site name was given.
    NoSiteNamesError,
    /// A site name cannot be added.
    InvalidSite { site: String, kind: InvalidSiteKind },
}

/// Adds sites.
pub struct AddSites {
    names: Vec<String>,
    result_cnt: u64,
}

/// A site path with more than one dot, a space or a double underscore.
pub open spec fn bad_site(path: Seq<char>) -> bool {
    count_char(path, '.') > 1 || path.contains(' ') || has_pair(path, '_')
}

/// The site paths to add: each distinct name once, in lower case, after
/// `any.`.
pub open spec fn site_paths(names: Seq<Seq<char>>) -> Seq<Seq<char>> {
    lowered(first_occurrences(names), "any."@)
}

/// `path` is the first of `paths` that cannot be added.
pub open spec fn first_bad_site(paths: Seq<Seq<char>>, path: Seq<char>) -> bool {
    exists|i: int|
        0 <= i < paths.len() && paths[i] == path && bad_site(paths[i]) && forall|j: int|
            0 <= j < i ==> !bad_site(#[trigger] paths[j])
}

impl View for AddSites {
    type V = Seq<Seq<char>>;

    /// The site names given so far, in order.
    closed spec fn view(&self) -> Seq<Seq<char>> {
        self.names.deep_view()
    }
}

impl AddSites {
    /// The number of rows the last statement added.
    pub closed spec fn count(&self) -> u64 {
        self.result_cnt
    }

    /// A builder with no site names.
    pub fn new() -> (r: Self)
        ensures
            r@ == Seq::<Seq<char>>::empty(),
            r.count() == 0,
    {
        let r = Self { names: Vec::new(), result_cnt: 0 };
        assert(r@ =~= Seq::<Seq<char>>::empty());
        r
    }

    /// Add one site name.
    pub fn site(self, name: &str) -> (r: Self)
        ensures
            r@ == self@.push(name@),
            r.count() == self.count(),
    {
        let mut s = self;
        let ghost before = s.names.deep_view();
        s.names.push(String::from_str(name));
        assert(s.names.deep_view() =~= before.push(name@));
        s
    }

    /// Add the site names of `names`, emptying it.
    pub fn sites(self, names: &mut Vec<String>) -> (r: Self)
        ensures
            r@ == self@ + old(names).deep_view(),
            final(names)@.len() == 0,
            r.count() == self.count(),
    {
        let mut s = self;
        let ghost before = s.names.deep_view();
        let ghost added = names.deep_view();
        s.names.append(names);
        assert(s.names.deep_view() =~= before + added);
        s
    }

    /// Forget the number of rows added.
    pub fn reset_result_cnt(&mut self)
        ensures
            final(self).count() == 0,
            final(self)@ == old(self)@,
    {
        self.result_cnt = 0;
    }

    /// The number of rows the last statement added.
    pub fn get_result_cnt(&self) -> (r: u64)
        ensures
            r == self.count(),
    {
        self.result_cnt
    }

    /// The builder after its statement added `cnt` rows.
    pub fn record_result(self, cnt: u64) -> (r: Self)
        ensures
            r.count() == cnt,
            r@ == self@,
    {
        let mut s = self;
        s.result_cnt = cnt;
        s
    }

    /// Whether a site path cannot be added: it has more than one dot, a
    /// space or a double underscore.
    fn site_is_invalid(&self, site: &str) -> (r: bool)
        ensures
            r == bad_site(site@),
    {
        char_count(site, '.') > 1 || has_char(site, ' ') || has_char_pair(site, '_')
    }

    /// The statement that inserts `item_count` site paths.
    fn generate_prepared_statement(&self, item_count: usize) -> (r: String)
        ensures
            r@ == insert_statement("site"@, "path"@, item_count as nat, true),
    {
        insert_statement_text("site", "path", item_count, true)
    }

    /// The statement that adds the sites and its parameters, the paths of
    /// every distinct site name. Fails when no name was given, or on the
    /// first path that cannot be added.
    pub fn prepare(&self) -> (r: Result<(String, Vec<String>), AddSitesError>)
        ensures
            all_ascii(self@) ==> site_paths(self@) == ascii_lowered(first_occurrences(self@), "any."@),
            r matches Err(AddSitesError::NoSiteNamesError) <==> self@.len() == 0,
            r matches Err(AddSitesError::InvalidSite { .. }) <==> self@.len() > 0 && exists|
                i: int,
            |
                0 <= i < site_paths(self@).len() && bad_site(#[trigger] site_paths(self@)[i]),
            r matches Err(AddSitesError::InvalidSite { site, kind }) ==> kind
                == InvalidSiteKind::InvalidCharacter && first_bad_site(site_paths(self@), site@),
            !(r matches Err(AddSitesError::TokioPostgresError { .. })),
            r matches Ok((stmt, params)) ==> params.deep_view() == site_paths(self@) && stmt@
                == insert_statement("site"@, "path"@, params.len() as nat, true),
    {
        let unique = unique_names(&self.names);
        let paths = lowercase_each(&unique, "any.");
        proof {
            if all_ascii(self@) {
                let fo = first_occurrences(self@);
                lemma_first_occurrences_ascii(self@);
                assert forall|i: int| 0 <= i < fo.len() implies lowercase(#[trigger] fo[i])
                    == ascii_lower(fo[i]) by {
                    assert(is_ascii_text(unique.deep_view()[i]));
                }
                lemma_lowered_ascii(fo, "any."@);
            }
        }
        proof {
            lemma_first_occurrences_empty(self@);
            assert(paths.deep_view().len() == paths@.len());
        }
        if paths.len() == 0 {
            return Err(AddSitesError::NoSiteNamesError);
        }
        let ghost ps = site_paths(self@);
        let mut i: usize = 0;
        while i < paths.len()
            invariant
                paths.deep_view() == ps,
                ps == site_paths(self@),
                self@.len() > 0,
                all_ascii(self@) ==> site_paths(self@) == ascii_lowered(
                    first_occurrences(self@),
                    "any."@,
                ),
                i <= paths.len(),
                forall|j: int| 0 <= j < i ==> !bad_site(#[trigger] ps[j]),
            decreases paths.len() - i,
        {
            assert(ps[i as int] == paths@[i as int]@);
            if self.site_is_invalid(paths[i].as_str()) {
                return Err(
                    AddSitesError::InvalidSite {
                        site: paths[i].clone(),
                        kind: InvalidSiteKind::InvalidCharacter,
                    },
                );
            }
            i = i + 1;
        }
        let stmt = self.generate_prepared_statement(paths.len());
        Ok((stmt, paths))
    }
}

} // verus!
