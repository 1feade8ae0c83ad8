//! Add levels: each level name stands for itself and for every level above
//! it, so `dev01.rd.0001` adds `facility.dev01`, `facility.dev01.rd` and
//! `facility.dev01.rd.0001`.
use crate::db::add::statement::{
    all_ascii, ascii_lowered, lemma_first_occurrences_ascii, lemma_lowered_ascii,
    expand_paths, expanded_paths, first_occurrences, lemma_expanded_paths_hold_names, insert_statement, insert_statement_text,
    lemma_first_occurrences_empty, lowercase_each, lowered, unique_names,
};
use crate::text::{ascii_lower, char_count, count_char, is_ascii_text, lemma_replace_same, lowercase};
use vstd::prelude::*;

verus! {

/// What is wrong with a level name.
#[derive(Debug, PartialEq, PartialOrd, Eq, Ord)]
pub enum InvalidLevelKind {
    TooManyLevels,
    InvalidName,
    InvalidCharacter,
}

/// Why levels could not be added.
#[allow(inconsistent_fields)]
#[derive(Debug)]
pub enum AddLevelsError {
    /// The database refused the statement.
    TokioPostgresError { msg: &'static str, source: tokio_postgres::Error },
    /// No level name was given.
    NoLevelNamesError,
    /// A level name cannot be added.
    InvalidLevel { level: String, kind: InvalidLevelKind },
}

/// Adds levels.
pub struct AddLevels {
    names: Vec<String>,
    result_cnt: u64,
}

impl View for AddLevels {
    type V = Seq<Seq<char>>;

    /// The level names given so far, in order.
    closed spec fn view(&self) -> Seq<Seq<char>> {
        self.names.deep_view()
    }
}

/// A level name has more than three parts (show, sequence, shot).
pub open spec fn too_deep(level: Seq<char>) -> bool {
    count_char(level, '.') > 2
}

/// The level names to add: each distinct name once, in lower case.
pub open spec fn level_names(names: Seq<Seq<char>>) -> Seq<Seq<char>> {
    lowered(first_occurrences(names), ""@)
}

/// `level` is the first of `levels` that has too many parts.
pub open spec fn first_too_deep(levels: Seq<Seq<char>>, level: Seq<char>) -> bool {
    exists|i: int|
        0 <= i < levels.len() && levels[i] == level && too_deep(levels[i]) && forall|j: int|
            0 <= j < i ==> !too_deep(#[trigger] levels[j])
}

/// Each distinct level name, in lower case, is added under the facility as
/// itself: its last path is `facility.` followed by the name.
pub proof fn lemma_levels_added(names: Seq<Seq<char>>, i: int)
    requires
        0 <= i < level_names(names).len(),
    ensures
        expanded_paths("facility"@, level_names(names), '.').contains(
            "facility"@ + "."@ + level_names(names)[i],
        ),
{
    lemma_expanded_paths_hold_names("facility"@, level_names(names), '.', i);
    lemma_replace_same(level_names(names)[i], '.');
}

impl AddLevels {
    /// The number of rows the last statement added.
    pub closed spec fn count(&self) -> u64 {
        self.result_cnt
    }

    /// A builder with no level names.
    pub fn new() -> (r: Self)
        ensures
            r@ == Seq::<Seq<char>>::empty(),
            r.count() == 0,
    {
        let r = Self { names: Vec::new(), result_cnt: 0 };
        assert(r@ =~= Seq::<Seq<char>>::empty());
        r
    }

    /// Add one level name.
    pub fn level(self, name: &str) -> (r: Self)
        ensures
            r@ == self@.push(name@),
            r.count() == self.count(),
    {
        let mut s = self;
        let ghost before = s.names.deep_view();
        s.names.push(String::from_str(name));
        assert(s.names.deep_view() =~= before.push(name@));
        s
    }

    /// Add the level names of `names`, emptying it.
    pub fn levels(self, names: &mut Vec<String>) -> (r: Self)
        ensures
            r@ == self@ + old(names).deep_view(),
            final(names)@.len() == 0,
            r.count() == self.count(),
    {
        let mut s = self;
        let ghost before = s.names.deep_view();
        let ghost added = names.deep_view();
        s.names.append(names);
        assert(s.names.deep_view() =~= before + added);
        s
    }

    /// Forget the number of rows added.
    pub fn reset_result_cnt(&mut self)
        ensures
            final(self).count() == 0,
            final(self)@ == old(self)@,
    {
        self.result_cnt = 0;
    }

    /// The number of rows the last statement added.
    pub fn get_result_cnt(&self) -> (r: u64)
        ensures
            r == self.count(),
    {
        self.result_cnt
    }

    /// The builder after its statement added `cnt` rows.
    pub fn record_result(self, cnt: u64) -> (r: Self)
        ensures
            r.count() == cnt,
            r@ == self@,
    {
        let mut s = self;
        s.result_cnt = cnt;
        s
    }

    /// The statement that adds the levels and its parameters, the paths of
    /// every distinct level name in lower case under `facility`. Fails
    /// when no name was given, or on the first name with more than three
    /// parts.
    pub fn prepare(&self) -> (r: Result<(String, Vec<String>), AddLevelsError>)
        ensures
            all_ascii(self@) ==> level_names(self@) == ascii_lowered(first_occurrences(self@), ""@),
            r matches Err(AddLevelsError::NoLevelNamesError) <==> self@.len() == 0,
            r matches Err(AddLevelsError::InvalidLevel { .. }) <==> self@.len() > 0 && exists|
                i: int,
            |
                0 <= i < level_names(self@).len() && too_deep(#[trigger] level_names(self@)[i]),
            r matches Err(AddLevelsError::InvalidLevel { level, kind }) ==> kind
                == InvalidLevelKind::TooManyLevels && first_too_deep(level_names(self@), level@),
            !(r matches Err(AddLevelsError::TokioPostgresError { .. })),
            r matches Ok((stmt, params)) ==> params.deep_view() == expanded_paths(
                "facility"@,
                level_names(self@),
                '.',
            ) && stmt@ == insert_statement("level"@, "path"@, params.len() as nat, true),
    {
        let unique = unique_names(&self.names);
        let levels = lowercase_each(&unique, "");
        proof {
            if all_ascii(self@) {
                let fo = first_occurrences(self@);
                lemma_first_occurrences_ascii(self@);
                assert forall|i: int| 0 <= i < fo.len() implies lowercase(#[trigger] fo[i])
                    == ascii_lower(fo[i]) by {
                    assert(is_ascii_text(unique.deep_view()[i]));
                }
                lemma_lowered_ascii(fo, ""@);
            }
        }
        proof {
            lemma_first_occurrences_empty(self@);
            assert(levels.deep_view().len() == levels@.len());
        }
        if levels.len() == 0 {
            return Err(AddLevelsError::NoLevelNamesError);
        }
        let ghost ls = level_names(self@);
        assert(levels.deep_view() == ls);
        let mut i: usize = 0;
        while i < levels.len()
            invariant
                levels.deep_view() == ls,
                ls == level_names(self@),
                self@.len() > 0,
                all_ascii(self@) ==> level_names(self@) == ascii_lowered(
                    first_occurrences(self@),
                    ""@,
                ),
                i <= levels.len(),
                forall|j: int| 0 <= j < i ==> !too_deep(#[trigger] ls[j]),
            decreases levels.len() - i,
        {
            assert(ls[i as int] == levels@[i as int]@);
            if char_count(levels[i].as_str(), '.') > 2 {
                assert(too_deep(ls[i as int]));
                assert(self@.len() > 0);
                return Err(
                    AddLevelsError::InvalidLevel {
                        level: levels[i].clone(),
                        kind: InvalidLevelKind::TooManyLevels,
                    },
                );
            }
            i = i + 1;
        }
        let paths = expand_paths(&levels, "facility", '.');
        let stmt = insert_statement_text("level", "path", paths.len(), true);
        Ok((stmt, paths))
    }
}

} // verus!
