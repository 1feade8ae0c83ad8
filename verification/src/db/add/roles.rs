//! Add roles: a role name of underscore-separated parts stands for itself
//! and for each role above it, so `fx_beta` adds `any.fx` and
//! `any.fx.beta`.
use crate::db::add::statement::{
    all_ascii, ascii_lowered, lemma_first_occurrences_ascii, lemma_lowered_ascii,
    expand_paths, expanded_paths, first_occurrences, lemma_expanded_paths_hold_names, insert_statement, insert_statement_text,
    lemma_first_occurrences_empty, lowercase_each, lowered, unique_names,
};
use crate::text::{ascii_lower, has_char, has_char_pair, has_pair, is_ascii_text, lowercase, replace_char};
use vstd::prelude::*;

verus! {

/// What is wrong with a role name.
#[derive(Debug, PartialEq, PartialOrd, Eq, Ord)]
pub enum InvalidRoleKind {
    InvalidName,
    InvalidCharacter,
}

/// Why roles could not be added.
#[allow(inconsistent_fields)]
#[derive(Debug)]
pub enum AddRolesError {
    /// The database refused the statement.
    TokioPostgresError { msg: &'static str, source: tokio_postgres::Error },
    /// No role name was given.
    NoRoleNamesError,
    /// A role name cannot be added.
    InvalidRole { role: String, kind: InvalidRoleKind },
}

/// Adds roles.
pub struct AddRoles {
    names: Vec<String>,
    result_cnt: u64,
}

/// A role name holds a dot, a space or a double underscore.
pub open spec fn bad_role(role: Seq<char>) -> bool {
    role.contains('.') || role.contains(' ') || has_pair(role, '_')
}

/// The role names to add: each distinct name once, in lower case.
pub open spec fn role_names(names: Seq<Seq<char>>) -> Seq<Seq<char>> {
    lowered(first_occurrences(names), ""@)
}

/// `role` is the first of `roles` that cannot be added.
pub open spec fn first_bad_role(roles: Seq<Seq<char>>, role: Seq<char>) -> bool {
    exists|i: int|
        0 <= i < roles.len() && roles[i] == role && bad_role(roles[i]) && forall|j: int|
            0 <= j < i ==> !bad_role(#[trigger] roles[j])
}

/// Each distinct role name, in lower case, is added under `any` as itself,
/// its underscores turned into dots: `fx_beta` is added as `any.fx.beta`.
pub proof fn lemma_roles_added(names: Seq<Seq<char>>, i: int)
    requires
        0 <= i < role_names(names).len(),
    ensures
        expanded_paths("any"@, role_names(names), '_').contains(
            "any"@ + "."@ + replace_char(role_names(names)[i], '_', '.'),
        ),
{
    lemma_expanded_paths_hold_names("any"@, role_names(names), '_', i);
}

impl View for AddRoles {
    type V = Seq<Seq<char>>;

    /// The role names given so far, in order.
    closed spec fn view(&self) -> Seq<Seq<char>> {
        self.names.deep_view()
    }
}

impl AddRoles {
    /// The number of rows the last statement added.
    pub closed spec fn count(&self) -> u64 {
        self.result_cnt
    }

    /// A builder with no role names.
    pub fn new() -> (r: Self)
        ensures
            r@ == Seq::<Seq<char>>::empty(),
            r.count() == 0,
    {
        let r = Self { names: Vec::new(), result_cnt: 0 };
        assert(r@ =~= Seq::<Seq<char>>::empty());
        r
    }

    /// Add one role name.
    pub fn role(self, name: &str) -> (r: Self)
        ensures
            r@ == self@.push(name@),
            r.count() == self.count(),
    {
        let mut s = self;
        let ghost before = s.names.deep_view();
        s.names.push(String::from_str(name));
        assert(s.names.deep_view() =~= before.push(name@));
        s
    }

    /// Add the role names of `names`, emptying it.
    pub fn roles(self, names: &mut Vec<String>) -> (r: Self)
        ensures
            r@ == self@ + old(names).deep_view(),
            final(names)@.len() == 0,
            r.count() == self.count(),
    {
        let mut s = self;
        let ghost before = s.names.deep_view();
        let ghost added = names.deep_view();
        s.names.append(names);
        assert(s.names.deep_view() =~= before + added);
        s
    }

    /// Forget the number of rows added.
    pub fn reset_result_cnt(&mut self)
        ensures
            final(self).count() == 0,
            final(self)@ == old(self)@,
    {
        self.result_cnt = 0;
    }

    /// The number of rows the last statement added.
    pub fn get_result_cnt(&self) -> (r: u64)
        ensures
            r == self.count(),
    {
        self.result_cnt
    }

    /// The builder after its statement added `cnt` rows.
    pub fn record_result(self, cnt: u64) -> (r: Self)
        ensures
            r.count() == cnt,
            r@ == self@,
    {
        let mut s = self;
        s.result_cnt = cnt;
        s
    }

    /// The statement that inserts `item_count` role paths.
    fn generate_prepared_statement(&self, item_count: usize) -> (r: String)
        ensures
            r@ == insert_statement("role"@, "path"@, item_count as nat, true),
    {
        insert_statement_text("role", "path", item_count, true)
    }

    /// The statement that adds the roles and its parameters, the paths of
    /// every distinct role name in lower case under `any`. Fails when no
    /// name was given, or on the first name with a dot, a space or a double
    /// underscore.
    pub fn prepare(&self) -> (r: Result<(String, Vec<String>), AddRolesError>)
        ensures
            all_ascii(self@) ==> role_names(self@) == ascii_lowered(first_occurrences(self@), ""@),
            r matches Err(AddRolesError::NoRoleNamesError) <==> self@.len() == 0,
            r matches Err(AddRolesError::InvalidRole { .. }) <==> self@.len() > 0 && exists|i: int|
                0 <= i < role_names(self@).len() && bad_role(#[trigger] role_names(self@)[i]),
            r matches Err(AddRolesError::InvalidRole { role, kind }) ==> kind
                == InvalidRoleKind::InvalidCharacter && first_bad_role(role_names(self@), role@),
            !(r matches Err(AddRolesError::TokioPostgresError { .. })),
            r matches Ok((stmt, params)) ==> params.deep_view() == expanded_paths(
                "any"@,
                role_names(self@),
                '_',
            ) && stmt@ == insert_statement("role"@, "path"@, params.len() as nat, true),
    {
        let unique = unique_names(&self.names);
        let roles = lowercase_each(&unique, "");
        proof {
            if all_ascii(self@) {
                let fo = first_occurrences(self@);
                lemma_first_occurrences_ascii(self@);
                assert forall|i: int| 0 <= i < fo.len() implies lowercase(#[trigger] fo[i])
                    == ascii_lower(fo[i]) by {
                    assert(is_ascii_text(unique.deep_view()[i]));
                }
                lemma_lowered_ascii(fo, ""@);
            }
        }
        proof {
            lemma_first_occurrences_empty(self@);
            assert(roles.deep_view().len() == roles@.len());
        }
        if roles.len() == 0 {
            return Err(AddRolesError::NoRoleNamesError);
        }
        let ghost rs = role_names(self@);
        let mut i: usize = 0;
        while i < roles.len()
            invariant
                roles.deep_view() == rs,
                rs == role_names(self@),
                self@.len() > 0,
                all_ascii(self@) ==> role_names(self@) == ascii_lowered(
                    first_occurrences(self@),
                    ""@,
                ),
                i <= roles.len(),
                forall|j: int| 0 <= j < i ==> !bad_role(#[trigger] rs[j]),
            decreases roles.len() - i,
        {
            assert(rs[i as int] == roles@[i as int]@);
            let role = roles[i].as_str();
            if has_char(role, '.') || has_char(role, ' ') || has_char_pair(role, '_') {
                assert(bad_role(rs[i as int]));
                return Err(
                    AddRolesError::InvalidRole {
                        role: roles[i].clone(),
                        kind: InvalidRoleKind::InvalidCharacter,
                    },
                );
            }
            i = i + 1;
        }
        let paths = expand_paths(&roles, "any", '_');
        let stmt = self.generate_prepared_statement(paths.len());
        Ok((stmt, paths))
    }
}

} // verus!
