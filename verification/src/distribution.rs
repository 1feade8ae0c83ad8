//! Distributions: a package name and a version joined by a single dash,
//! such as `maya-2018.sp3`.
use crate::coords_error::CoordsError;
use crate::text::{
    char_count, count_char, find_char_from, join, has_char, has_char_pair, has_pair, lemma_join_split,
    lemma_replace_same, lemma_split_at, lemma_split_first, lemma_split_len,
    lemma_split_without_sep, split_char,
};
use vstd::prelude::*;

verus! {

/// A distribution of a package, named `package-version`.
#[derive(Debug, PartialEq, Eq, PartialOrd, Ord)]
pub struct Distribution {
    name: String,
}

impl View for Distribution {
    type V = Seq<char>;

    /// The distribution's name.
    closed spec fn view(&self) -> Seq<char> {
        self.name@
    }
}

/// `prefix`, then the name in single quotes.
pub open spec fn quoted_problem(prefix: Seq<char>, name: Seq<char>) -> Seq<char> {
    prefix + name + "'"@
}

/// The first naming rule that `name` breaks, told as the message that the
/// error carries, or `None` when it breaks none. The rules are checked in
/// this order: not blank, exactly one dash, no space, no double underscore,
/// no leading underscore.
pub open spec fn distribution_problem(name: Seq<char>) -> Option<Seq<char>> {
    if name.len() == 0 {
        Some("name is blank"@)
    } else if count_char(name, '-') != 1 {
        Some(quoted_problem("distribution name must have a single dash in it: '"@, name))
    } else if name.contains(' ') {
        Some(quoted_problem("Contains space in name: '"@, name))
    } else if has_pair(name, '_') {
        Some(quoted_problem("double underscore in name not permitted: '"@, name))
    } else if name[0] == '_' {
        Some(quoted_problem("name not allowed to start with underscore: '"@, name))
    } else {
        None
    }
}

/// The problem message: `prefix`, then `name` in single quotes.
fn problem_message(prefix: &str, name: &str) -> (r: String)
    ensures
        r@ == quoted_problem(prefix@, name@),
{
    let mut m = String::from_str(prefix);
    m.append(name);
    m.append("'");
    m
}

/// Check a distribution name against the naming rules, handing it back
/// when it keeps them all.
pub fn validate(name: String) -> (r: Result<String, CoordsError>)
    ensures
        match r {
            Ok(n) => n@ == name@ && distribution_problem(name@) is None,
            Err(CoordsError::DistributionConstructionError { problem }) => distribution_problem(
                name@,
            ) == Some(problem@),
            Err(_) => false,
        },
{
    let s = name.as_str();
    if s.is_empty() {
        return Err(
            CoordsError::DistributionConstructionError { problem: String::from_str("name is blank") },
        );
    }
    if char_count(s, '-') != 1 {
        return Err(
            CoordsError::DistributionConstructionError {
                problem: problem_message("distribution name must have a single dash in it: '", s),
            },
        );
    }
    if has_char(s, ' ') {
        return Err(
            CoordsError::DistributionConstructionError {
                problem: problem_message("Contains space in name: '", s),
            },
        );
    }
    if has_char_pair(s, '_') {
        return Err(
            CoordsError::DistributionConstructionError {
                problem: problem_message("double underscore in name not permitted: '", s),
            },
        );
    }
    if s.get_char(0) == '_' {
        return Err(
            CoordsError::DistributionConstructionError {
                problem: problem_message("name not allowed to start with underscore: '", s),
            },
        );
    }
    Ok(name)
}

/// A name that keeps the naming rules is its package and its version
/// joined by its one dash: `package()`, `-` and `version()` give the name
/// back.
pub proof fn lemma_package_dash_version(name: Seq<char>)
    requires
        distribution_problem(name) is None,
    ensures
        split_char(name, '-').len() == 2,
        split_char(name, '-')[0] + "-"@ + split_char(name, '-')[1] == name,
{
    lemma_split_len(name, '-');
    lemma_join_split(name, '-', '-');
    lemma_replace_same(name, '-');
    let p = split_char(name, '-');
    assert(p.drop_last() =~= seq![p[0]]);
    assert(join(p.drop_last(), seq!['-']) == p[0]);
    assert(join(p, seq!['-']) == p[0] + seq!['-'] + p[1]);
    reveal_strlit("-");
    assert("-"@ =~= seq!['-']);
}

impl Distribution {
    /// A distribution of the given name, when the name keeps the naming rules.
    pub fn new(name: &str) -> (r: Result<Distribution, CoordsError>)
        ensures
            match r {
                Ok(d) => d@ == name@ && distribution_problem(name@) is None,
                Err(CoordsError::DistributionConstructionError { problem }) => distribution_problem(
                    name@,
                ) == Some(problem@),
                Err(_) => false,
            },
    {
        let name = validate(String::from_str(name))?;
        Ok(Distribution { name })
    }

    /// A distribution of the given name, taken as it is.
    pub(crate) fn new_unchecked(name: &str) -> (r: Distribution)
        ensures
            r@ == name@,
    {
        Distribution { name: String::from_str(name) }
    }

    /// The package: the name up to its first dash.
    pub fn package(&self) -> (r: &str)
        ensures
            r@ == split_char(self@, '-')[0],
    {
        let s = self.name.as_str();
        let k = find_char_from(s, '-', 0);
        proof {
            lemma_split_first(s@, '-', k as int);
        }
        s.substring_char(0, k)
    }

    /// The version: the part of the name between its first dash and the
    /// next dash or the end.
    pub fn version(&self) -> (r: &str)
        requires
            self@.contains('-'),
        ensures
            r@ == split_char(self@, '-')[1],
    {
        let s = self.name.as_str();
        let i = find_char_from(s, '-', 0);
        assert(i < s@.len()) by {
            let j = choose|j: int| 0 <= j < s@.len() && s@[j] == '-';
            if i == s@.len() {
                assert(s@[j] != '-');
            }
        }
        let k = find_char_from(s, '-', i + 1);
        proof {
            let rest = s@.skip(i + 1);
            lemma_split_at(s@, '-', i as int);
            lemma_split_first(s@.take(i as int), '-', i as int);
            lemma_split_without_sep(s@.take(i as int), '-');
            assert forall|j: int| 0 <= j < k - (i + 1) implies rest[j] != '-' by {
                assert(rest[j] == s@[j + i + 1]);
            }
            lemma_split_first(rest, '-', k - (i + 1));
            assert(rest.take(k - (i + 1)) =~= s@.subrange(i + 1, k as int));
        }
        s.substring_char(i + 1, k)
    }

    /// The whole name of the distribution.
    pub fn distribution(&self) -> (r: &str)
        ensures
            r@ == self@,
    {
        self.name.as_str()
    }

    /// The name, as the distribution is displayed.
    pub fn to_string(&self) -> (r: String)
        ensures
            r@ == self@,
    {
        self.name.clone()
    }
}

} // verus!
