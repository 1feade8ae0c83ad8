//! Pieces shared by the builders that insert rows: the first occurrences of
//! names, the paths a dotted name expands to, and the text of a
//! multi-row INSERT statement.
use crate::text::{
    ascii_lower, decimal, is_ascii_text, join, join_with, lemma_join_split, lemma_split_len,
    lowercase, replace_char,
    split_char, to_lowercase, usize_text,
};
use vstd::seq_lib::lemma_flatten_concat;
use itertools::Itertools;
use vstd::prelude::*;

verus! {

/// The items of `s` in order, each kept only where it first occurs.
pub open spec fn first_occurrences(s: Seq<Seq<char>>) -> Seq<Seq<char>>
    decreases s.len(),
{
    if s.len() == 0 {
        Seq::empty()
    } else {
        let before = first_occurrences(s.drop_last());
        if s.drop_last().contains(s.last()) {
            before
        } else {
            before.push(s.last())
        }
    }
}

/// Keeping first occurrences leaves something of anything non-empty.
pub proof fn lemma_first_occurrences_empty(s: Seq<Seq<char>>)
    ensures
        first_occurrences(s).len() == 0 <==> s.len() == 0,
    decreases s.len(),
{
    if s.len() > 0 {
        lemma_first_occurrences_empty(s.drop_last());
        if s.drop_last().contains(s.last()) {
            assert(s.drop_last().len() > 0);
        }
    }
}

/// `Itertools::unique` on the names: the names in order, without the
/// repeats of an earlier name (itertools documents the adaptor as stable,
/// keeping the first of equal items).
#[verifier::external_body]
pub(crate) fn unique_names(names: &Vec<String>) -> (r: Vec<String>)
    ensures
        r.deep_view() == first_occurrences(names.deep_view()),
{
    names.iter().unique().cloned().collect()
}

/// Keeping first occurrences keeps every item and repeats none.
pub proof fn lemma_first_occurrences_distinct(s: Seq<Seq<char>>)
    ensures
        first_occurrences(s).no_duplicates(),
        forall|x: Seq<char>| s.contains(x) <==> #[trigger] first_occurrences(s).contains(x),
    decreases s.len(),
{
    if s.len() > 0 {
        let t = s.drop_last();
        lemma_first_occurrences_distinct(t);
        let before = first_occurrences(t);
        assert forall|x: Seq<char>| s.contains(x) <==> (t.contains(x) || x == s.last()) by {
            if s.contains(x) {
                let j = choose|j: int| 0 <= j < s.len() && s[j] == x;
                if j < s.len() - 1 {
                    assert(t[j] == x);
                }
            }
            if t.contains(x) {
                let j = choose|j: int| 0 <= j < t.len() && t[j] == x;
                assert(s[j] == x);
            }
            if x == s.last() {
                assert(s[s.len() - 1] == x);
            }
        }
        if !t.contains(s.last()) {
            let after = before.push(s.last());
            assert forall|x: Seq<char>| after.contains(x) <==> (before.contains(x) || x
                == s.last()) by {
                if after.contains(x) {
                    let j = choose|j: int| 0 <= j < after.len() && after[j] == x;
                    if j < before.len() {
                        assert(before[j] == x);
                    }
                }
                if before.contains(x) {
                    let j = choose|j: int| 0 <= j < before.len() && before[j] == x;
                    assert(after[j] == x);
                }
                if x == s.last() {
                    assert(after[after.len() - 1] == x);
                }
            }
            assert forall|a: int, b: int|
                0 <= a < after.len() && 0 <= b < after.len() && a != b implies after[a]
                != after[b] by {
                if a == after.len() - 1 && b < before.len() {
                    assert(before.contains(after[b]));
                } else if b == after.len() - 1 && a < before.len() {
                    assert(before.contains(after[a]));
                }
            }
        }
    }
}

/// The element `k` of part `i` is in the flattened parts.
proof fn lemma_flatten_holds<A>(n: nat, f: spec_fn(int) -> Seq<A>, i: int, k: int)
    requires
        0 <= i < n,
        0 <= k < f(i).len(),
    ensures
        Seq::new(n, f).flatten().contains(f(i)[k]),
{
    let g = |j: int| f(j + i + 1);
    assert(Seq::new(n, f) =~= Seq::new((i + 1) as nat, f) + Seq::new((n - i - 1) as nat, g));
    lemma_flatten_concat(Seq::new((i + 1) as nat, f), Seq::new((n - i - 1) as nat, g));
    assert(Seq::new((i + 1) as nat, f) =~= Seq::new(i as nat, f).push(f(i)));
    Seq::new(i as nat, f).lemma_flatten_push(f(i));
    let front = Seq::new(i as nat, f).flatten();
    let all = Seq::new(n, f).flatten();
    assert(all[front.len() + k] == f(i)[k]);
}

/// Each name's own path is among the paths of the names: the base, a dot,
/// and the name with its separators turned into dots.
pub proof fn lemma_expanded_paths_hold_names(
    base: Seq<char>,
    names: Seq<Seq<char>>,
    sep: char,
    i: int,
)
    requires
        0 <= i < names.len(),
    ensures
        expanded_paths(base, names, sep).contains(base + "."@ + replace_char(names[i], sep, '.')),
{
    let f = |j: int| path_prefixes(base, split_char(names[j], sep));
    let pieces = split_char(names[i], sep);
    lemma_split_len(names[i], sep);
    let k = pieces.len() - 1;
    assert(pieces.take(k + 1) =~= pieces);
    lemma_join_split(names[i], sep, '.');
    reveal_strlit(".");
    assert("."@ =~= seq!['.']);
    assert(f(i)[k] == base + "."@ + replace_char(names[i], sep, '.'));
    lemma_flatten_holds(names.len(), f, i, k);
}

/// The paths that a name of dot- or underscore-separated pieces stands for
/// under `base`: `base.p0`, `base.p0.p1`, and so on, one per piece.
pub open spec fn path_prefixes(base: Seq<char>, pieces: Seq<Seq<char>>) -> Seq<Seq<char>> {
    Seq::new(pieces.len(), |k: int| base + "."@ + join(pieces.take(k + 1), "."@))
}

/// The paths of each name in turn, one after another.
pub open spec fn expanded_paths(base: Seq<char>, names: Seq<Seq<char>>, sep: char) -> Seq<
    Seq<char>,
> {
    Seq::new(names.len(), |i: int| path_prefixes(base, split_char(names[i], sep))).flatten()
}

/// Append to `out` the paths of `name` under `base`, its pieces separated
/// by `sep`.
pub fn push_path_prefixes(out: &mut Vec<String>, base: &str, name: &str, sep: char)
    ensures
        final(out).deep_view() == old(out).deep_view() + path_prefixes(
            base@,
            split_char(name@, sep),
        ),
{
    let pieces = crate::text::split_on(name, sep);
    let ghost p = split_char(name@, sep);
    let ghost start = out.deep_view();
    let mut previous = String::from_str(base);
    let mut k: usize = 0;
    while k < pieces.len()
        invariant
            pieces.deep_view() == p,
            k <= pieces.len(),
            out.deep_view() == start + path_prefixes(base@, p.take(k as int)),
            k == 0 ==> previous@ == base@,
            k > 0 ==> previous@ == base@ + "."@ + join(p.take(k as int), "."@),
        decreases pieces.len() - k,
    {
        let mut next = previous.clone();
        next.append(".");
        next.append(pieces[k].as_str());
        proof {
            let t = p.take(k as int + 1);
            assert(t.drop_last() =~= p.take(k as int));
            assert(t.last() == pieces@[k as int]@);
            if k == 0 {
                assert(join(t, "."@) == t[0]);
                assert(next@ =~= base@ + "."@ + join(t, "."@));
            } else {
                assert(join(t, "."@) == join(t.drop_last(), "."@) + "."@ + t.last());
                assert(next@ =~= base@ + "."@ + join(t, "."@));
            }
        }
        let ghost before = out.deep_view();
        out.push(next.clone());
        assert(out.deep_view() =~= before.push(next@));
        previous = next;
        proof {
            assert forall|j: int| 0 <= j < k + 1 implies #[trigger] p.take(k as int + 1).take(j + 1)
                =~= p.take(j + 1) by {}
            assert forall|j: int| 0 <= j < k implies #[trigger] p.take(k as int).take(j + 1)
                =~= p.take(j + 1) by {}
            assert(path_prefixes(base@, p.take(k as int + 1)) =~= path_prefixes(
                base@,
                p.take(k as int),
            ).push(base@ + "."@ + join(p.take(k as int + 1), "."@)));
            assert(out.deep_view() =~= start + path_prefixes(base@, p.take(k as int + 1)));
        }
        k = k + 1;
    }
    assert(p.take(pieces.len() as int) =~= p);
}

/// One placeholder of a VALUES list: ` ($n)`, or ` (text2ltree($n))` for a
/// path.
pub open spec fn placeholder(n: nat, ltree: bool) -> Seq<char> {
    if ltree {
        " (text2ltree($"@ + decimal(n) + "))"@
    } else {
        " ($"@ + decimal(n) + ")"@
    }
}

/// The placeholders for `n` rows, numbered from 1 and joined by commas.
pub open spec fn placeholders(n: nat, ltree: bool) -> Seq<char> {
    join(Seq::new(n, |i: int| placeholder((i + 1) as nat, ltree)), ","@)
}

/// The statement that inserts `n` rows into one column of `table`,
/// skipping those already there.
pub open spec fn insert_statement(table: Seq<char>, column: Seq<char>, n: nat, ltree: bool) -> Seq<
    char,
> {
    "INSERT INTO "@ + table + " ("@ + column + ") VALUES "@ + placeholders(n, ltree)
        + " ON CONFLICT ("@ + column + ") DO NOTHING"@
}

/// The text of `insert_statement`.
pub fn insert_statement_text(table: &str, column: &str, n: usize, ltree: bool) -> (r: String)
    ensures
        r@ == insert_statement(table@, column@, n as nat, ltree),
{
    let mut items: Vec<String> = Vec::new();
    let mut i: usize = 0;
    while i < n
        invariant
            i <= n,
            items.len() == i,
            forall|j: int| 0 <= j < i ==> #[trigger] items@[j]@ == placeholder((j + 1) as nat, ltree),
        decreases n - i,
    {
        let num = usize_text(i + 1);
        let mut item = if ltree {
            String::from_str(" (text2ltree($")
        } else {
            String::from_str(" ($")
        };
        item.append(num.as_str());
        if ltree {
            item.append("))");
        } else {
            item.append(")");
        }
        items.push(item);
        i = i + 1;
    }
    assert(items.deep_view() =~= Seq::new(n as nat, |i: int| placeholder((i + 1) as nat, ltree)));
    let list = join_with(&items, ",");
    let mut s = String::from_str("INSERT INTO ");
    s.append(table);
    s.append(" (");
    s.append(column);
    s.append(") VALUES ");
    s.append(list.as_str());
    s.append(" ON CONFLICT (");
    s.append(column);
    s.append(") DO NOTHING");
    s
}

/// The paths of every name, in order.
pub fn expand_paths(names: &Vec<String>, base: &str, sep: char) -> (r: Vec<String>)
    ensures
        r.deep_view() == expanded_paths(base@, names.deep_view(), sep),
{
    let ghost f = |i: int| path_prefixes(base@, split_char(names.deep_view()[i], sep));
    let mut out: Vec<String> = Vec::new();
    let mut i: usize = 0;
    while i < names.len()
        invariant
            i <= names.len(),
            f == (|i: int| path_prefixes(base@, split_char(names.deep_view()[i], sep))),
            out.deep_view() == Seq::new(i as nat, f).flatten(),
        decreases names.len() - i,
    {
        push_path_prefixes(&mut out, base, names[i].as_str(), sep);
        proof {
            assert(names.deep_view()[i as int] == names@[i as int]@);
            assert(Seq::new(i as nat + 1, f) =~= Seq::new(i as nat, f).push(f(i as int)));
            Seq::new(i as nat, f).lemma_flatten_push(f(i as int));
        }
        i = i + 1;
    }
    assert(Seq::new(names.len() as nat, f) =~= Seq::new(
        names.deep_view().len(),
        |i: int| path_prefixes(base@, split_char(names.deep_view()[i], sep)),
    ));
    out
}

/// Each name in lower case, after `prefix`.
pub open spec fn lowered(names: Seq<Seq<char>>, prefix: Seq<char>) -> Seq<Seq<char>> {
    names.map_values(|x: Seq<char>| prefix + lowercase(x))
}

/// Every name is ASCII text.
pub open spec fn all_ascii(names: Seq<Seq<char>>) -> bool {
    forall|i: int| 0 <= i < names.len() ==> is_ascii_text(#[trigger] names[i])
}

/// Each name in ASCII lower case, after `prefix`.
pub open spec fn ascii_lowered(names: Seq<Seq<char>>, prefix: Seq<char>) -> Seq<Seq<char>> {
    names.map_values(|x: Seq<char>| prefix + ascii_lower(x))
}

/// Each name in lower case, after `prefix`; for a name of ASCII text the
/// lower case is the ASCII one.
pub fn lowercase_each(names: &Vec<String>, prefix: &str) -> (r: Vec<String>)
    ensures
        r.deep_view() == lowered(names.deep_view(), prefix@),
        forall|i: int|
            0 <= i < names.len() && is_ascii_text(#[trigger] names.deep_view()[i]) ==> lowercase(
                names.deep_view()[i],
            ) == ascii_lower(names.deep_view()[i]),
{
    let mut out: Vec<String> = Vec::new();
    let mut i: usize = 0;
    while i < names.len()
        invariant
            i <= names.len(),
            out.len() == i,
            forall|j: int| 0 <= j < i ==> #[trigger] out@[j]@ == prefix@ + lowercase(names@[j]@),
            forall|j: int|
                0 <= j < i && is_ascii_text(#[trigger] names.deep_view()[j]) ==> lowercase(
                    names.deep_view()[j],
                ) == ascii_lower(names.deep_view()[j]),
        decreases names.len() - i,
    {
        let low = to_lowercase(names[i].as_str());
        assert(names.deep_view()[i as int] == names@[i as int]@);
        let mut item = String::from_str(prefix);
        item.append(low.as_str());
        out.push(item);
        i = i + 1;
    }
    assert(out.deep_view() =~= lowered(names.deep_view(), prefix@));
    out
}

/// Where the lower case of each of the names is their ASCII lower case,
/// the names lowered are the names ASCII-lowered.
pub proof fn lemma_lowered_ascii(names: Seq<Seq<char>>, prefix: Seq<char>)
    requires
        forall|i: int|
            0 <= i < names.len() ==> lowercase(#[trigger] names[i]) == ascii_lower(names[i]),
    ensures
        lowered(names, prefix) == ascii_lowered(names, prefix),
{
    assert(lowered(names, prefix) =~= ascii_lowered(names, prefix));
}

/// The first occurrences of ASCII names are ASCII names.
pub proof fn lemma_first_occurrences_ascii(names: Seq<Seq<char>>)
    requires
        all_ascii(names),
    ensures
        all_ascii(first_occurrences(names)),
{
    lemma_first_occurrences_distinct(names);
    let f = first_occurrences(names);
    assert forall|i: int| 0 <= i < f.len() implies is_ascii_text(#[trigger] f[i]) by {
        assert(f.contains(f[i]));
        assert(names.contains(f[i]));
        let j = choose|j: int| 0 <= j < names.len() && names[j] == f[i];
        assert(is_ascii_text(names[j]));
    }
}
} // verus!
