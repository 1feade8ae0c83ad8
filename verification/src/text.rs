//! Character-level text operations used to validate names and to build
//! SQL statements, each stated over the `Seq<char>` view of a string.
use vstd::prelude::*;

verus! {

// ---------------------------------------------------------------------------
// Specifications
// ---------------------------------------------------------------------------
/// Number of occurrences of `c` in `s`.
pub open spec fn count_char(s: Seq<char>, c: char) -> nat
    decreases s.len(),
{
    if s.len() == 0 {
        0
    } else {
        count_char(s.drop_last(), c) + (if s.last() == c {
            1nat
        } else {
            0nat
        })
    }
}

/// `s` holds two consecutive copies of `c` somewhere.
pub open spec fn has_pair(s: Seq<char>, c: char) -> bool {
    exists|i: int| 0 <= i && i + 1 < s.len() && #[trigger] s[i] == c && s[i + 1] == c
}

/// `a` followed directly by `b` occurs somewhere in `s`.
pub open spec fn has_adjacent(s: Seq<char>, a: char, b: char) -> bool {
    exists|i: int| 0 <= i && i + 1 < s.len() && #[trigger] s[i] == a && s[i + 1] == b
}

/// `s` with every `from` replaced by `to`.
pub open spec fn replace_char(s: Seq<char>, from: char, to: char) -> Seq<char> {
    s.map_values(|x: char| if x == from { to } else { x })
}

/// Whether `t` occurs in `s`.
pub open spec fn has_infix(s: Seq<char>, t: Seq<char>) -> bool {
    exists|i: int| 0 <= i && i + t.len() <= s.len() && #[trigger] s.subrange(i, i + t.len()) == t
}

/// Whether `s` ends with `t`.
pub open spec fn ends_with(s: Seq<char>, t: Seq<char>) -> bool {
    t.len() <= s.len() && s.subrange(s.len() - t.len(), s.len() as int) == t
}

/// The middle of three pieces occurs in their concatenation.
pub proof fn lemma_infix_concat(a: Seq<char>, b: Seq<char>, c: Seq<char>)
    ensures
        has_infix(a + b + c, b),
{
    assert((a + b + c).subrange(a.len() as int, (a.len() + b.len()) as int) =~= b);
}

/// A piece that occurs in `s` occurs in any text around `s`.
pub proof fn lemma_infix_within(a: Seq<char>, s: Seq<char>, b: Seq<char>, t: Seq<char>)
    requires
        has_infix(s, t),
    ensures
        has_infix(a + s + b, t),
{
    let i = choose|i: int| 0 <= i && i + t.len() <= s.len() && #[trigger] s.subrange(i, i + t.len()) == t;
    let j: int = a.len() + i;
    assert((a + s + b).subrange(j, j + t.len()) =~= s.subrange(i, i + t.len()));
}

/// A piece occurs in any text that starts with it.
pub proof fn lemma_infix_prefix(s: Seq<char>, t: Seq<char>, a: Seq<char>)
    requires
        t.len() <= s.len(),
        s.take(t.len() as int) == t,
    ensures
        has_infix(a + s, t),
{
    assert((a + s).subrange(a.len() as int, (a.len() + t.len()) as int) =~= t);
}

/// The pieces of `s` between occurrences of `sep`, as `str::split` yields them:
/// there is always one piece more than there are separators.
pub open spec fn split_char(s: Seq<char>, sep: char) -> Seq<Seq<char>>
    decreases s.len(),
{
    if s.len() == 0 {
        seq![Seq::<char>::empty()]
    } else {
        let rest = split_char(s.drop_last(), sep);
        if s.last() == sep {
            rest.push(Seq::<char>::empty())
        } else {
            rest.update(rest.len() - 1, rest.last().push(s.last()))
        }
    }
}

/// The pieces joined with `sep` between each two of them.
pub open spec fn join(pieces: Seq<Seq<char>>, sep: Seq<char>) -> Seq<char>
    decreases pieces.len(),
{
    if pieces.len() == 0 {
        Seq::<char>::empty()
    } else if pieces.len() == 1 {
        pieces[0]
    } else {
        join(pieces.drop_last(), sep) + sep + pieces.last()
    }
}

/// The character of a decimal digit.
pub open spec fn digit(d: nat) -> char {
    if d == 0 {
        '0'
    } else if d == 1 {
        '1'
    } else if d == 2 {
        '2'
    } else if d == 3 {
        '3'
    } else if d == 4 {
        '4'
    } else if d == 5 {
        '5'
    } else if d == 6 {
        '6'
    } else if d == 7 {
        '7'
    } else if d == 8 {
        '8'
    } else {
        '9'
    }
}

/// Decimal notation of a natural number, without leading zeros.
pub open spec fn decimal(n: nat) -> Seq<char>
    decreases n,
{
    if n < 10 {
        seq![digit(n)]
    } else {
        decimal(n / 10).push(digit(n % 10))
    }
}

/// Decimal notation of an integer, with a leading `-` when it is negative.
pub open spec fn int_text(n: int) -> Seq<char> {
    if n < 0 {
        seq!['-'] + decimal((-n) as nat)
    } else {
        decimal(n as nat)
    }
}

/// ASCII lower case of one character; other characters are unchanged.
pub open spec fn ascii_lower_char(c: char) -> char {
    if 'A' <= c && c <= 'Z' {
        ((c as u32) + 32) as char
    } else {
        c
    }
}

/// ASCII lower case of a text, as `str::to_ascii_lowercase` makes it.
pub open spec fn ascii_lower(s: Seq<char>) -> Seq<char> {
    s.map_values(|c: char| ascii_lower_char(c))
}

/// Every character of the text is ASCII.
pub open spec fn is_ascii_text(s: Seq<char>) -> bool {
    forall|i: int| 0 <= i < s.len() ==> (#[trigger] s[i] as u32) < 128
}

/// The lower case of a text as `str::to_lowercase` makes it (full Unicode
/// case mapping).
pub uninterp spec fn lowercase(s: Seq<char>) -> Seq<char>;

// ---------------------------------------------------------------------------
// Facts about splitting
// ---------------------------------------------------------------------------
/// Splitting yields one piece more than there are separators.
pub proof fn lemma_split_len(s: Seq<char>, c: char)
    ensures
        split_char(s, c).len() == count_char(s, c) + 1,
    decreases s.len(),
{
    if s.len() > 0 {
        lemma_split_len(s.drop_last(), c);
    }
}

/// A text without the separator is a single piece.
pub proof fn lemma_split_without_sep(s: Seq<char>, c: char)
    requires
        !s.contains(c),
    ensures
        split_char(s, c) == seq![s],
    decreases s.len(),
{
    if s.len() > 0 {
        let d = s.drop_last();
        assert(!d.contains(c)) by {
            if d.contains(c) {
                let j = choose|j: int| 0 <= j < d.len() && d[j] == c;
                assert(s[j] == c);
            }
        }
        lemma_split_without_sep(d, c);
        assert(s.last() != c) by {
            assert(s[s.len() - 1] == s.last());
        }
        assert(d.push(s.last()) =~= s);
        assert(split_char(s, c) =~= seq![s]);
    } else {
        assert(s =~= Seq::<char>::empty());
    }
}

/// Splitting at a separator at position `i` splits the two sides apart.
pub proof fn lemma_split_at(s: Seq<char>, c: char, i: int)
    requires
        0 <= i < s.len(),
        s[i] == c,
    ensures
        split_char(s, c) == split_char(s.take(i), c) + split_char(s.skip(i + 1), c),
    decreases s.len(),
{
    if i == s.len() - 1 {
        assert(s.drop_last() =~= s.take(i));
        assert(s.skip(i + 1) =~= Seq::<char>::empty());
        assert(split_char(s, c) =~= split_char(s.take(i), c) + split_char(s.skip(i + 1), c));
    } else {
        let d = s.drop_last();
        lemma_split_at(d, c, i);
        assert(d.take(i) =~= s.take(i));
        let r = s.skip(i + 1);
        assert(r.drop_last() =~= d.skip(i + 1));
        assert(r.last() == s.last());
        lemma_split_len(d.skip(i + 1), c);
        let a = split_char(s.take(i), c);
        let b = split_char(d.skip(i + 1), c);
        if s.last() == c {
            assert(split_char(s, c) =~= a + b.push(Seq::<char>::empty()));
        } else {
            assert((a + b).update((a + b).len() - 1, (a + b).last().push(s.last())) =~= a
                + b.update(b.len() - 1, b.last().push(s.last())));
        }
    }
}

/// The first piece ends at the first separator, or at the end of the text.
pub proof fn lemma_split_first(s: Seq<char>, c: char, k: int)
    requires
        0 <= k <= s.len(),
        forall|j: int| 0 <= j < k ==> s[j] != c,
        k < s.len() ==> s[k] == c,
    ensures
        split_char(s, c)[0] == s.take(k),
        split_char(s, c).len() >= 1,
{
    assert(!s.take(k).contains(c)) by {
        if s.take(k).contains(c) {
            let j = choose|j: int| 0 <= j < k && s.take(k)[j] == c;
            assert(s[j] == c);
        }
    }
    lemma_split_without_sep(s.take(k), c);
    if k < s.len() {
        lemma_split_at(s, c, k);
    } else {
        assert(s.take(k) =~= s);
    }
}

/// Extending the last piece extends the joined text.
pub proof fn lemma_join_push_last(p: Seq<Seq<char>>, sep: Seq<char>, x: char)
    requires
        p.len() >= 1,
    ensures
        join(p.update(p.len() - 1, p.last().push(x)), sep) == join(p, sep).push(x),
{
    let q = p.update(p.len() - 1, p.last().push(x));
    if p.len() == 1 {
        assert(q[0] == p[0].push(x));
    } else {
        assert(q.drop_last() =~= p.drop_last());
        assert(q.last() == p.last().push(x));
        assert(join(q, sep) =~= join(p, sep).push(x));
    }
}

/// Splitting at `c` and joining with `d` replaces each `c` by `d`.
pub proof fn lemma_join_split(s: Seq<char>, c: char, d: char)
    ensures
        join(split_char(s, c), seq![d]) == replace_char(s, c, d),
    decreases s.len(),
{
    if s.len() == 0 {
        assert(replace_char(s, c, d) =~= Seq::<char>::empty());
    } else {
        let t = s.drop_last();
        lemma_join_split(t, c, d);
        lemma_split_len(t, c);
        let rest = split_char(t, c);
        assert(replace_char(s, c, d) =~= replace_char(t, c, d).push(
            if s.last() == c {
                d
            } else {
                s.last()
            },
        ));
        if s.last() == c {
            let q = rest.push(Seq::<char>::empty());
            assert(q.drop_last() =~= rest);
            assert(join(q, seq![d]) =~= join(rest, seq![d]) + seq![d]);
        } else {
            lemma_join_push_last(rest, seq![d], s.last());
        }
    }
}

/// Replacing a character by itself changes nothing.
pub proof fn lemma_replace_same(s: Seq<char>, c: char)
    ensures
        replace_char(s, c, c) == s,
{
    assert(replace_char(s, c, c) =~= s);
}

/// Two texts without `c`, joined by one `c`, split into the two texts.
pub proof fn lemma_split_two(a: Seq<char>, b: Seq<char>, c: char)
    requires
        !a.contains(c),
        !b.contains(c),
    ensures
        split_char(a + seq![c] + b, c) == seq![a, b],
        count_char(a + seq![c] + b, c) == 1,
{
    let s = a + seq![c] + b;
    assert(s[a.len() as int] == c);
    lemma_split_at(s, c, a.len() as int);
    assert(s.take(a.len() as int) =~= a);
    assert(s.skip(a.len() as int + 1) =~= b);
    lemma_split_without_sep(a, c);
    lemma_split_without_sep(b, c);
    assert(seq![a] + seq![b] =~= seq![a, b]);
    lemma_split_len(s, c);
}

// ---------------------------------------------------------------------------
// Calls into std
// ---------------------------------------------------------------------------
/// `String::push`: appends the character to the end of the string.
#[verifier::external_body]
pub fn push_char(s: &mut String, c: char)
    ensures
        final(s)@ == old(s)@.push(c),
{
    s.push(c)
}

/// `str::to_lowercase`: the lower-case equivalent of the text, as a new
/// `String`. Full Unicode case mapping is not written out here; the result
/// is named by `lowercase`. Of an ASCII text it is the ASCII lower case
/// (`A`..`Z` become `a`..`z`, every other character stays), as for
/// `str::to_ascii_lowercase`.
#[verifier::external_body]
pub fn to_lowercase(s: &str) -> (r: String)
    ensures
        r@ == lowercase(s@),
        is_ascii_text(s@) ==> r@ == ascii_lower(s@),
{
    s.to_lowercase()
}

// ---------------------------------------------------------------------------
// Verified operations
// ---------------------------------------------------------------------------
/// Whether two texts hold the same characters.
pub fn str_eq(a: &str, b: &str) -> (r: bool)
    ensures
        r == (a@ == b@),
{
    let n = a.unicode_len();
    let m = b.unicode_len();
    if n != m {
        return false;
    }
    let mut i: usize = 0;
    while i < n
        invariant
            n == a@.len(),
            n == b@.len(),
            i <= n,
            forall|j: int| 0 <= j < i ==> a@[j] == b@[j],
        decreases n - i,
    {
        if a.get_char(i) != b.get_char(i) {
            return false;
        }
        i = i + 1;
    }
    assert(a@ =~= b@);
    true
}

/// Count the occurrences of the character `c` in `s`.
pub fn char_count(s: &str, c: char) -> (n: usize)
    ensures
        n == count_char(s@, c),
{
    let len = s.unicode_len();
    let mut i: usize = 0;
    let mut n: usize = 0;
    while i < len
        invariant
            len == s@.len(),
            i <= len,
            n == count_char(s@.take(i as int), c),
            n <= i,
        decreases len - i,
    {
        let ch = s.get_char(i);
        assert(s@.take(i as int + 1).drop_last() =~= s@.take(i as int));
        if ch == c {
            n = n + 1;
        }
        i = i + 1;
    }
    assert(s@.take(len as int) =~= s@);
    n
}

/// Whether `c` occurs in `s`.
pub fn has_char(s: &str, c: char) -> (r: bool)
    ensures
        r == s@.contains(c),
{
    let len = s.unicode_len();
    let mut i: usize = 0;
    while i < len
        invariant
            len == s@.len(),
            i <= len,
            forall|j: int| 0 <= j < i ==> s@[j] != c,
        decreases len - i,
    {
        if s.get_char(i) == c {
            return true;
        }
        i = i + 1;
    }
    false
}

/// Whether `s` holds two consecutive copies of `c`.
pub fn has_char_pair(s: &str, c: char) -> (r: bool)
    ensures
        r == has_pair(s@, c),
{
    let len = s.unicode_len();
    if len < 2 {
        return false;
    }
    let mut i: usize = 0;
    while i + 1 < len
        invariant
            len == s@.len(),
            len >= 2,
            i + 1 <= len,
            forall|j: int| 0 <= j < i ==> !(#[trigger] s@[j] == c && s@[j + 1] == c),
        decreases len - i,
    {
        if s.get_char(i) == c && s.get_char(i + 1) == c {
            return true;
        }
        i = i + 1;
    }
    assert forall|j: int| 0 <= j && j + 1 < s@.len() implies !(#[trigger] s@[j] == c && s@[j
        + 1] == c) by {}
    false
}

/// `s` with every `from` replaced by `to`.
pub fn replace_char_in(s: &str, from: char, to: char) -> (r: String)
    ensures
        r@ == replace_char(s@, from, to),
{
    let len = s.unicode_len();
    let mut r = String::new();
    let mut i: usize = 0;
    while i < len
        invariant
            len == s@.len(),
            i <= len,
            r@ =~= replace_char(s@.take(i as int), from, to),
        decreases len - i,
    {
        let ch = s.get_char(i);
        if ch == from {
            push_char(&mut r, to);
        } else {
            push_char(&mut r, ch);
        }
        i = i + 1;
    }
    assert(s@.take(len as int) =~= s@);
    r
}

/// ASCII lower case of `s`, as `str::to_ascii_lowercase` makes it.
pub fn to_ascii_lower(s: &str) -> (r: String)
    ensures
        r@ == ascii_lower(s@),
{
    let len = s.unicode_len();
    let mut r = String::new();
    let mut i: usize = 0;
    while i < len
        invariant
            len == s@.len(),
            i <= len,
            r@ =~= ascii_lower(s@.take(i as int)),
        decreases len - i,
    {
        let ch = s.get_char(i);
        if 'A' <= ch && ch <= 'Z' {
            let lower = ((ch as u32) + 32) as u8;
            assert(65 <= ch as u32 <= 90);
            push_char(&mut r, lower as char);
            assert(lower as char == ascii_lower_char(ch));
        } else {
            push_char(&mut r, ch);
        }
        i = i + 1;
    }
    assert(s@.take(len as int) =~= s@);
    r
}

/// The character of the decimal digit `d`.
fn digit_char(d: u64) -> (c: char)
    requires
        d < 10,
    ensures
        c == digit(d as nat),
{
    match d {
        0 => '0',
        1 => '1',
        2 => '2',
        3 => '3',
        4 => '4',
        5 => '5',
        6 => '6',
        7 => '7',
        8 => '8',
        _ => '9',
    }
}

/// Append the decimal notation of `n` to `s`.
pub fn push_decimal(s: &mut String, n: u64)
    ensures
        final(s)@ == old(s)@ + decimal(n as nat),
    decreases n,
{
    if n >= 10 {
        push_decimal(s, n / 10);
    }
    push_char(s, digit_char(n % 10));
    proof {
        if n < 10 {
            assert(n % 10 == n);
        }
    }
}

/// The decimal notation of a count or position.
pub fn usize_text(n: usize) -> (r: String)
    ensures
        r@ == decimal(n as nat),
{
    let mut r = String::new();
    push_decimal(&mut r, n as u64);
    assert(r@ =~= decimal(n as nat));
    r
}

/// The decimal notation of a 32-bit integer, with a leading `-` when it is
/// negative, as `format!("{}", n)` writes it.
pub fn i32_text(n: i32) -> (r: String)
    ensures
        r@ == int_text(n as int),
{
    let mut r = String::new();
    if n < 0 {
        push_char(&mut r, '-');
        let m: i64 = -(n as i64);
        push_decimal(&mut r, m as u64);
    } else {
        push_decimal(&mut r, n as u64);
    }
    assert(r@ =~= int_text(n as int));
    r
}

/// The decimal notation of a 64-bit integer, with a leading `-` when it is
/// negative, as `format!("{}", n)` writes it.
pub fn i64_text(n: i64) -> (r: String)
    ensures
        r@ == int_text(n as int),
{
    let mut r = String::new();
    if n < 0 {
        push_char(&mut r, '-');
        let m: i128 = -(n as i128);
        push_decimal(&mut r, m as u64);
    } else {
        push_decimal(&mut r, n as u64);
    }
    assert(r@ =~= int_text(n as int));
    r
}

/// Split `s` at every occurrence of `sep`, as `str::split` does.
pub fn split_on(s: &str, sep: char) -> (r: Vec<String>)
    ensures
        r.deep_view() == split_char(s@, sep),
{
    let len = s.unicode_len();
    let mut pieces: Vec<String> = Vec::new();
    let mut cur = String::new();
    let mut i: usize = 0;
    while i < len
        invariant
            len == s@.len(),
            i <= len,
            pieces.deep_view() + seq![cur@] =~= split_char(s@.take(i as int), sep),
        decreases len - i,
    {
        let ch = s.get_char(i);
        let ghost prev = s@.take(i as int);
        assert(s@.take(i as int + 1).drop_last() =~= prev);
        if ch == sep {
            pieces.push(cur);
            cur = String::new();
            assert(pieces.deep_view() + seq![cur@] =~= split_char(s@.take(i as int), sep).push(
                Seq::<char>::empty(),
            ));
        } else {
            let ghost before = pieces.deep_view() + seq![cur@];
            push_char(&mut cur, ch);
            assert(pieces.deep_view() + seq![cur@] =~= before.update(
                before.len() - 1,
                before.last().push(ch),
            ));
        }
        i = i + 1;
    }
    assert(s@.take(len as int) =~= s@);
    pieces.push(cur);
    assert(pieces.deep_view() =~= split_char(s@, sep));
    pieces
}

/// Join `pieces` with `sep` between each two of them.
pub fn join_with(pieces: &Vec<String>, sep: &str) -> (r: String)
    ensures
        r@ == join(pieces.deep_view(), sep@),
{
    let n = pieces.len();
    let mut r = String::new();
    let mut i: usize = 0;
    while i < n
        invariant
            n == pieces.len(),
            i <= n,
            r@ =~= join(pieces.deep_view().take(i as int), sep@),
        decreases n - i,
    {
        let ghost pre = pieces.deep_view().take(i as int);
        assert(pieces.deep_view().take(i as int + 1).drop_last() =~= pre);
        if i > 0 {
            r.append(sep);
        }
        r.append(pieces[i].as_str());
        proof {
            if i == 0 {
                assert(r@ =~= pieces.deep_view().take(1)[0]);
            }
        }
        i = i + 1;
    }
    assert(pieces.deep_view().take(n as int) =~= pieces.deep_view());
    r
}

/// Position of the first `c` in `s` at or after `from`, or the length of
/// `s` when there is none.
pub fn find_char_from(s: &str, c: char, from: usize) -> (k: usize)
    requires
        from <= s@.len(),
    ensures
        from <= k <= s@.len(),
        s@.len() <= usize::MAX,
        forall|j: int| from <= j < k ==> s@[j] != c,
        k < s@.len() ==> s@[k as int] == c,
{
    let len = s.unicode_len();
    let mut i = from;
    while i < len
        invariant
            len == s@.len(),
            from <= i <= len,
            forall|j: int| from <= j < i ==> s@[j] != c,
        decreases len - i,
    {
        if s.get_char(i) == c {
            return i;
        }
        i = i + 1;
    }
    i
}

/// Whether `a` followed directly by `b` occurs in `s`.
pub fn has_char_adjacent(s: &str, a: char, b: char) -> (r: bool)
    ensures
        r == has_adjacent(s@, a, b),
{
    let len = s.unicode_len();
    if len < 2 {
        return false;
    }
    let mut i: usize = 0;
    while i + 1 < len
        invariant
            len == s@.len(),
            len >= 2,
            i + 1 <= len,
            forall|j: int| 0 <= j < i ==> !(#[trigger] s@[j] == a && s@[j + 1] == b),
        decreases len - i,
    {
        if s.get_char(i) == a && s.get_char(i + 1) == b {
            return true;
        }
        i = i + 1;
    }
    assert forall|j: int| 0 <= j && j + 1 < s@.len() implies !(#[trigger] s@[j] == a && s@[j
        + 1] == b) by {}
    false
}

} // verus!
