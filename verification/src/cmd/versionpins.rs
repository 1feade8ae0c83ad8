//! The parts of the version pin listing that decide what is shown: the
//! order asked for, the package kept and the text of the withs column.
use vstd::prelude::*;
use crate::db::find_all::versionpins::FindAllVersionPinsRow;
use crate::db::search_attribute::{parse_search_attribute, SearchAttribute};
use crate::text::{join, join_with, split_char, split_on, str_eq};

verus! {

/// The attribute that a name stands for, `Unknown` for a name that stands
/// for none.
pub open spec fn attribute_or_unknown(s: Seq<char>) -> SearchAttribute {
    match parse_search_attribute(s) {
        Some(a) => a,
        None => SearchAttribute::Unknown,
    }
}

/// The attributes of a comma separated order: each piece between commas
/// read as an attribute, `Unknown` where it names none.
pub fn order_attributes(order: &str) -> (r: Vec<SearchAttribute>)
    ensures
        r@ == split_char(order@, ',').map_values(|x: Seq<char>| attribute_or_unknown(x)),
{
    let pieces = split_on(order, ',');
    let mut out: Vec<SearchAttribute> = Vec::new();
    let mut i: usize = 0;
    while i < pieces.len()
        invariant
            i <= pieces.len(),
            pieces.deep_view() == split_char(order@, ','),
            out@ == pieces.deep_view().take(i as int).map_values(
                |x: Seq<char>| attribute_or_unknown(x),
            ),
        decreases pieces.len() - i,
    {
        let a = match SearchAttribute::from_str(pieces[i].as_str()) {
            Ok(a) => a,
            Err(_) => SearchAttribute::Unknown,
        };
        out.push(a);
        proof {
            assert(pieces.deep_view()[i as int] == pieces@[i as int]@);
            assert(pieces.deep_view().take(i as int + 1) =~= pieces.deep_view().take(
                i as int,
            ).push(pieces@[i as int]@));
        }
        i = i + 1;
        assert(out@ =~= pieces.deep_view().take(i as int).map_values(
            |x: Seq<char>| attribute_or_unknown(x),
        ));
    }
    assert(pieces.deep_view().take(pieces.len() as int) =~= pieces.deep_view());
    out
}

/// Whether a pin is kept when the listing asks for `package`: every pin
/// where no package is asked for, else the pins of that package.
pub open spec fn keeps_pin(row: FindAllVersionPinsRow, package: Option<Seq<char>>) -> bool {
    match package {
        Some(p) => split_char(row.distribution@, '-')[0] == p,
        None => true,
    }
}

/// The pins kept for `package`, in order.
pub open spec fn pins_kept(pins: Seq<FindAllVersionPinsRow>, package: Option<Seq<char>>) -> Seq<
    FindAllVersionPinsRow,
>
    decreases pins.len(),
{
    if pins.len() == 0 {
        Seq::empty()
    } else {
        let rest = pins_kept(pins.drop_first(), package);
        if keeps_pin(pins[0], package) {
            seq![pins[0]] + rest
        } else {
            rest
        }
    }
}

/// The pins of `package`, in order, or all of them where no package is
/// asked for.
pub fn pins_of_package(pins: Vec<FindAllVersionPinsRow>, package: Option<&str>) -> (r: Vec<
    FindAllVersionPinsRow,
>)
    ensures
        r@ == pins_kept(
            pins@,
            match package {
                Some(p) => Some(p@),
                None => None,
            },
        ),
{
    let ghost wanted: Option<Seq<char>> = match package {
        Some(p) => Some(p@),
        None => None,
    };
    let ghost all = pins@;
    let mut rest = pins;
    let mut out: Vec<FindAllVersionPinsRow> = Vec::new();
    while rest.len() > 0
        invariant
            out@ + pins_kept(rest@, wanted) == pins_kept(all, wanted),
            wanted == match package {
                Some(p) => Some(p@),
                None => None::<Seq<char>>,
            },
        decreases rest.len(),
    {
        let ghost before = rest@;
        let row = rest.remove(0);
        assert(rest@ =~= before.drop_first());
        let keep = match package {
            Some(p) => str_eq(row.distribution.package(), p),
            None => true,
        };
        if keep {
            out.push(row);
            assert(out@ + pins_kept(rest@, wanted) =~= out@.drop_last() + (seq![before[0]]
                + pins_kept(rest@, wanted)));
        }
    }
    assert(out@ + pins_kept(rest@, wanted) =~= out@);
    out
}

/// The first `n` characters of `s`, or all of it where it is shorter.
pub open spec fn truncate_chars(s: Seq<char>, n: nat) -> Seq<char> {
    if s.len() <= n {
        s
    } else {
        s.take(n as int)
    }
}

/// The withs column of a pin: `[]` where it has none; else its withs joined
/// by commas in brackets, cut to their first 40 characters and marked
/// `...` unless the whole list is asked for.
pub open spec fn withs_text(withs: Seq<Seq<char>>, full: bool) -> Seq<char> {
    if withs.len() == 0 {
        "[]"@
    } else if full {
        "["@ + join(withs, ","@) + "]"@
    } else {
        "["@ + truncate_chars(join(withs, ","@), 40) + "...]"@
    }
}

/// The withs column of a pin whose withs are `withs`.
pub fn withs_column(withs: &Option<Vec<String>>, full: bool) -> (r: String)
    ensures
        r@ == withs_text(
            match withs {
                Some(w) => w.deep_view(),
                None => Seq::empty(),
            },
            full,
        ),
{
    let empty: Vec<String> = Vec::new();
    let w = match withs {
        Some(w) => w,
        None => &empty,
    };
    assert(empty.deep_view() =~= Seq::<Seq<char>>::empty());
    if w.len() == 0 {
        return String::from_str("[]");
    }
    let joined = join_with(w, ",");
    let mut out = String::from_str("[");
    if full {
        out.append(joined.as_str());
        out.append("]");
    } else {
        let len = joined.as_str().unicode_len();
        let n: usize = if len <= 40 { len } else { 40 };
        let cut = joined.as_str().substring_char(0, n);
        assert(cut@ =~= truncate_chars(joined@, 40));
        out.append(cut);
        out.append("...]");
    }
    out
}

} // verus!
