//! Levels: the facility, or a levelspec (`show[.sequence[.shot]]`) such as
//! `dev01.rd.0001`.
use crate::coords_error::CoordsError;
use crate::text::{ascii_lower, is_ascii_text, join, join_with, lowercase, str_eq, to_lowercase};
use vstd::prelude::*;

verus! {

/// What a levelspec holds, as the library reads it: the show it names, if
/// any, and its parts (show, then sequence, then shot).
#[derive(Debug, PartialEq, Eq, PartialOrd, Ord, Clone, Hash)]
pub struct LevelSpec {
    /// The show, first part of the levelspec.
    pub show: Option<String>,
    /// The parts of the levelspec in order.
    pub parts: Vec<String>,
}

/// The facility, or a show, sequence or shot given by a levelspec.
#[derive(Debug, PartialEq, Eq, PartialOrd, Ord, Clone, Hash)]
pub enum Level {
    Facility,
    LevelSpec(LevelSpec),
}

/// Whether a level name names the facility, in any case.
pub open spec fn names_facility(s: Seq<char>) -> bool {
    lowercase(s) == "facility"@
}

/// The text of a level: `facility`, or the parts of its levelspec joined by
/// dots.
pub open spec fn level_text(l: Level) -> Seq<char> {
    match l {
        Level::Facility => "facility"@,
        Level::LevelSpec(ls) => join(ls.parts.deep_view(), "."@),
    }
}


impl View for Level {
    /// `None` for the facility, else the levelspec's show and parts.
    type V = Option<(Option<Seq<char>>, Seq<Seq<char>>)>;

    open spec fn view(&self) -> Option<(Option<Seq<char>>, Seq<Seq<char>>)> {
        match self {
            Level::Facility => None,
            Level::LevelSpec(ls) => Some(
                (
                    match ls.show {
                        Some(s) => Some(s@),
                        None => None,
                    },
                    ls.parts.deep_view(),
                ),
            ),
        }
    }
}

/// Whether two lists of texts hold the same texts in the same order.
fn same_texts(a: &Vec<String>, b: &Vec<String>) -> (r: bool)
    ensures
        r == (a.deep_view() == b.deep_view()),
{
    if a.len() != b.len() {
        assert(a.deep_view().len() != b.deep_view().len());
        return false;
    }
    let mut i: usize = 0;
    while i < a.len()
        invariant
            a.len() == b.len(),
            i <= a.len(),
            forall|j: int| 0 <= j < i ==> #[trigger] a@[j]@ == b@[j]@,
        decreases a.len() - i,
    {
        if !str_eq(a[i].as_str(), b[i].as_str()) {
            assert(a.deep_view()[i as int] != b.deep_view()[i as int]);
            return false;
        }
        i = i + 1;
    }
    assert(a.deep_view() =~= b.deep_view());
    true
}

impl Level {
    /// Whether two levels are the same level.
    pub fn same_as(&self, other: &Level) -> (r: bool)
        ensures
            r == (self@ == other@),
    {
        match (self, other) {
            (Level::Facility, Level::Facility) => true,
            (Level::LevelSpec(a), Level::LevelSpec(b)) => {
                let shows = match (&a.show, &b.show) {
                    (Some(x), Some(y)) => str_eq(x.as_str(), y.as_str()),
                    (None, None) => true,
                    _ => false,
                };
                shows && same_texts(&a.parts, &b.parts)
            },
            _ => false,
        }
    }

    /// The level named by `level`. `parsed` is what levelspec made of
    /// `level`: its show and parts, or `None` where it refused the name.
    pub fn from_str(level: &str, parsed: Option<LevelSpec>) -> (r: Result<Level, CoordsError>)
        ensures
            is_ascii_text(level@) ==> (names_facility(level@) <==> ascii_lower(level@) == "facility"@),
            names_facility(level@) ==> r == Ok::<Level, CoordsError>(Level::Facility),
            !names_facility(level@) && parsed is Some ==> r == Ok::<Level, CoordsError>(
                Level::LevelSpec(parsed.unwrap()),
            ),
            !names_facility(level@) && parsed is None ==> (r matches Err(
                CoordsError::NewLevelspecError { level: l },
            ) && l@ == level@),
    {
        let low = to_lowercase(level);
        if str_eq(low.as_str(), "facility") {
            return Ok(Level::Facility);
        }
        match parsed {
            Some(ls) => Ok(Level::LevelSpec(ls)),
            None => Err(CoordsError::NewLevelspecError { level: String::from_str(level) }),
        }
    }

    /// The level named by `item`, as a conversion from text makes it: like
    /// `from_str`, with `InvalidLevel` for a refused name.
    pub fn try_from_str(item: &str, parsed: Option<LevelSpec>) -> (r: Result<Level, CoordsError>)
        ensures
            is_ascii_text(item@) ==> (names_facility(item@) <==> ascii_lower(item@) == "facility"@),
            names_facility(item@) ==> r == Ok::<Level, CoordsError>(Level::Facility),
            !names_facility(item@) && parsed is Some ==> r == Ok::<Level, CoordsError>(
                Level::LevelSpec(parsed.unwrap()),
            ),
            !names_facility(item@) && parsed is None ==> (r matches Err(
                CoordsError::InvalidLevel { input: l },
            ) && l@ == item@),
    {
        let low = to_lowercase(item);
        if str_eq(low.as_str(), "facility") {
            return Ok(Level::Facility);
        }
        match parsed {
            Some(ls) => Ok(Level::LevelSpec(ls)),
            None => Err(CoordsError::InvalidLevel { input: String::from_str(item) }),
        }
    }

    /// The level as text: `facility`, or the levelspec's parts joined by dots.
    pub fn to_string(&self) -> (r: String)
        ensures
            r@ == level_text(*self),
    {
        match self {
            Level::Facility => String::from_str("facility"),
            Level::LevelSpec(ls) => join_with(&ls.parts, "."),
        }
    }

    /// The show of the level; `facility` for the facility.
    pub fn show(&self) -> (r: &str)
        requires
            match *self {
                Level::LevelSpec(ls) => ls.show is Some,
                Level::Facility => true,
            },
        ensures
            r@ == match *self {
                Level::LevelSpec(ls) => ls.show.unwrap()@,
                Level::Facility => "facility"@,
            },
    {
        match self {
            Level::Facility => "facility",
            Level::LevelSpec(ls) => match &ls.show {
                Some(s) => s.as_str(),
                None => "facility",
            },
        }
    }

    /// Whether the level is the facility.
    pub fn is_facility(&self) -> (r: bool)
        ensures
            r == (*self is Facility),
    {
        match self {
            Level::Facility => true,
            Level::LevelSpec(_) => false,
        }
    }
}

} // verus!
