//! Search and ordering attributes for the queries, and the comparison
//! modes they use.
use crate::text::{ascii_lower, i32_text, int_text, str_eq, to_ascii_lower};
use vstd::prelude::*;

verus! {

/// A name that stands for no variant of the enum it was parsed as.
#[derive(Debug, PartialEq, Eq, Clone, Copy, Structural)]
pub enum ParseError {
    VariantNotFound,
}

/// A measure of extensibility: controls that a search may carry.
#[derive(Debug, PartialOrd, Ord, PartialEq, Eq)]
pub enum SearchCtrl {
    OrderBy(SearchAttribute),
    OrderByMany(Vec<SearchAttribute>),
    OrderAsc,
    OrderDesc,
    Limit(u32),
}

/// Direction in which to order by when using OrderBy.
#[derive(Debug, PartialEq, Eq, PartialOrd, Ord, Clone, Copy, Structural)]
pub enum OrderDirection {
    Asc,
    Desc,
}

/// The OrderDirection that a name stands for, or `None` for a name that stands
/// for none.
pub open spec fn parse_order_direction(s: Seq<char>) -> Option<OrderDirection> {
    if s == "asc"@ || s == "Asc"@ || s == "ASC"@ {
        Some(OrderDirection::Asc)
    } else if s == "desc"@ || s == "Desc"@ || s == "DESC"@ {
        Some(OrderDirection::Desc)
    } else {
        None
    }
}

/// The name of a OrderDirection, as it is displayed.
pub open spec fn order_direction_text(x: OrderDirection) -> Seq<char> {
    match x {
        OrderDirection::Asc => "ASC"@,
        OrderDirection::Desc => "DESC"@,
    }
}

/// Parsing the displayed name of a OrderDirection gives it back.
pub proof fn lemma_order_direction_round_trip(x: OrderDirection)
    ensures
        parse_order_direction(order_direction_text(x)) == Some(x),
{
    match x {
        OrderDirection::Asc => {
            reveal_strlit("ASC");
        },
        OrderDirection::Desc => {
            reveal_strlit("DESC");
            reveal_strlit("asc");
            assert("DESC"@.len() != "asc"@.len());
            reveal_strlit("Asc");
            assert("DESC"@.len() != "Asc"@.len());
            reveal_strlit("ASC");
            assert("DESC"@.len() != "ASC"@.len());
        },
    }
}

impl OrderDirection {
    /// The OrderDirection named by `s`.
    pub fn from_str(s: &str) -> (r: Result<OrderDirection, ParseError>)
        ensures
            match r {
                Ok(x) => parse_order_direction(s@) == Some(x),
                Err(_) => parse_order_direction(s@) is None,
            },
    {
        if str_eq(s, "asc") || str_eq(s, "Asc") || str_eq(s, "ASC") {
            return Ok(OrderDirection::Asc);
        }
        if str_eq(s, "desc") || str_eq(s, "Desc") || str_eq(s, "DESC") {
            return Ok(OrderDirection::Desc);
        }
        Err(ParseError::VariantNotFound)
    }

    /// The name, as it is displayed.
    pub fn as_str(&self) -> (r: &'static str)
        ensures
            r@ == order_direction_text(*self),
    {
        match self {
            OrderDirection::Asc => "ASC",
            OrderDirection::Desc => "DESC",
        }
    }

    /// The name, as it is displayed.
    pub fn to_string(&self) -> (r: String)
        ensures
            r@ == order_direction_text(*self),
    {
        String::from_str(self.as_str())
    }
}
/// Attributes that one may search and sort on.
#[derive(Debug, PartialEq, Eq, PartialOrd, Ord, Clone, Copy, Structural)]
pub enum SearchAttribute {
    Package,
    Level,
    Role,
    Platform,
    Site,
    Unknown,
}

/// The SearchAttribute that a name stands for, or `None` for a name that stands
/// for none.
pub open spec fn parse_search_attribute(s: Seq<char>) -> Option<SearchAttribute> {
    if s == "package"@ || s == "Package"@ || s == "PACKAGE"@ {
        Some(SearchAttribute::Package)
    } else if s == "level"@ || s == "Level"@ || s == "LEVEL"@ {
        Some(SearchAttribute::Level)
    } else if s == "role"@ || s == "Role"@ || s == "ROLE"@ {
        Some(SearchAttribute::Role)
    } else if s == "platform"@ || s == "Platform"@ || s == "PLATFORM"@ {
        Some(SearchAttribute::Platform)
    } else if s == "site"@ || s == "Site"@ || s == "SITE"@ {
        Some(SearchAttribute::Site)
    } else if s == "Unknown"@ {
        Some(SearchAttribute::Unknown)
    } else {
        None
    }
}

/// The name of a SearchAttribute, as it is displayed.
pub open spec fn search_attribute_text(x: SearchAttribute) -> Seq<char> {
    match x {
        SearchAttribute::Package => "package"@,
        SearchAttribute::Level => "level"@,
        SearchAttribute::Role => "role"@,
        SearchAttribute::Platform => "platform"@,
        SearchAttribute::Site => "site"@,
        SearchAttribute::Unknown => "Unknown"@,
    }
}

/// Parsing the displayed name of a SearchAttribute gives it back.
pub proof fn lemma_search_attribute_round_trip(x: SearchAttribute)
    ensures
        parse_search_attribute(search_attribute_text(x)) == Some(x),
{
    match x {
        SearchAttribute::Package => {
            reveal_strlit("package");
        },
        SearchAttribute::Level => {
            reveal_strlit("level");
            reveal_strlit("package");
            assert("level"@.len() != "package"@.len());
            reveal_strlit("Package");
            assert("level"@.len() != "Package"@.len());
            reveal_strlit("PACKAGE");
            assert("level"@.len() != "PACKAGE"@.len());
        },
        SearchAttribute::Role => {
            reveal_strlit("role");
            reveal_strlit("package");
            assert("role"@.len() != "package"@.len());
            reveal_strlit("Package");
            assert("role"@.len() != "Package"@.len());
            reveal_strlit("PACKAGE");
            assert("role"@.len() != "PACKAGE"@.len());
            reveal_strlit("level");
            assert("role"@.len() != "level"@.len());
            reveal_strlit("Level");
            assert("role"@.len() != "Level"@.len());
            reveal_strlit("LEVEL");
            assert("role"@.len() != "LEVEL"@.len());
        },
        SearchAttribute::Platform => {
            reveal_strlit("platform");
            reveal_strlit("package");
            assert("platform"@.len() != "package"@.len());
            reveal_strlit("Package");
            assert("platform"@.len() != "Package"@.len());
            reveal_strlit("PACKAGE");
            assert("platform"@.len() != "PACKAGE"@.len());
            reveal_strlit("level");
            assert("platform"@.len() != "level"@.len());
            reveal_strlit("Level");
            assert("platform"@.len() != "Level"@.len());
            reveal_strlit("LEVEL");
            assert("platform"@.len() != "LEVEL"@.len());
            reveal_strlit("role");
            assert("platform"@.len() != "role"@.len());
            reveal_strlit("Role");
            assert("platform"@.len() != "Role"@.len());
            reveal_strlit("ROLE");
            assert("platform"@.len() != "ROLE"@.len());
        },
        SearchAttribute::Site => {
            reveal_strlit("site");
            reveal_strlit("package");
            assert("site"@.len() != "package"@.len());
            reveal_strlit("Package");
            assert("site"@.len() != "Package"@.len());
            reveal_strlit("PACKAGE");
            assert("site"@.len() != "PACKAGE"@.len());
            reveal_strlit("level");
            assert("site"@.len() != "level"@.len());
            reveal_strlit("Level");
            assert("site"@.len() != "Level"@.len());
            reveal_strlit("LEVEL");
            assert("site"@.len() != "LEVEL"@.len());
            reveal_strlit("role");
            assert("site"@[0] != "role"@[0]);
            reveal_strlit("Role");
            assert("site"@[0] != "Role"@[0]);
            reveal_strlit("ROLE");
            assert("site"@[0] != "ROLE"@[0]);
            reveal_strlit("platform");
            assert("site"@.len() != "platform"@.len());
            reveal_strlit("Platform");
            assert("site"@.len() != "Platform"@.len());
            reveal_strlit("PLATFORM");
            assert("site"@.len() != "PLATFORM"@.len());
        },
        SearchAttribute::Unknown => {
            reveal_strlit("Unknown");
            reveal_strlit("package");
            assert("Unknown"@[0] != "package"@[0]);
            reveal_strlit("Package");
            assert("Unknown"@[0] != "Package"@[0]);
            reveal_strlit("PACKAGE");
            assert("Unknown"@[0] != "PACKAGE"@[0]);
            reveal_strlit("level");
            assert("Unknown"@.len() != "level"@.len());
            reveal_strlit("Level");
            assert("Unknown"@.len() != "Level"@.len());
            reveal_strlit("LEVEL");
            assert("Unknown"@.len() != "LEVEL"@.len());
            reveal_strlit("role");
            assert("Unknown"@.len() != "role"@.len());
            reveal_strlit("Role");
            assert("Unknown"@.len() != "Role"@.len());
            reveal_strlit("ROLE");
            assert("Unknown"@.len() != "ROLE"@.len());
            reveal_strlit("platform");
            assert("Unknown"@.len() != "platform"@.len());
            reveal_strlit("Platform");
            assert("Unknown"@.len() != "Platform"@.len());
            reveal_strlit("PLATFORM");
            assert("Unknown"@.len() != "PLATFORM"@.len());
            reveal_strlit("site");
            assert("Unknown"@.len() != "site"@.len());
            reveal_strlit("Site");
            assert("Unknown"@.len() != "Site"@.len());
            reveal_strlit("SITE");
            assert("Unknown"@.len() != "SITE"@.len());
        },
    }
}

impl SearchAttribute {
    /// The SearchAttribute named by `s`.
    pub fn from_str(s: &str) -> (r: Result<SearchAttribute, ParseError>)
        ensures
            match r {
                Ok(x) => parse_search_attribute(s@) == Some(x),
                Err(_) => parse_search_attribute(s@) is None,
            },
    {
        if str_eq(s, "package") || str_eq(s, "Package") || str_eq(s, "PACKAGE") {
            return Ok(SearchAttribute::Package);
        }
        if str_eq(s, "level") || str_eq(s, "Level") || str_eq(s, "LEVEL") {
            return Ok(SearchAttribute::Level);
        }
        if str_eq(s, "role") || str_eq(s, "Role") || str_eq(s, "ROLE") {
            return Ok(SearchAttribute::Role);
        }
        if str_eq(s, "platform") || str_eq(s, "Platform") || str_eq(s, "PLATFORM") {
            return Ok(SearchAttribute::Platform);
        }
        if str_eq(s, "site") || str_eq(s, "Site") || str_eq(s, "SITE") {
            return Ok(SearchAttribute::Site);
        }
        if str_eq(s, "Unknown") {
            return Ok(SearchAttribute::Unknown);
        }
        Err(ParseError::VariantNotFound)
    }

    /// The name, as it is displayed.
    pub fn as_str(&self) -> (r: &'static str)
        ensures
            r@ == search_attribute_text(*self),
    {
        match self {
            SearchAttribute::Package => "package",
            SearchAttribute::Level => "level",
            SearchAttribute::Role => "role",
            SearchAttribute::Platform => "platform",
            SearchAttribute::Site => "site",
            SearchAttribute::Unknown => "Unknown",
        }
    }

    /// The name, as it is displayed.
    pub fn to_string(&self) -> (r: String)
        ensures
            r@ == search_attribute_text(*self),
    {
        String::from_str(self.as_str())
    }
}
/// How an ltree path is compared with the searched one.
#[derive(Debug, PartialEq, Eq, PartialOrd, Ord, Clone, Copy, Structural)]
pub enum LtreeSearchMode {
    Ancestor,
    Descendant,
    Exact,
}

/// The LtreeSearchMode that a name stands for, or `None` for a name that stands
/// for none.
pub open spec fn parse_ltree_search_mode(s: Seq<char>) -> Option<LtreeSearchMode> {
    if s == "down"@ || s == "ancestor"@ || s == "Ancestor"@ || s == "ANCESTOR"@ {
        Some(LtreeSearchMode::Ancestor)
    } else if s == "up"@ || s == "descendant"@ || s == "Descendant"@ || s == "DESCENDANT"@ {
        Some(LtreeSearchMode::Descendant)
    } else if s == "exact"@ || s == "Exact"@ || s == "EXACT"@ {
        Some(LtreeSearchMode::Exact)
    } else {
        None
    }
}

/// The name of a LtreeSearchMode, as it is displayed.
pub open spec fn ltree_search_mode_text(x: LtreeSearchMode) -> Seq<char> {
    match x {
        LtreeSearchMode::Ancestor => "ancestor"@,
        LtreeSearchMode::Descendant => "descendant"@,
        LtreeSearchMode::Exact => "exact"@,
    }
}

/// Parsing the displayed name of a LtreeSearchMode gives it back.
pub proof fn lemma_ltree_search_mode_round_trip(x: LtreeSearchMode)
    ensures
        parse_ltree_search_mode(ltree_search_mode_text(x)) == Some(x),
{
    match x {
        LtreeSearchMode::Ancestor => {
            reveal_strlit("ancestor");
        },
        LtreeSearchMode::Descendant => {
            reveal_strlit("descendant");
            reveal_strlit("down");
            assert("descendant"@.len() != "down"@.len());
            reveal_strlit("ancestor");
            assert("descendant"@.len() != "ancestor"@.len());
            reveal_strlit("Ancestor");
            assert("descendant"@.len() != "Ancestor"@.len());
            reveal_strlit("ANCESTOR");
            assert("descendant"@.len() != "ANCESTOR"@.len());
        },
        LtreeSearchMode::Exact => {
            reveal_strlit("exact");
            reveal_strlit("down");
            assert("exact"@.len() != "down"@.len());
            reveal_strlit("ancestor");
            assert("exact"@.len() != "ancestor"@.len());
            reveal_strlit("Ancestor");
            assert("exact"@.len() != "Ancestor"@.len());
            reveal_strlit("ANCESTOR");
            assert("exact"@.len() != "ANCESTOR"@.len());
            reveal_strlit("up");
            assert("exact"@.len() != "up"@.len());
            reveal_strlit("descendant");
            assert("exact"@.len() != "descendant"@.len());
            reveal_strlit("Descendant");
            assert("exact"@.len() != "Descendant"@.len());
            reveal_strlit("DESCENDANT");
            assert("exact"@.len() != "DESCENDANT"@.len());
        },
    }
}

impl LtreeSearchMode {
    /// The LtreeSearchMode named by `s`.
    pub fn from_str(s: &str) -> (r: Result<LtreeSearchMode, ParseError>)
        ensures
            match r {
                Ok(x) => parse_ltree_search_mode(s@) == Some(x),
                Err(_) => parse_ltree_search_mode(s@) is None,
            },
    {
        if str_eq(s, "down") || str_eq(s, "ancestor") || str_eq(s, "Ancestor") || str_eq(s, "ANCESTOR") {
            return Ok(LtreeSearchMode::Ancestor);
        }
        if str_eq(s, "up") || str_eq(s, "descendant") || str_eq(s, "Descendant") || str_eq(s, "DESCENDANT") {
            return Ok(LtreeSearchMode::Descendant);
        }
        if str_eq(s, "exact") || str_eq(s, "Exact") || str_eq(s, "EXACT") {
            return Ok(LtreeSearchMode::Exact);
        }
        Err(ParseError::VariantNotFound)
    }

    /// The name, as it is displayed.
    pub fn as_str(&self) -> (r: &'static str)
        ensures
            r@ == ltree_search_mode_text(*self),
    {
        match self {
            LtreeSearchMode::Ancestor => "ancestor",
            LtreeSearchMode::Descendant => "descendant",
            LtreeSearchMode::Exact => "exact",
        }
    }

    /// The name, as it is displayed.
    pub fn to_string(&self) -> (r: String)
        ensures
            r@ == ltree_search_mode_text(*self),
    {
        String::from_str(self.as_str())
    }
}
/// Where clause components, starting with WHERE.
#[derive(Debug, PartialEq, Eq, PartialOrd, Ord, Clone, Copy, Structural)]
pub enum JoinMode {
    Where,
    And,
}

/// The JoinMode that a name stands for, or `None` for a name that stands
/// for none.
pub open spec fn parse_join_mode(s: Seq<char>) -> Option<JoinMode> {
    if s == "where"@ || s == "WHERE"@ {
        Some(JoinMode::Where)
    } else if s == "and"@ || s == "AND"@ {
        Some(JoinMode::And)
    } else {
        None
    }
}

/// The name of a JoinMode, as it is displayed.
pub open spec fn join_mode_text(x: JoinMode) -> Seq<char> {
    match x {
        JoinMode::Where => "WHERE"@,
        JoinMode::And => "AND"@,
    }
}


/// Parsing the displayed name of a JoinMode gives it back.
pub proof fn lemma_join_mode_round_trip(x: JoinMode)
    ensures
        parse_join_mode(join_mode_text(x)) == Some(x),
{
    match x {
        JoinMode::Where => {
            reveal_strlit("WHERE");
        },
        JoinMode::And => {
            reveal_strlit("AND");
            reveal_strlit("where");
            assert("AND"@.len() != "where"@.len());
            reveal_strlit("WHERE");
            assert("AND"@.len() != "WHERE"@.len());
        },
    }
}

impl JoinMode {
    /// The JoinMode named by `s`.
    pub fn from_str(s: &str) -> (r: Result<JoinMode, ParseError>)
        ensures
            match r {
                Ok(x) => parse_join_mode(s@) == Some(x),
                Err(_) => parse_join_mode(s@) is None,
            },
    {
        if str_eq(s, "where") || str_eq(s, "WHERE") {
            return Ok(JoinMode::Where);
        }
        if str_eq(s, "and") || str_eq(s, "AND") {
            return Ok(JoinMode::And);
        }
        Err(ParseError::VariantNotFound)
    }

    /// The name, as it is displayed.
    pub fn as_str(&self) -> (r: &'static str)
        ensures
            r@ == join_mode_text(*self),
    {
        match self {
            JoinMode::Where => "WHERE",
            JoinMode::And => "AND",
        }
    }

    /// The name, as it is displayed.
    pub fn to_string(&self) -> (r: String)
        ensures
            r@ == join_mode_text(*self),
    {
        String::from_str(self.as_str())
    }
}
impl LtreeSearchMode {
    /// The SQL operator of the comparison.
    pub fn to_symbol(&self) -> (r: &'static str)
        ensures
            r@ == ltree_symbol(*self),
    {
        match *self {
            LtreeSearchMode::Ancestor => "<@",
            LtreeSearchMode::Descendant => "@>",
            LtreeSearchMode::Exact => "=",
        }
    }
}

/// The SQL operator of an ltree comparison.
pub open spec fn ltree_symbol(m: LtreeSearchMode) -> Seq<char> {
    match m {
        LtreeSearchMode::Ancestor => "<@"@,
        LtreeSearchMode::Descendant => "@>"@,
        LtreeSearchMode::Exact => "="@,
    }
}

/// A search mode name that stands for no mode.
#[derive(Debug)]
pub enum SearchModeError {
    InvalidLtreeSearchMode { mode: String },
}

/// How a searched value is compared.
#[derive(Debug, PartialEq, Eq, Clone, Copy, Structural)]
pub enum SearchMode {
    Equal,
    Like,
    Ltree(LtreeSearchMode),
}

/// The SQL operator of a search mode.
pub open spec fn search_mode_symbol(m: SearchMode) -> Seq<char> {
    match m {
        SearchMode::Like => "LIKE"@,
        SearchMode::Equal => "="@,
        SearchMode::Ltree(op) => ltree_symbol(op),
    }
}

/// The search mode that a name stands for, compared without regard to ASCII
/// case.
pub open spec fn parse_search_mode(s: Seq<char>) -> Option<SearchMode> {
    let l = ascii_lower(s);
    if l == "="@ || l == "equal"@ || l == "eq"@ {
        Some(SearchMode::Equal)
    } else if l == "like"@ || l == "~"@ {
        Some(SearchMode::Like)
    } else if l == "<"@ || l == "<@"@ || l == "ancestor"@ || l == "down"@ || l == "d"@ {
        Some(SearchMode::Ltree(LtreeSearchMode::Ancestor))
    } else if l == "."@ || l == "exact"@ || l == "e"@ {
        Some(SearchMode::Ltree(LtreeSearchMode::Exact))
    } else if l == ">"@ || l == "@>"@ || l == "descendant"@ || l == "up"@ || l == "u"@ {
        Some(SearchMode::Ltree(LtreeSearchMode::Descendant))
    } else {
        None
    }
}

/// The statement fragment comparing the field `this` with the prepared
/// statement parameter number `n`; it opens with WHERE for the first
/// parameter and with AND after it.
pub open spec fn search_text(this: Seq<char>, op: SearchMode, n: int) -> Seq<char> {
    let join = if n == 1 {
        "WHERE"@
    } else {
        "AND"@
    };
    match op {
        SearchMode::Like => " "@ + join + " "@ + this + " LIKE $"@ + int_text(n),
        SearchMode::Equal => " "@ + join + " "@ + this + " = $"@ + int_text(n),
        SearchMode::Ltree(m) => " "@ + join + " text2ltree($"@ + int_text(n) + ") "@
            + ltree_symbol(m) + " "@ + this,
    }
}

impl SearchMode {
    /// Whether the mode is Equal.
    pub fn is_equal(&self) -> (r: bool)
        ensures
            r == (*self == SearchMode::Equal),
    {
        *self == SearchMode::Equal
    }

    /// Whether the mode is Like.
    pub fn is_like(&self) -> (r: bool)
        ensures
            r == (*self == SearchMode::Like),
    {
        *self == SearchMode::Like
    }

    /// The SQL operator of the mode.
    pub fn as_str(&self) -> (r: &'static str)
        ensures
            r@ == search_mode_symbol(*self),
    {
        match self {
            SearchMode::Like => "LIKE",
            SearchMode::Equal => "=",
            SearchMode::Ltree(op) => op.to_symbol(),
        }
    }

    /// The search mode named by `input`, without regard to ASCII case:
    /// `=`, `equal`, `eq` for Equal; `like`, `~` for Like; `<`, `<@`,
    /// `ancestor`, `down`, `d` for Ancestor; `.`, `exact`, `e` for Exact;
    /// `>`, `@>`, `descendant`, `up`, `u` for Descendant.
    pub fn try_from_str(input: &str) -> (r: Result<SearchMode, SearchModeError>)
        ensures
            match r {
                Ok(m) => parse_search_mode(input@) == Some(m),
                Err(SearchModeError::InvalidLtreeSearchMode { mode }) => parse_search_mode(input@)
                    is None && mode@ == input@,
            },
    {
        let lower = to_ascii_lower(input);
        let l = lower.as_str();
        if str_eq(l, "=") || str_eq(l, "equal") || str_eq(l, "eq") {
            Ok(SearchMode::Equal)
        } else if str_eq(l, "like") || str_eq(l, "~") {
            Ok(SearchMode::Like)
        } else if str_eq(l, "<") || str_eq(l, "<@") || str_eq(l, "ancestor") || str_eq(l, "down")
            || str_eq(l, "d") {
            Ok(SearchMode::Ltree(LtreeSearchMode::Ancestor))
        } else if str_eq(l, ".") || str_eq(l, "exact") || str_eq(l, "e") {
            Ok(SearchMode::Ltree(LtreeSearchMode::Exact))
        } else if str_eq(l, ">") || str_eq(l, "@>") || str_eq(l, "descendant") || str_eq(l, "up")
            || str_eq(l, "u") {
            Ok(SearchMode::Ltree(LtreeSearchMode::Descendant))
        } else {
            Err(SearchModeError::InvalidLtreeSearchMode { mode: String::from_str(input) })
        }
    }

    /// The statement fragment comparing the field `this` by `op` with the
    /// prepared statement parameter number `params_cnt`.
    pub fn search_string(this: &str, op: &SearchMode, params_cnt: i32) -> (r: String)
        ensures
            r@ == search_text(this@, *op, params_cnt as int),
    {
        let joinval = if params_cnt == 1 {
            JoinMode::Where
        } else {
            JoinMode::And
        };
        let n = i32_text(params_cnt);
        let mut s = String::from_str(" ");
        s.append(joinval.as_str());
        match op {
            SearchMode::Like => {
                s.append(" ");
                s.append(this);
                s.append(" LIKE $");
                s.append(n.as_str());
            },
            SearchMode::Equal => {
                s.append(" ");
                s.append(this);
                s.append(" = $");
                s.append(n.as_str());
            },
            SearchMode::Ltree(m) => {
                s.append(" text2ltree($");
                s.append(n.as_str());
                s.append(") ");
                s.append(m.to_symbol());
                s.append(" ");
                s.append(this);
            },
        }
        s
    }
}

} // verus!
