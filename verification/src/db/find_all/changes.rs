//! Search for the changes a transaction made to version pins.
use crate::coords::{axis_name, coords_accepted, coords_error_matches, level_value};
use crate::coords_error::CoordsError;
use crate::db::search_attribute::ParseError;
use crate::distribution::{distribution_problem, Distribution};
use crate::level::{level_text, Level, LevelSpec};
use crate::platform::{parse_platform, Platform};
use crate::role::{parse_role, Role};
use crate::site::{parse_site, Site};
use crate::text::{i64_text, int_text, str_eq};
use crate::types::LongIdType;
use vstd::prelude::*;

verus! {

/// What a change did to a version pin.
#[derive(Debug, PartialEq, Eq, PartialOrd, Ord, Clone, Copy, Structural)]
pub enum ChangeAction {
    Insert,
    Update,
    Truncate,
}

/// The ChangeAction that a name stands for, or `None` for a name that stands
/// for none.
pub open spec fn parse_change_action(s: Seq<char>) -> Option<ChangeAction> {
    if s == "insert"@ || s == "Insert"@ || s == "INSERT"@ {
        Some(ChangeAction::Insert)
    } else if s == "update"@ || s == "Update"@ || s == "UPDATE"@ {
        Some(ChangeAction::Update)
    } else if s == "truncate"@ || s == "TRUNCATE"@ {
        Some(ChangeAction::Truncate)
    } else {
        None
    }
}

/// The name of a ChangeAction, as it is displayed.
pub open spec fn change_action_text(x: ChangeAction) -> Seq<char> {
    match x {
        ChangeAction::Insert => "INSERT"@,
        ChangeAction::Update => "UPDATE"@,
        ChangeAction::Truncate => "TRUNCATE"@,
    }
}

/// Parsing the displayed name of a ChangeAction gives it back.
pub proof fn lemma_change_action_round_trip(x: ChangeAction)
    ensures
        parse_change_action(change_action_text(x)) == Some(x),
{
    match x {
        ChangeAction::Insert => {
            reveal_strlit("INSERT");
        },
        ChangeAction::Update => {
            reveal_strlit("UPDATE");
            reveal_strlit("insert");
            assert("UPDATE"@[0] != "insert"@[0]);
            reveal_strlit("Insert");
            assert("UPDATE"@[0] != "Insert"@[0]);
            reveal_strlit("INSERT");
            assert("UPDATE"@[0] != "INSERT"@[0]);
        },
        ChangeAction::Truncate => {
            reveal_strlit("TRUNCATE");
            reveal_strlit("insert");
            assert("TRUNCATE"@.len() != "insert"@.len());
            reveal_strlit("Insert");
            assert("TRUNCATE"@.len() != "Insert"@.len());
            reveal_strlit("INSERT");
            assert("TRUNCATE"@.len() != "INSERT"@.len());
            reveal_strlit("update");
            assert("TRUNCATE"@.len() != "update"@.len());
            reveal_strlit("Update");
            assert("TRUNCATE"@.len() != "Update"@.len());
            reveal_strlit("UPDATE");
            assert("TRUNCATE"@.len() != "UPDATE"@.len());
        },
    }
}

impl ChangeAction {
    /// The ChangeAction named by `s`.
    pub fn from_str(s: &str) -> (r: Result<ChangeAction, ParseError>)
        ensures
            match r {
                Ok(x) => parse_change_action(s@) == Some(x),
                Err(_) => parse_change_action(s@) is None,
            },
    {
        if str_eq(s, "insert") || str_eq(s, "Insert") || str_eq(s, "INSERT") {
            return Ok(ChangeAction::Insert);
        }
        if str_eq(s, "update") || str_eq(s, "Update") || str_eq(s, "UPDATE") {
            return Ok(ChangeAction::Update);
        }
        if str_eq(s, "truncate") || str_eq(s, "TRUNCATE") {
            return Ok(ChangeAction::Truncate);
        }
        Err(ParseError::VariantNotFound)
    }

    /// The name, as it is displayed.
    pub fn as_str(&self) -> (r: &'static str)
        ensures
            r@ == change_action_text(*self),
    {
        match self {
            ChangeAction::Insert => "INSERT",
            ChangeAction::Update => "UPDATE",
            ChangeAction::Truncate => "TRUNCATE",
        }
    }

    /// The name, as it is displayed.
    pub fn to_string(&self) -> (r: String)
        ensures
            r@ == change_action_text(*self),
    {
        String::from_str(self.as_str())
    }
}

/// The columns that changes may be ordered by.
#[derive(Debug, PartialEq, Eq, PartialOrd, Ord, Clone, Copy, Structural)]
pub enum OrderChangeBy {
    TransactionId,
}

/// The OrderChangeBy that a name stands for, or `None` for a name that stands
/// for none.
pub open spec fn parse_order_change_by(s: Seq<char>) -> Option<OrderChangeBy> {
    if s == "transaction_id"@ || s == "TransactionId"@ || s == "TRANSACTION_ID"@ {
        Some(OrderChangeBy::TransactionId)
    } else {
        None
    }
}

/// The name of a OrderChangeBy, as it is displayed.
pub open spec fn order_change_by_text(x: OrderChangeBy) -> Seq<char> {
    match x {
        OrderChangeBy::TransactionId => "transaction_id"@,
    }
}

/// Parsing the displayed name of a OrderChangeBy gives it back.
pub proof fn lemma_order_change_by_round_trip(x: OrderChangeBy)
    ensures
        parse_order_change_by(order_change_by_text(x)) == Some(x),
{
    match x {
        OrderChangeBy::TransactionId => {
            reveal_strlit("transaction_id");
        },
    }
}

impl OrderChangeBy {
    /// The OrderChangeBy named by `s`.
    pub fn from_str(s: &str) -> (r: Result<OrderChangeBy, ParseError>)
        ensures
            match r {
                Ok(x) => parse_order_change_by(s@) == Some(x),
                Err(_) => parse_order_change_by(s@) is None,
            },
    {
        if str_eq(s, "transaction_id") || str_eq(s, "TransactionId") || str_eq(s, "TRANSACTION_ID") {
            return Ok(OrderChangeBy::TransactionId);
        }
        Err(ParseError::VariantNotFound)
    }

    /// The name, as it is displayed.
    pub fn as_str(&self) -> (r: &'static str)
        ensures
            r@ == order_change_by_text(*self),
    {
        match self {
            OrderChangeBy::TransactionId => "transaction_id",
        }
    }

    /// The name, as it is displayed.
    pub fn to_string(&self) -> (r: String)
        ensures
            r@ == order_change_by_text(*self),
    {
        String::from_str(self.as_str())
    }
}

/// Errors of a change search.
#[allow(inconsistent_fields)]
#[derive(Debug)]
pub enum FindAllChangesError {
    /// A distribution could not be made.
    DistributionNewError { msg: String, source: CoordsError },
    /// A coordinate or a distribution of a row could not be made.
    CoordsTryFromPartsError { coords: String, source: CoordsError },
    /// The action of a row is not one of the known actions.
    ChangeActionError { input: String, source: ParseError },
    /// The search needs a transaction and none was given.
    TransactionIdMissingError,
    /// The database refused the query.
    TokioPostgresError { msg: &'static str, source: tokio_postgres::Error },
}

/// A change of a version pin, made by a transaction.
#[derive(Debug)]
pub struct FindAllChangesRow {
    pub id: LongIdType,
    pub transaction_id: LongIdType,
    pub action: ChangeAction,
    pub level: Level,
    pub role: Role,
    pub platform: Platform,
    pub site: Site,
    pub package: String,
    pub old: Option<Distribution>,
    pub new: Distribution,
}

/// The names of a row make a row: a known action, coordinates, and the
/// old distribution (where there is one) and the new one keep the naming
/// rules.
pub open spec fn change_parts_accepted(
    action: Seq<char>,
    level: Seq<char>,
    parsed: Option<LevelSpec>,
    role: Seq<char>,
    platform: Seq<char>,
    site: Seq<char>,
    old: Seq<char>,
    new: Seq<char>,
) -> bool {
    &&& parse_change_action(action) is Some
    &&& coords_accepted(level, parsed, role, platform, site)
    &&& (old.len() == 0 || distribution_problem(old) is None)
    &&& distribution_problem(new) is None
}

/// The error of the first of a row's coordinates and distributions that
/// cannot be made.
pub open spec fn change_parts_error(
    e: CoordsError,
    level: Seq<char>,
    parsed: Option<LevelSpec>,
    role: Seq<char>,
    platform: Seq<char>,
    site: Seq<char>,
    old: Seq<char>,
    new: Seq<char>,
) -> bool {
    if !coords_accepted(level, parsed, role, platform, site) {
        coords_error_matches(e, level, parsed, role, platform, site)
    } else if old.len() != 0 && distribution_problem(old) is Some {
        e matches CoordsError::DistributionConstructionError { problem } && Some(problem@)
            == distribution_problem(old)
    } else {
        e matches CoordsError::DistributionConstructionError { problem } && Some(problem@)
            == distribution_problem(new)
    }
}

/// The text of an old distribution: its name, or nothing.
pub open spec fn old_text(old: Option<Distribution>) -> Seq<char> {
    match old {
        Some(d) => d@,
        None => Seq::empty(),
    }
}

impl FindAllChangesRow {
    /// A row of the given values.
    pub fn new(
        id: LongIdType,
        transaction_id: LongIdType,
        action: ChangeAction,
        level: Level,
        role: Role,
        platform: Platform,
        site: Site,
        package: String,
        old: Option<Distribution>,
        new: Distribution,
    ) -> (r: FindAllChangesRow)
        ensures
            r == (FindAllChangesRow {
                id,
                transaction_id,
                action,
                level,
                role,
                platform,
                site,
                package,
                old,
                new,
            }),
    {
        FindAllChangesRow { id, transaction_id, action, level, role, platform, site, package, old, new }
    }

    /// A row from the values a query returned; `parsed` is what levelspec
    /// made of the level name, and an empty `old` means there was no old
    /// distribution.
    pub fn try_from_parts(
        id: LongIdType,
        transaction_id: LongIdType,
        action: &str,
        level: &str,
        parsed: Option<LevelSpec>,
        role: &str,
        platform: &str,
        site: &str,
        package: &str,
        old: &str,
        new: &str,
    ) -> (r: Result<FindAllChangesRow, FindAllChangesError>)
        ensures
            r is Ok <==> change_parts_accepted(
                action@,
                level@,
                parsed,
                role@,
                platform@,
                site@,
                old@,
                new@,
            ),
            r matches Ok(row) ==> {
                &&& row.id == id
                &&& row.transaction_id == transaction_id
                &&& Some(row.action) == parse_change_action(action@)
                &&& row.level == level_value(level@, parsed)
                &&& parse_role(role@) == Some(row.role@)
                &&& parse_platform(platform@) == Some(row.platform@)
                &&& parse_site(site@) == Some(row.site@)
                &&& row.package@ == package@
                &&& (if old@.len() == 0 {
                    row.old is None
                } else {
                    row.old matches Some(d) && d@ == old@
                })
                &&& row.new@ == new@
            },
            r matches Err(FindAllChangesError::ChangeActionError { input, .. }) <==> parse_change_action(
                action@,
            ) is None,
            r matches Err(FindAllChangesError::ChangeActionError { input, .. }) ==> input@ == action@,
            r matches Err(FindAllChangesError::CoordsTryFromPartsError { coords, source }) ==> coords@
                == "unable to create from supplied str"@ && change_parts_error(
                source,
                level@,
                parsed,
                role@,
                platform@,
                site@,
                old@,
                new@,
            ),
            !(r matches Err(FindAllChangesError::DistributionNewError { .. })),
            !(r matches Err(FindAllChangesError::TransactionIdMissingError)),
            !(r matches Err(FindAllChangesError::TokioPostgresError { .. })),
    {
        let the_action = match ChangeAction::from_str(action) {
            Ok(a) => a,
            Err(source) => {
                return Err(
                    FindAllChangesError::ChangeActionError { input: String::from_str(action), source },
                );
            },
        };
        let the_level = match Level::try_from_str(level, parsed) {
            Ok(l) => l,
            Err(source) => {
                return Err(
                    FindAllChangesError::CoordsTryFromPartsError {
                        coords: String::from_str("unable to create from supplied str"),
                        source,
                    },
                );
            },
        };
        let the_role = match Role::from_str(role) {
            Ok(x) => x,
            Err(source) => {
                return Err(
                    FindAllChangesError::CoordsTryFromPartsError {
                        coords: String::from_str("unable to create from supplied str"),
                        source,
                    },
                );
            },
        };
        let the_platform = match Platform::from_str(platform) {
            Ok(x) => x,
            Err(source) => {
                return Err(
                    FindAllChangesError::CoordsTryFromPartsError {
                        coords: String::from_str("unable to create from supplied str"),
                        source,
                    },
                );
            },
        };
        let the_site = match Site::from_str(site) {
            Ok(x) => x,
            Err(source) => {
                return Err(
                    FindAllChangesError::CoordsTryFromPartsError {
                        coords: String::from_str("unable to create from supplied str"),
                        source,
                    },
                );
            },
        };
        let the_old = if old.is_empty() {
            None
        } else {
            match Distribution::new(old) {
                Ok(d) => Some(d),
                Err(source) => {
                    return Err(
                        FindAllChangesError::CoordsTryFromPartsError {
                            coords: String::from_str("unable to create from supplied str"),
                            source,
                        },
                    );
                },
            }
        };
        let the_new = match Distribution::new(new) {
            Ok(d) => d,
            Err(source) => {
                return Err(
                    FindAllChangesError::CoordsTryFromPartsError {
                        coords: String::from_str("unable to create from supplied str"),
                        source,
                    },
                );
            },
        };
        Ok(
            Self::new(
                id,
                transaction_id,
                the_action,
                the_level,
                the_role,
                the_platform,
                the_site,
                String::from_str(package),
                the_old,
                the_new,
            ),
        )
    }

    /// A row from values that make one (see `try_from_parts`).
    pub fn from_parts(
        id: LongIdType,
        transaction_id: LongIdType,
        action: &str,
        level: &str,
        parsed: Option<LevelSpec>,
        role: &str,
        platform: &str,
        site: &str,
        package: &str,
        old: &str,
        new: &str,
    ) -> (r: FindAllChangesRow)
        requires
            change_parts_accepted(action@, level@, parsed, role@, platform@, site@, old@, new@),
        ensures
            r.id == id,
            r.transaction_id == transaction_id,
            Some(r.action) == parse_change_action(action@),
            r.level == level_value(level@, parsed),
            parse_role(role@) == Some(r.role@),
            parse_platform(platform@) == Some(r.platform@),
            parse_site(site@) == Some(r.site@),
            r.package@ == package@,
            if old@.len() == 0 {
                r.old is None
            } else {
                r.old matches Some(d) && d@ == old@
            },
            r.new@ == new@,
    {
        match Self::try_from_parts(
            id,
            transaction_id,
            action,
            level,
            parsed,
            role,
            platform,
            site,
            package,
            old,
            new,
        ) {
            Ok(row) => row,
            Err(_) => FindAllChangesRow {
                id,
                transaction_id,
                action: ChangeAction::Insert,
                level: Level::Facility,
                role: Role::Any,
                platform: Platform::Any,
                site: Site::Any,
                package: String::new(),
                old: None,
                new: Distribution::new_unchecked(new),
            },
        }
    }

    /// The row as it is displayed: id, transaction, action, the coordinates
    /// in brackets, the old distribution (or nothing) and the new one.
    pub fn to_string(&self) -> (r: String)
        ensures
            r@ == int_text(self.id as int) + " "@ + int_text(self.transaction_id as int) + " "@
                + change_action_text(self.action) + " ("@ + level_text(self.level) + " "@
                + axis_name(self.role@) + " "@ + axis_name(self.platform@) + " "@ + axis_name(
                self.site@,
            ) + ") "@ + old_text(self.old) + " "@ + self.new@,
    {
        let mut s = i64_text(self.id);
        s.append(" ");
        s.append(i64_text(self.transaction_id).as_str());
        s.append(" ");
        s.append(self.action.as_str());
        s.append(" (");
        s.append(self.level.to_string().as_str());
        s.append(" ");
        s.append(self.role.to_string().as_str());
        s.append(" ");
        s.append(self.platform.to_string().as_str());
        s.append(" ");
        s.append(self.site.to_string().as_str());
        s.append(") ");
        match &self.old {
            Some(d) => s.append(d.to_string().as_str()),
            None => {},
        }
        s.append(" ");
        s.append(self.new.to_string().as_str());
        s
    }
}

/// A search for the changes a transaction made.
pub struct FindAllChanges<'a> {
    /// The database connection the search runs on.
    pub client: &'a mut tokio_postgres::Client,
    pub transaction_id: Option<LongIdType>,
}

/// The fields of a search other than its connection.
pub open spec fn same_changes_search(a: FindAllChanges, b: FindAllChanges) -> bool {
    &&& a.transaction_id == b.transaction_id
}

/// The query text of a change search: the changes `find_vpin_audit` finds
/// for the transaction `$1`.
pub open spec fn changes_query() -> Seq<char> {
    "SELECT
                id,
                transaction_id,
                action,
                level_name,
                role_name,
                platform_name,
                site_name,
                package,
                old,
                new
            FROM 
                find_vpin_audit($1)"@
}

impl<'a> FindAllChanges<'a> {
    /// A search on `client` with no transaction yet.
    pub fn new(client: &'a mut tokio_postgres::Client) -> (r: Self)
        ensures
            r.transaction_id is None,
    {
        FindAllChanges { client, transaction_id: None }
    }

    /// Search for the changes of this transaction.
    pub fn transaction_id(&mut self, txid: LongIdType) -> (r: &mut Self)
        ensures
            same_changes_search(*r, FindAllChanges { transaction_id: Some(txid), ..*old(self) }),
            *final(self) == *final(r),
    {
        self.transaction_id = Some(txid);
        self
    }

    /// Set or clear the transaction.
    pub fn transaction_id_opt(&mut self, txid: Option<LongIdType>) -> (r: &mut Self)
        ensures
            same_changes_search(*r, FindAllChanges { transaction_id: txid, ..*old(self) }),
            *final(self) == *final(r),
    {
        self.transaction_id = txid;
        self
    }

    /// The query text and its parameter, the transaction. Fails when no
    /// transaction was given.
    pub fn get_query_str(&self) -> (r: Result<(String, LongIdType), FindAllChangesError>)
        ensures
            r is Ok <==> self.transaction_id is Some,
            r matches Ok((q, t)) ==> q@ == changes_query() && Some(t) == self.transaction_id,
            r is Err ==> r matches Err(FindAllChangesError::TransactionIdMissingError),
    {
        match self.transaction_id {
            Some(t) => Ok((String::from_str("SELECT
                id,
                transaction_id,
                action,
                level_name,
                role_name,
                platform_name,
                site_name,
                package,
                old,
                new
            FROM 
                find_vpin_audit($1)"), t)),
            None => Err(FindAllChangesError::TransactionIdMissingError),
        }
    }
}

} // verus!
