//! Roles: the job function a package is pinned for (`model`, `anim_beta`),
//! or `any`.
use crate::coords_error::CoordsError;
use crate::text::{has_char, has_char_pair, has_pair, str_eq};
use vstd::prelude::*;

verus! {

/// A role, or any role.
#[derive(Debug, PartialEq, Eq, PartialOrd, Ord, Clone, Hash)]
pub enum Role {
    /// A named role or subrole, such as `model` or `model_beta`.
    Named(String),
    /// Any role.
    Any,
}

impl View for Role {
    /// `None` for any role, else the role's name.
    type V = Option<Seq<char>>;

    open spec fn view(&self) -> Option<Seq<char>> {
        match self {
            Role::Named(n) => Some(n@),
            Role::Any => None,
        }
    }
}

/// A role name is not blank and holds no space, no dot and no double
/// underscore.
pub open spec fn role_name_ok(s: Seq<char>) -> bool {
    s.len() > 0 && !s.contains(' ') && !s.contains('.') && !has_pair(s, '_')
}

/// What a role name stands for: `Some(None)` for `any`, `Some(Some(name))`
/// for a valid name, `None` for a name that is not a role.
pub open spec fn parse_role(s: Seq<char>) -> Option<Option<Seq<char>>> {
    if s == "any"@ {
        Some(None)
    } else if role_name_ok(s) {
        Some(Some(s))
    } else {
        None
    }
}

/// Reading back the text of a role (its name, or `any`) gives the same
/// role.
pub proof fn lemma_role_text_round_trip(s: Seq<char>)
    requires
        parse_role(s) is Some,
    ensures
        parse_role(
            match parse_role(s).unwrap() {
                Some(n) => n,
                None => "any"@,
            },
        ) == parse_role(s),
{
}

impl Role {
    /// Whether two values name the same role.
    pub fn same_as(&self, other: &Role) -> (r: bool)
        ensures
            r == (self@ == other@),
    {
        match (self, other) {
            (Role::Named(a), Role::Named(b)) => str_eq(a.as_str(), b.as_str()),
            (Role::Any, Role::Any) => true,
            _ => false,
        }
    }

    /// The role named by `input`.
    pub fn from_str(input: &str) -> (r: Result<Role, CoordsError>)
        ensures
            match r {
                Ok(role) => parse_role(input@) == Some(role@),
                Err(CoordsError::FromStrToRoleError { input: i }) => parse_role(input@) is None
                    && i@ == input@,
                Err(_) => false,
            },
    {
        if str_eq(input, "any") {
            return Ok(Role::Any);
        }
        if input.is_empty() || has_char(input, ' ') || has_char(input, '.') || has_char_pair(
            input,
            '_',
        ) {
            return Err(CoordsError::FromStrToRoleError { input: String::from_str(input) });
        }
        Ok(Role::Named(String::from_str(input)))
    }

    /// Whether this is any role.
    pub fn is_any(&self) -> (r: bool)
        ensures
            r == (self@ is None),
    {
        match self {
            Role::Any => true,
            Role::Named(_) => false,
        }
    }

    /// The role's name; `any` for any role.
    pub fn to_string(&self) -> (r: String)
        ensures
            r@ == match self@ {
                Some(n) => n,
                None => "any"@,
            },
    {
        match self {
            Role::Named(n) => n.clone(),
            Role::Any => String::from_str("any"),
        }
    }
}

} // verus!
