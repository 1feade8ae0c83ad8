//! Coords are the coordinates in package space. Package space has four
//! dimensions, spanned by Level, Role, Platform and Site. Version pins
//! "pin" a distribution to a location in package space: the pin's
//! coordinates.
use crate::coords_error::CoordsError;
use crate::level::{names_facility, Level, LevelSpec};
use crate::text::{ascii_lower, is_ascii_text};
use crate::platform::{parse_platform, Platform};
use crate::role::{parse_role, Role};
use crate::site::{parse_site, Site};
use vstd::prelude::*;

verus! {

/// Whether a level name is accepted, given what levelspec made of it.
pub open spec fn level_accepted(s: Seq<char>, parsed: Option<LevelSpec>) -> bool {
    names_facility(s) || parsed is Some
}

/// The level that an accepted level name stands for.
pub open spec fn level_value(s: Seq<char>, parsed: Option<LevelSpec>) -> Level {
    if names_facility(s) {
        Level::Facility
    } else {
        Level::LevelSpec(parsed.unwrap())
    }
}

/// Whether four names make coordinates: each is accepted on its axis.
pub open spec fn coords_accepted(
    level: Seq<char>,
    parsed: Option<LevelSpec>,
    role: Seq<char>,
    platform: Seq<char>,
    site: Seq<char>,
) -> bool {
    &&& level_accepted(level, parsed)
    &&& parse_role(role) is Some
    &&& parse_platform(platform) is Some
    &&& parse_site(site) is Some
}

/// Whether `c` holds the values that the four accepted names stand for.
pub open spec fn coords_from_names(
    c: Coords,
    level: Seq<char>,
    parsed: Option<LevelSpec>,
    role: Seq<char>,
    platform: Seq<char>,
    site: Seq<char>,
) -> bool {
    &&& c.level == level_value(level, parsed)
    &&& Some(c.role@) == parse_role(role)
    &&& Some(c.platform@) == parse_platform(platform)
    &&& Some(c.site@) == parse_site(site)
}

/// The error for four names that do not make coordinates: the first axis,
/// in the order level, role, platform, site, whose name is refused, with
/// that name.
pub open spec fn coords_error_matches(
    e: CoordsError,
    level: Seq<char>,
    parsed: Option<LevelSpec>,
    role: Seq<char>,
    platform: Seq<char>,
    site: Seq<char>,
) -> bool {
    if !level_accepted(level, parsed) {
        e matches CoordsError::InvalidLevel { input } && input@ == level
    } else if parse_role(role) is None {
        e matches CoordsError::FromStrToRoleError { input } && input@ == role
    } else if parse_platform(platform) is None {
        e matches CoordsError::FromStrToPlatformError { input } && input@ == platform
    } else {
        e matches CoordsError::FromStrToSiteError { input } && input@ == site
    }
}

/// Builds coordinates one axis at a time; unset axes default to the
/// facility and `any`.
pub struct CoordsBuilder {
    level: Option<Level>,
    role: Option<Role>,
    platform: Option<Platform>,
    site: Option<Site>,
}

impl CoordsBuilder {
    /// The level set so far.
    pub closed spec fn spec_level(&self) -> Option<Level> {
        self.level
    }

    /// The role set so far.
    pub closed spec fn spec_role(&self) -> Option<Role> {
        self.role
    }

    /// The platform set so far.
    pub closed spec fn spec_platform(&self) -> Option<Platform> {
        self.platform
    }

    /// The site set so far.
    pub closed spec fn spec_site(&self) -> Option<Site> {
        self.site
    }

    /// A builder with no axis set.
    fn new() -> (r: CoordsBuilder)
        ensures
            r.spec_level() is None,
            r.spec_role() is None,
            r.spec_platform() is None,
            r.spec_site() is None,
    {
        CoordsBuilder { level: None, role: None, platform: None, site: None }
    }

    /// Set the level from its name; `parsed` is what levelspec made of the
    /// name. A refused name leaves the builder as it was.
    pub fn level(&mut self, level: &str, parsed: Option<LevelSpec>) -> (r: Result<
        &mut Self,
        CoordsError,
    >)
        ensures
            is_ascii_text(level@) ==> (names_facility(level@) <==> ascii_lower(level@) == "facility"@),
            match r {
                Ok(b) => {
                    &&& level_accepted(level@, parsed)
                    &&& b.spec_level() == Some(level_value(level@, parsed))
                    &&& b.spec_role() == old(self).spec_role()
                    &&& b.spec_platform() == old(self).spec_platform()
                    &&& b.spec_site() == old(self).spec_site()
                    &&& *final(self) == *final(b)
                },
                Err(e) => !level_accepted(level@, parsed) && (e matches CoordsError::InvalidLevel {
                    input,
                } && input@ == level@) && *final(self) == *old(self),
            },
    {
        let l = Level::try_from_str(level, parsed)?;
        self.level = Some(l);
        Ok(self)
    }

    /// Set the role from its name. A refused name leaves the builder as it
    /// was.
    pub fn role(&mut self, role: &str) -> (r: Result<&mut Self, CoordsError>)
        ensures
            match r {
                Ok(b) => {
                    &&& b.spec_role() matches Some(x) && parse_role(role@) == Some(x@)
                    &&& b.spec_level() == old(self).spec_level()
                    &&& b.spec_platform() == old(self).spec_platform()
                    &&& b.spec_site() == old(self).spec_site()
                    &&& *final(self) == *final(b)
                },
                Err(e) => parse_role(role@) is None && (e matches CoordsError::FromStrToRoleError {
                    input,
                } && input@ == role@) && *final(self) == *old(self),
            },
    {
        let x = Role::from_str(role)?;
        self.role = Some(x);
        Ok(self)
    }

    /// Set the platform from its name. A refused name leaves the builder as
    /// it was.
    pub fn platform(&mut self, platform: &str) -> (r: Result<&mut Self, CoordsError>)
        ensures
            match r {
                Ok(b) => {
                    &&& b.spec_platform() matches Some(x) && parse_platform(platform@) == Some(x@)
                    &&& b.spec_level() == old(self).spec_level()
                    &&& b.spec_role() == old(self).spec_role()
                    &&& b.spec_site() == old(self).spec_site()
                    &&& *final(self) == *final(b)
                },
                Err(e) => parse_platform(platform@) is None && (
                e matches CoordsError::FromStrToPlatformError { input } && input@ == platform@)
                    && *final(self) == *old(self),
            },
    {
        let x = Platform::from_str(platform)?;
        self.platform = Some(x);
        Ok(self)
    }

    /// Set the site from its name. A refused name leaves the builder as it
    /// was.
    pub fn site(&mut self, site: &str) -> (r: Result<&mut Self, CoordsError>)
        ensures
            match r {
                Ok(b) => {
                    &&& b.spec_site() matches Some(x) && parse_site(site@) == Some(x@)
                    &&& b.spec_level() == old(self).spec_level()
                    &&& b.spec_role() == old(self).spec_role()
                    &&& b.spec_platform() == old(self).spec_platform()
                    &&& *final(self) == *final(b)
                },
                Err(e) => parse_site(site@) is None && (e matches CoordsError::FromStrToSiteError {
                    input,
                } && input@ == site@) && *final(self) == *old(self),
            },
    {
        let x = Site::from_str(site)?;
        self.site = Some(x);
        Ok(self)
    }

    /// The coordinates set so far, with the facility and `any` on the axes
    /// left unset. The builder is emptied.
    pub fn build(&mut self) -> (r: Coords)
        ensures
            r.level == match old(self).spec_level() {
                Some(l) => l,
                None => Level::Facility,
            },
            r.role == match old(self).spec_role() {
                Some(x) => x,
                None => Role::Any,
            },
            r.platform == match old(self).spec_platform() {
                Some(x) => x,
                None => Platform::Any,
            },
            r.site == match old(self).spec_site() {
                Some(x) => x,
                None => Site::Any,
            },
            final(self).spec_level() is None,
            final(self).spec_role() is None,
            final(self).spec_platform() is None,
            final(self).spec_site() is None,
    {
        let mut tmp = CoordsBuilder::new();
        std::mem::swap(&mut tmp, self);
        let CoordsBuilder { level, role, platform, site } = tmp;
        let level = level.unwrap_or(Level::Facility);
        let role = role.unwrap_or(Role::Any);
        let platform = platform.unwrap_or(Platform::Any);
        let site = site.unwrap_or(Site::Any);
        Coords { level, role, platform, site }
    }
}

/// The coordinates of a location in package space.
#[derive(Debug, PartialEq, Eq, PartialOrd, Ord, Clone)]
pub struct Coords {
    /// The facility, or a show, sequence or shot.
    pub level: Level,
    /// A role or subrole.
    pub role: Role,
    /// The operating system variant.
    pub platform: Platform,
    /// The physical location.
    pub site: Site,
}

impl Coords {
    /// A builder to set the coordinates axis by axis; `build` finishes it.
    pub fn new() -> (r: CoordsBuilder)
        ensures
            r.spec_level() is None,
            r.spec_role() is None,
            r.spec_platform() is None,
            r.spec_site() is None,
    {
        CoordsBuilder::new()
    }

    /// Coordinates from the names of their level, role, platform and site;
    /// `parsed` is what levelspec made of the level name.
    pub fn try_from_parts(
        level: &str,
        parsed: Option<LevelSpec>,
        role: &str,
        platform: &str,
        site: &str,
    ) -> (r: Result<Coords, CoordsError>)
        ensures
            is_ascii_text(level@) ==> (names_facility(level@) <==> ascii_lower(level@) == "facility"@),
            r is Ok <==> coords_accepted(level@, parsed, role@, platform@, site@),
            r matches Ok(c) ==> coords_from_names(c, level@, parsed, role@, platform@, site@),
            r matches Err(e) ==> coords_error_matches(e, level@, parsed, role@, platform@, site@),
    {
        let level = Level::try_from_str(level, parsed)?;
        let role = Role::from_str(role)?;
        let platform = Platform::from_str(platform)?;
        let site = Site::from_str(site)?;
        Ok(Coords { level, role, platform, site })
    }

    /// Coordinates from their four parts.
    pub fn from_parts(level: Level, role: Role, platform: Platform, site: Site) -> (r: Coords)
        ensures
            r == (Coords { level, role, platform, site }),
    {
        Coords { level, role, platform, site }
    }

    /// The level.
    pub fn level(&self) -> (r: &Level)
        ensures
            *r == self.level,
    {
        &self.level
    }

    /// The role.
    pub fn role(&self) -> (r: &Role)
        ensures
            *r == self.role,
    {
        &self.role
    }

    /// The platform.
    pub fn platform(&self) -> (r: &Platform)
        ensures
            *r == self.platform,
    {
        &self.platform
    }

    /// The site.
    pub fn site(&self) -> (r: &Site)
        ensures
            *r == self.site,
    {
        &self.site
    }

    /// The coordinates as they are displayed:
    /// `(level:'..' role:'..' platform:'..' site:'..')`.
    pub fn to_string(&self) -> (r: String)
        ensures
            r@ == coords_text(*self),
    {
        let l = self.level.to_string();
        let ro = self.role.to_string();
        let p = self.platform.to_string();
        let si = self.site.to_string();
        describe_parts(l.as_str(), ro.as_str(), p.as_str(), si.as_str())
    }
}

/// The name of an axis value: its name, or `any`.
pub open spec fn axis_name(v: Option<Seq<char>>) -> Seq<char> {
    match v {
        Some(n) => n,
        None => "any"@,
    }
}

/// Four axis names in the form coordinates are displayed in:
/// `(level:'..' role:'..' platform:'..' site:'..')`.
pub open spec fn parts_text(
    level: Seq<char>,
    role: Seq<char>,
    platform: Seq<char>,
    site: Seq<char>,
) -> Seq<char> {
    "(level:'"@ + level + "' role:'"@ + role + "' platform:'"@ + platform + "' site:'"@ + site
        + "')"@
}

/// The displayed form of coordinates.
pub open spec fn coords_text(c: Coords) -> Seq<char> {
    parts_text(
        crate::level::level_text(c.level),
        axis_name(c.role@),
        axis_name(c.platform@),
        axis_name(c.site@),
    )
}

/// Four axis names in the form coordinates are displayed in.
pub fn describe_parts(level: &str, role: &str, platform: &str, site: &str) -> (r: String)
    ensures
        r@ == parts_text(level@, role@, platform@, site@),
{
    let mut s = String::from_str("(level:'");
    s.append(level);
    s.append("' role:'");
    s.append(role);
    s.append("' platform:'");
    s.append(platform);
    s.append("' site:'");
    s.append(site);
    s.append("')");
    s
}

} // verus!
