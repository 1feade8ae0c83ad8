//! A working context: where in package space a user stands (level, role,
//! platform, site).
use crate::coords::{coords_accepted, level_accepted, level_value};
use crate::coords_error::CoordsError;
use crate::ctx_error::CtxError;
use crate::level::{names_facility, Level, LevelSpec};
use crate::text::{ascii_lower, is_ascii_text};
use crate::platform::{parse_platform, Platform};
use crate::role::{parse_role, Role};
use crate::site::{parse_site, Site};
use vstd::prelude::*;

verus! {

/// Whether `c` holds the values that the four accepted names stand for.
pub open spec fn ctx_from_names(
    c: Ctx,
    level: Seq<char>,
    parsed: Option<LevelSpec>,
    role: Seq<char>,
    platform: Seq<char>,
    site: Seq<char>,
) -> bool {
    &&& c.spec_level() == level_value(level, parsed)
    &&& Some(c.spec_role()@) == parse_role(role)
    &&& Some(c.spec_platform()@) == parse_platform(platform)
    &&& Some(c.spec_site()@) == parse_site(site)
}

/// The error for four names that do not make a context: the first axis, in
/// the order level, role, platform, site, whose name is refused.
pub open spec fn ctx_error_matches(
    e: CtxError,
    level: Seq<char>,
    parsed: Option<LevelSpec>,
    role: Seq<char>,
    platform: Seq<char>,
    site: Seq<char>,
) -> bool {
    if !level_accepted(level, parsed) {
        e matches CtxError::InvalidLevel { input } && input@ == level
    } else if parse_role(role) is None {
        e matches CtxError::FromStrToRoleError { input } && input@ == role
    } else if parse_platform(platform) is None {
        e matches CtxError::FromStrToPlatformError { input } && input@ == platform
    } else {
        e matches CtxError::FromStrToSiteError { input } && input@ == site
    }
}

/// The level named by `level`, with a refusal told as a context error.
fn level_for_ctx(level: &str, parsed: Option<LevelSpec>) -> (r: Result<Level, CtxError>)
    ensures
        is_ascii_text(level@) ==> (names_facility(level@) <==> ascii_lower(level@) == "facility"@),
        r is Ok <==> level_accepted(level@, parsed),
        r matches Ok(l) ==> l == level_value(level@, parsed),
        r matches Err(e) ==> e matches CtxError::InvalidLevel { input } && input@ == level@,
{
    match Level::try_from_str(level, parsed) {
        Ok(l) => Ok(l),
        Err(CoordsError::InvalidLevel { input }) => Err(CtxError::InvalidLevel { input }),
        Err(_) => Err(CtxError::InvalidLevel { input: String::from_str(level) }),
    }
}

/// The role named by `role`, with a refusal told as a context error.
fn role_for_ctx(role: &str) -> (r: Result<Role, CtxError>)
    ensures
        r is Ok <==> parse_role(role@) is Some,
        r matches Ok(x) ==> parse_role(role@) == Some(x@),
        r matches Err(e) ==> e matches CtxError::FromStrToRoleError { input } && input@ == role@,
{
    match Role::from_str(role) {
        Ok(x) => Ok(x),
        Err(_) => Err(CtxError::FromStrToRoleError { input: String::from_str(role) }),
    }
}

/// The platform named by `platform`, with a refusal told as a context error.
fn platform_for_ctx(platform: &str) -> (r: Result<Platform, CtxError>)
    ensures
        r is Ok <==> parse_platform(platform@) is Some,
        r matches Ok(x) ==> parse_platform(platform@) == Some(x@),
        r matches Err(e) ==> e matches CtxError::FromStrToPlatformError { input } && input@
            == platform@,
{
    match Platform::from_str(platform) {
        Ok(x) => Ok(x),
        Err(_) => Err(CtxError::FromStrToPlatformError { input: String::from_str(platform) }),
    }
}

/// The site named by `site`, with a refusal told as a context error.
fn site_for_ctx(site: &str) -> (r: Result<Site, CtxError>)
    ensures
        r is Ok <==> parse_site(site@) is Some,
        r matches Ok(x) ==> parse_site(site@) == Some(x@),
        r matches Err(e) ==> e matches CtxError::FromStrToSiteError { input } && input@ == site@,
{
    match Site::from_str(site) {
        Ok(x) => Ok(x),
        Err(_) => Err(CtxError::FromStrToSiteError { input: String::from_str(site) }),
    }
}

/// Builds a context one axis at a time; unset axes default to the
/// facility and `any`.
pub struct CtxBuilder {
    level: Option<Level>,
    role: Option<Role>,
    platform: Option<Platform>,
    site: Option<Site>,
}

impl CtxBuilder {
    /// The level set so far.
    pub closed spec fn spec_level(&self) -> Option<Level> {
        self.level
    }

    /// The role set so far.
    pub closed spec fn spec_role(&self) -> Option<Role> {
        self.role
    }

    /// The platform set so far.
    pub closed spec fn spec_platform(&self) -> Option<Platform> {
        self.platform
    }

    /// The site set so far.
    pub closed spec fn spec_site(&self) -> Option<Site> {
        self.site
    }

    /// A builder with no axis set.
    fn new() -> (r: CtxBuilder)
        ensures
            r.spec_level() is None,
            r.spec_role() is None,
            r.spec_platform() is None,
            r.spec_site() is None,
    {
        CtxBuilder { level: None, role: None, platform: None, site: None }
    }

    /// Set the level from its name; `parsed` is what levelspec made of the
    /// name. A refused name leaves the builder as it was.
    pub fn level(&mut self, level: &str, parsed: Option<LevelSpec>) -> (r: Result<
        &mut Self,
        CtxError,
    >)
        ensures
            is_ascii_text(level@) ==> (names_facility(level@) <==> ascii_lower(level@) == "facility"@),
            match r {
                Ok(b) => {
                    &&& level_accepted(level@, parsed)
                    &&& b.spec_level() == Some(level_value(level@, parsed))
                    &&& b.spec_role() == old(self).spec_role()
                    &&& b.spec_platform() == old(self).spec_platform()
                    &&& b.spec_site() == old(self).spec_site()
                    &&& *final(self) == *final(b)
                },
                Err(e) => !level_accepted(level@, parsed) && (e matches CtxError::InvalidLevel {
                    input,
                } && input@ == level@) && *final(self) == *old(self),
            },
    {
        let l = level_for_ctx(level, parsed)?;
        self.level = Some(l);
        Ok(self)
    }

    /// Set the role from its name. A refused name leaves the builder as it
    /// was.
    pub fn role(&mut self, role: &str) -> (r: Result<&mut Self, CtxError>)
        ensures
            match r {
                Ok(b) => {
                    &&& b.spec_role() matches Some(x) && parse_role(role@) == Some(x@)
                    &&& b.spec_level() == old(self).spec_level()
                    &&& b.spec_platform() == old(self).spec_platform()
                    &&& b.spec_site() == old(self).spec_site()
                    &&& *final(self) == *final(b)
                },
                Err(e) => parse_role(role@) is None && (e matches CtxError::FromStrToRoleError {
                    input,
                } && input@ == role@) && *final(self) == *old(self),
            },
    {
        let x = role_for_ctx(role)?;
        self.role = Some(x);
        Ok(self)
    }

    /// Set the platform from its name. A refused name leaves the builder as
    /// it was.
    pub fn platform(&mut self, platform: &str) -> (r: Result<&mut Self, CtxError>)
        ensures
            match r {
                Ok(b) => {
                    &&& b.spec_platform() matches Some(x) && parse_platform(platform@) == Some(x@)
                    &&& b.spec_level() == old(self).spec_level()
                    &&& b.spec_role() == old(self).spec_role()
                    &&& b.spec_site() == old(self).spec_site()
                    &&& *final(self) == *final(b)
                },
                Err(e) => parse_platform(platform@) is None && (
                e matches CtxError::FromStrToPlatformError { input } && input@ == platform@)
                    && *final(self) == *old(self),
            },
    {
        let x = platform_for_ctx(platform)?;
        self.platform = Some(x);
        Ok(self)
    }

    /// Set the site from its name. A refused name leaves the builder as it
    /// was.
    pub fn site(&mut self, site: &str) -> (r: Result<&mut Self, CtxError>)
        ensures
            match r {
                Ok(b) => {
                    &&& b.spec_site() matches Some(x) && parse_site(site@) == Some(x@)
                    &&& b.spec_level() == old(self).spec_level()
                    &&& b.spec_role() == old(self).spec_role()
                    &&& b.spec_platform() == old(self).spec_platform()
                    &&& *final(self) == *final(b)
                },
                Err(e) => parse_site(site@) is None && (e matches CtxError::FromStrToSiteError {
                    input,
                } && input@ == site@) && *final(self) == *old(self),
            },
    {
        let x = site_for_ctx(site)?;
        self.site = Some(x);
        Ok(self)
    }

    /// The context set so far, with the facility and `any` on the axes
    /// left unset. The builder is emptied.
    pub fn build(&mut self) -> (r: Ctx)
        ensures
            r.spec_level() == match old(self).spec_level() {
                Some(l) => l,
                None => Level::Facility,
            },
            r.spec_role() == match old(self).spec_role() {
                Some(x) => x,
                None => Role::Any,
            },
            r.spec_platform() == match old(self).spec_platform() {
                Some(x) => x,
                None => Platform::Any,
            },
            r.spec_site() == match old(self).spec_site() {
                Some(x) => x,
                None => Site::Any,
            },
            final(self).spec_level() is None,
            final(self).spec_role() is None,
            final(self).spec_platform() is None,
            final(self).spec_site() is None,
    {
        let mut tmp = CtxBuilder::new();
        std::mem::swap(&mut tmp, self);
        let CtxBuilder { level, role, platform, site } = tmp;
        let level = level.unwrap_or(Level::Facility);
        let role = role.unwrap_or(Role::Any);
        let platform = platform.unwrap_or(Platform::Any);
        let site = site.unwrap_or(Site::Any);
        Ctx { level, role, platform, site }
    }
}

/// A working context: a location in package space.
#[derive(Debug, PartialEq, Eq, PartialOrd, Ord)]
pub struct Ctx {
    level: Level,
    role: Role,
    platform: Platform,
    site: Site,
}

impl Ctx {
    /// The level.
    pub closed spec fn spec_level(&self) -> Level {
        self.level
    }

    /// The role.
    pub closed spec fn spec_role(&self) -> Role {
        self.role
    }

    /// The platform.
    pub closed spec fn spec_platform(&self) -> Platform {
        self.platform
    }

    /// The site.
    pub closed spec fn spec_site(&self) -> Site {
        self.site
    }

    /// A builder to set the context axis by axis; `build` finishes it.
    pub fn new() -> (r: CtxBuilder)
        ensures
            r.spec_level() is None,
            r.spec_role() is None,
            r.spec_platform() is None,
            r.spec_site() is None,
    {
        CtxBuilder::new()
    }

    /// A context from the names of its level, role, platform and site;
    /// `parsed` is what levelspec made of the level name.
    pub fn try_from_parts(
        level: &str,
        parsed: Option<LevelSpec>,
        role: &str,
        platform: &str,
        site: &str,
    ) -> (r: Result<Ctx, CtxError>)
        ensures
            is_ascii_text(level@) ==> (names_facility(level@) <==> ascii_lower(level@) == "facility"@),
            r is Ok <==> coords_accepted(level@, parsed, role@, platform@, site@),
            r matches Ok(c) ==> ctx_from_names(c, level@, parsed, role@, platform@, site@),
            r matches Err(e) ==> ctx_error_matches(e, level@, parsed, role@, platform@, site@),
    {
        let level = level_for_ctx(level, parsed)?;
        let role = role_for_ctx(role)?;
        let platform = platform_for_ctx(platform)?;
        let site = site_for_ctx(site)?;
        Ok(Ctx { level, role, platform, site })
    }

    /// A context from its four parts.
    pub fn from_parts(level: Level, role: Role, platform: Platform, site: Site) -> (r: Ctx)
        ensures
            r.spec_level() == level && r.spec_role() == role && r.spec_platform() == platform
                && r.spec_site() == site,
    {
        Ctx { level, role, platform, site }
    }

    /// The level.
    pub fn level(&self) -> (r: &Level)
        ensures
            *r == self.spec_level(),
    {
        &self.level
    }

    /// The role.
    pub fn role(&self) -> (r: &Role)
        ensures
            *r == self.spec_role(),
    {
        &self.role
    }

    /// The platform.
    pub fn platform(&self) -> (r: &Platform)
        ensures
            *r == self.spec_platform(),
    {
        &self.platform
    }

    /// The site.
    pub fn site(&self) -> (r: &Site)
        ensures
            *r == self.spec_site(),
    {
        &self.site
    }
}

} // verus!
