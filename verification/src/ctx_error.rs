use vstd::prelude::*;

verus! {

/// Errors raised while building a context.
#[derive(Debug)]
pub enum CtxError {
    /// A level name that is neither `facility` nor a levelspec.
    InvalidLevel { input: String },
    /// A level name that levelspec refused.
    NewLevelspecError { level: String },
    /// A name that is not a site.
    FromStrToSiteError { input: String },
    /// A name that is not a role.
    FromStrToRoleError { input: String },
    /// A name that is not a platform.
    FromStrToPlatformError { input: String },
}

} // verus!
