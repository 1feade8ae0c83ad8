use vstd::prelude::*;

verus! {

/// Errors raised while building coordinates or distributions.
#[derive(Debug)]
pub enum CoordsError {
    /// A level name that is neither `facility` nor a levelspec.
    InvalidLevel { input: String },
    /// A level name that levelspec refused.
    NewLevelspecError { level: String },
    /// A name that is not a site.
    FromStrToSiteError { input: String },
    /// A name that is not a role.
    FromStrToRoleError { input: String },
    /// A name that is not a platform.
    FromStrToPlatformError { input: String },
    /// A distribution name that breaks the naming rules; `problem` says which.
    DistributionConstructionError { problem: String },
}

} // verus!
