pub mod pkgcoords;
pub use pkgcoords::OrderPkgCoordsBy;
pub mod sites;
pub mod packages;
pub mod platforms;
pub mod levels;
pub mod roles;
pub mod revisions;
pub mod distributions;
pub mod versionpin_withs;
pub mod versionpins;
pub mod changes;
