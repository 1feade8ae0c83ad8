pub mod roles;
pub mod search_args;
pub mod distributions;
pub mod distribution_withs;
pub mod versionpins;
pub mod withs;
pub mod distribution;
pub mod versionpin;
pub mod pkgcoords;
