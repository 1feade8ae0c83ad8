pub mod statement;
pub mod levels;
pub mod roles;
pub mod platforms;
pub mod sites;
pub mod packages;
pub mod versionpins;
pub mod withs;
