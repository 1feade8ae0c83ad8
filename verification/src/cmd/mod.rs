pub mod utils;
pub mod versionpins;
