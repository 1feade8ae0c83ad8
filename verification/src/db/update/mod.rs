pub mod versionpins;
