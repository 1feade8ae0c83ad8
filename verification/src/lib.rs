pub mod text;
pub mod coords_error;
pub mod ctx_error;
pub mod distribution;
pub mod role;
pub mod platform;
pub mod site;
pub mod level;
pub mod coords;
pub mod ctx;
pub mod db;
pub mod types;
pub mod io;
pub mod cmd;
pub mod changeset;
