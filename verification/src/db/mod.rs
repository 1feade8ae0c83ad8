pub mod client;
pub mod search_attribute;
pub mod utils;
pub mod find_all;
pub mod find;
pub mod add;
pub mod update;
pub mod packrat;
