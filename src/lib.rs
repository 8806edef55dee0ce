pub mod authority;
pub mod handler;
pub mod laws;
pub mod name;
pub mod record;
pub mod store;
