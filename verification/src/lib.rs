//! Verified core of the Grugu couples API: request validation, the
//! decisions each endpoint takes around its database work, bearer-token
//! parsing, session claims and the partner-linking protocol.

pub mod text;
pub mod models;
pub mod password;
pub mod session;
pub mod handlers;
pub mod link;
pub mod db;
pub mod laws;
pub mod table;
