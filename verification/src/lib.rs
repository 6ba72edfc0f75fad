//! Device checkout: the rules of a small web service that lets a team
//! reserve and return shared devices.
pub mod models;
pub mod routes;
pub mod text;
pub mod utils;
