//! A small geography CRUD service, verified: route parsing, the query each
//! route demands, and the exact HTTP status and body for every outcome of the
//! database call. The web server and the database driver live outside the
//! library and hand it plain values.

pub mod records;
pub mod responses;
pub mod routes;
pub mod server;
pub mod text;
