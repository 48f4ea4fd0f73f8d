//! Request handling for a small HTTP service over one table of users: reading the
//! request text, picking a route, choosing the statement to run, and building the
//! response from what the store answered.
pub mod json;
pub mod laws;
pub mod number;
pub mod request;
pub mod response;
pub mod route;
pub mod service;
pub mod user;
