//! A small user registry served over HTTP: quote escaping for statement text,
//! status rendering in HTML or JSON, and the decisions of the five CRUD
//! operations on users, each stated over a model of the user table.
pub mod sanitize;
pub mod render;
pub mod user;
pub mod handlers;
pub mod laws;
pub mod greeting;
