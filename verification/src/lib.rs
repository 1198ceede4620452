//! Request-handling logic of a small budget manager web application:
//! users register and log in, keep spending categories (which can be
//! archived) and record expenses against them.
//!
//! The library decides what every route answers, from plain values that the
//! web server and the database layer hand it; the server performs the
//! database writes, cookie changes and template rendering that the library
//! asks for.

pub mod actions;
pub mod categories;
mod clock;
pub mod contexts;
pub mod expenses;
pub mod flash;
pub mod forms;
pub mod laws;
pub mod listing;
pub mod models;
pub mod password;
pub mod route_laws;
pub mod session;
pub mod text;
