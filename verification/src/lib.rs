//! Projects of an e-invoicing server: the rows of the `project` table, the
//! writes sent to it, the pagination of listings and the answers of the HTTP
//! endpoints that manage projects.
//!
//! Every decision that the server takes around a database call is a verified
//! function here; the calls themselves (the database and HTTP plumbing) are
//! made by the code that embeds this library.
pub mod entity;
pub mod dto;
pub mod pagination;
pub mod context;
pub mod text;
pub mod reply;
pub mod handlers;
pub mod laws;
