//! A small HTTP service over a table of ice-cream flavours: request parsing,
//! routing, the decisions of each handler and the encoding of responses.
//! Talking to the network and to the database is left to the caller, which
//! hands the outcome of each database statement back to the library.

pub mod text;
pub mod request;
pub mod helado;
pub mod service;
pub mod response;
pub mod store;
pub mod laws;
