//! Decisions of an http:BL access check: query names, response decoding and
//! the blocking policy, stated over mathematical models and verified.

pub mod config;
pub mod httpbl;
pub mod net;
pub mod routes;
pub mod text;
