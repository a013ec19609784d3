//! Verified core of an HTTP-controlled relay/outlet manager.
//!
//! A fixed registry of GPIO-backed outlets is built once at startup; a
//! controller resolves an outlet by identifier, drives its physical pin, and
//! mirrors the commanded state in the registry only after the hardware
//! confirmed the write.  Request routing, id-parameter validation and the
//! wire-level replies are verified here as well; the HTTP server loop and the
//! JSON encoding sit outside the library.

pub mod controller;
pub mod hardware;
pub mod outlet;
pub mod parse;
pub mod registry;
pub mod routes;
