//! A small desktop backend core: a notes store and an encrypted password
//! vault over one embedded row store, with a command facade that turns
//! every failure into a plain string.

pub mod cipher;
pub mod facade;
pub mod laws;
pub mod model;
pub mod notes;
pub mod passgen;
pub mod stats;
pub mod store;
pub mod vault;
