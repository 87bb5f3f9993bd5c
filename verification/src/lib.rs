//! Core of a typed client for the Fakturoid accounting API: filter
//! construction and per-entity projection, pagination link handling,
//! request planning and error classification.

pub mod client;
pub mod error;
pub mod filters;
pub mod links;
pub mod models;
pub mod strutil;
