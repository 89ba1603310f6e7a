//! Typed client core for the DeepL REST API.
//!
//! The modules here hold everything about a DeepL exchange that can be
//! decided without touching the network: how a request is assembled from a
//! credential and typed arguments, how a response status is classified, how
//! decoded bodies become results, and how results and reports are rendered.
//! An unverified front end performs the HTTP transfer itself and hands the
//! observed status and decoded body back to this crate.

pub mod cli;
pub mod client;
pub mod encode;
pub mod error;
pub mod laws;
pub mod render;
pub mod request;
pub mod response;
pub mod types;
