//! Verified core of a page-information tool: URL scheme normalization,
//! browser-cookie selection, capture-outcome classification, and output
//! planning (file names, timestamps, content-type handling).
//!
//! Network access, the browser session itself, and file writes live outside
//! this crate; the decisions that drive them are verified here.

pub mod capture;
pub mod cookies;
pub mod metadata;
pub mod output;
pub mod scheme;
pub mod session;
pub mod store;
pub mod text;
