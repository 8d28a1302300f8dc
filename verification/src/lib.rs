//! Ingestion of takeoff sites: the references to detail pages are taken
//! from a geographic markup file, those that are new are visited one by one
//! through a browser session, and each page is turned into one record for
//! the store.
//!
//! The library decides and computes; it performs no input or output. The
//! work on a page ([`record`]) and the run over all pages ([`ingest`]) are
//! state machines: each step takes the answer to the last action and gives
//! the next action, which the caller performs.

pub mod error;
pub mod ingest;
pub mod models;
pub mod page;
pub mod parse_kml;
pub mod parsers;
pub mod pattern;
pub mod record;
pub mod text;
