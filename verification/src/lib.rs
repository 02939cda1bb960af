//! Reconstructs a structured record of a community forum's historical
//! front-page rankings: archived, date-scoped HTML listing pages are turned
//! into typed post records, one persisted file per calendar day.
//!
//! The core is the table-row classification and post-assembly state machine
//! (`rows`, `classify`, `assemble`), driven by the per-day pagination crawl
//! loop (`crawl`) over the day range (`dates`), with the per-day JSON
//! rendering (`archive`). The `items` module holds the typed records of the
//! forum's JSON API. Network transport, the async runtime and file writing
//! live in the host program, which hands this library plain values.

pub mod archive;
pub mod assemble;
pub mod classify;
pub mod crawl;
pub mod dates;
pub mod items;
pub mod rows;
pub mod text;
