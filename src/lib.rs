//! Novelty detection and notification dispatch for governance feeds.
//!
//! Each cycle fetches the current records of one kind from one source,
//! compares their identifiers with the snapshot kept from the previous
//! cycle, and hands the records that were not seen before to every
//! configured notification sink.
pub mod entity;
pub mod novelty;
pub mod cycle;
pub mod dispatch;
pub mod text;
pub mod message;
pub mod body;
pub mod handler;
