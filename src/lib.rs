//! Enrichment of a table of countries and capitals with coordinates and
//! synthesized speech, emitted as one JSON array.

pub mod text;
pub mod error;
pub mod geo;
pub mod record;
pub mod audio;
pub mod rows;
pub mod enrich;
pub mod pipeline;
