//! Renders line-delimited JSON log records into human-readable text lines.
//!
//! The library holds the record pipeline: deciding what to do with each
//! input line, validating decoded records, building the per-record
//! diagnostic context, and rendering records through a compiled layout
//! pattern.  A thin host around the library reads standard input, performs
//! the structural JSON decoding, and writes the rendered lines out.

pub mod clock;
pub mod context;
pub mod laws;
pub mod level;
pub mod pattern;
pub mod pipeline;
pub mod record;
pub mod render;
pub mod text;

pub use level::Level;
