//! Verified core of the RustRoom photo editor: the edit stack that the
//! slider panel produces, the background worker's message handling, the
//! histogram bin counting, the catalogue records and the text rules for
//! paths, preview names and image metadata.

pub mod adjustments;
pub mod pipeline;
pub mod worker;
pub mod text;
pub mod models;
pub mod paths;
pub mod histogram;
pub mod imaging;
pub mod import;
pub mod metadata;
pub mod library;
pub mod session;
