//! Classification of puzzle/solution pairs by the structure of their curried
//! templates: a fixed registry of template hashes, a small state machine that
//! walks the nested layers of a puzzle, and the typed decode of each known shape.

pub mod templates;
pub mod clvm;
pub mod input;
pub mod registry;
pub mod classifier;
pub mod spend;
