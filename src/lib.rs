//! Builds a citation style from a short series of answers.
//!
//! - `intent`: the answers collected so far, and merging typed patches into them.
//! - `patch`: reading loosely typed patches, rejecting malformed ones.
//! - `decision`: the engine that picks the next question and its answers.
//! - `synth`: the compiler from an intent to a style specification.
//! - `document`: writing a style specification as a document, and reading it back.
//! - `preview`: the reference sample and the fragment for live examples.
//! - `laws`: properties that hold across these functions.

pub mod intent;
pub mod patch;
pub mod decision;
pub mod synth;
pub mod document;
pub mod preview;
pub mod laws;
