//! Decision logic of a desktop shell that hands PDF documents to an external
//! Ghostscript engine: which engine binaries to try and in what order, how an
//! engine search proceeds, how one flatten request unfolds, and the small
//! commands offered to the frontend. All input and output is left to the
//! caller, which reports what happened as plain values.

pub mod commands;
pub mod discovery;
pub mod engine;
pub mod files;
pub mod startup;
pub mod flatten;
pub mod support;
pub mod text;
