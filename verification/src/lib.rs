//! Projects one base16 colour scheme into the mustache templates found under
//! a directory.
//!
//! The library holds the rules of that conversion: which fields a scheme must
//! have, how they are renamed for the templates, which files count as
//! templates, where each rendered file goes, and in which order a run reads,
//! renders and writes. Reading and writing files is left to the caller.

pub mod engine;
pub mod failure;
pub mod locate;
pub mod palette;
pub mod render;
pub mod run;
pub mod scan;
pub mod scheme_file;
pub mod tags;
pub mod text;
pub mod yaml;
