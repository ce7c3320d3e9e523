//! A text-classification training core: a dataset abstraction that adapts
//! native records into uniform (text, label) samples, and the experiment
//! configuration that a generic trainer consumes.

pub mod config;
pub mod data;
