//! The engine's operations: what to hand to each and what to make of its
//! answer.
//!
//! The engine takes its arguments as a list of strings in the style of a
//! command line.  The types of these modules give that list a structure, and
//! produce the strings from it.
pub mod create;
pub mod fetch;
pub mod graph;
pub mod info;
pub mod update;
