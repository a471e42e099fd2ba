//! One vocabulary for many package managers.
//!
//! Each backend knows how one command line tool is driven and what its output
//! means. What it decides is a function of plain values: which commands to
//! run for a request, and what a reply says about packages. Running the
//! commands is left to the caller.

pub mod backends;
pub mod command;
pub mod data;
pub mod detect;
pub mod error;
pub mod form;
pub mod laws;
pub mod order;
pub mod package;
pub mod path;
pub mod pattern;
pub mod profile;
pub mod request;
pub mod rows;
pub mod session;
pub mod size;
pub mod text;
pub mod version;
