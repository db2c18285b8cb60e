//! Detection of public items that a workspace declares but never mentions
//! outside the file that declares them.
//!
//! The API surface of a package arrives as two tables keyed by item id
//! ([`rustdoc`]). They are joined into one record per candidate symbol
//! ([`parsed`]), each candidate's name is looked for in a listing of the
//! workspace's files ([`search`]), and a symbol that no other file mentions is
//! reported ([`report`]).

pub mod parsed;
pub mod report;
pub mod rustdoc;
pub mod search;
pub mod text;

pub use crate::parsed::ItemDocsMerged;
