//! Finds the most recent date on which a release channel published a
//! manifest whose packages are all available for the targets in scope.
//!
//! The resolver is a step machine: the caller performs each fetch it
//! asks for and hands the result back, so the search stays strictly
//! sequential and stops at the first (most recent) viable manifest.
//! The availability filter decides viability, and the namer derives
//! the reported toolchain identifier from the chosen manifest.

pub mod date;
pub mod fetch;
pub mod filter;
pub mod manifest;
pub mod namer;
pub mod platform;
pub mod search;
