//! Cgroups as the rules see them.

pub mod discover;
