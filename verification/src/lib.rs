//! Rules, matching, grouping and caching behind a Prometheus exporter for
//! Linux control groups and processes.
//!
//! The library holds the decisions of a scrape: which rule accepts which
//! cgroup or process, under which name a match is grouped, how a shell
//! command that names a cgroup is prepared, cached and shared between
//! callers, and how matched groups are batched by namespace. Reading the
//! kernel's files, running commands and serving HTTP are left to the program
//! built around it.

pub mod cgroups;
pub mod config;
pub mod file_watcher;
pub mod logging;
pub mod lru_cache;
pub mod matcher;
pub mod pattern;
pub mod position;
pub mod procs;
pub mod render;
pub mod server;
pub mod shell;
pub mod startup;
pub mod string_map;
pub mod template;
pub mod text;
