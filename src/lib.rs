//! Test-data generation for competitive-programming problems: the data model of
//! programs, test cases, bundles and scored tasks, and the decisions of the
//! generation run (what to compile, what to run in which order, where each file
//! lands, how a run outcome is classified, and whether the task graph is whole).
//! Running processes and touching the file system is left to the caller.

pub mod config;
pub mod generated;
pub mod error;
pub mod export;
pub mod text;
pub mod utils;
