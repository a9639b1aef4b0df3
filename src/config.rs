//! A problem as its author declares it: programs by name, test cases by bundle,
//! scored tasks, and the roles of solution, validator and checker.

pub mod problem;
pub mod program;
