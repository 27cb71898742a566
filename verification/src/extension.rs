//! The steps of the assembly that an application may or may not take: its
//! command-line arguments, its environment variables, its logger, and its
//! start.

pub mod cli;
pub mod env;
pub mod logger;
pub mod startup;
