//! The command line's commands, and running them against the services.
pub mod repo;
pub mod knowledge;
pub mod skill;
pub mod task;
