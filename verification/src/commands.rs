//! The decisions behind each command of the tool.

pub mod deploy;
pub mod doctor;
pub mod init;
pub mod setup;
