//! Deployment of iOS apps to TestFlight: configuration, probing of the local
//! toolchain, scanning of build output, and the decisions of each command.
//!
//! Everything here works on plain values. Reading files, spawning processes
//! and prompting are left to the caller, who hands in what was observed.

pub mod text;
pub mod home;
pub mod templates;
pub mod config;
pub mod xcode;
pub mod fastlane;
pub mod commands;
