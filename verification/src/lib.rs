//! Core of an installer-artifact packager: validated configuration values,
//! exclusion-aware file discovery, ordered archive assembly and checksum
//! formatting, each as verified logic that a host program drives.
//!
//! The library never touches the file system or the terminal. Where a step
//! needs such work it hands the host a request (a path to inspect, a file to
//! append) and takes the outcome back as a plain value.

pub mod checksum;
pub mod cli;
pub mod config;
pub mod error_log;
pub mod installer_gen;
pub mod make;
pub mod progress_log;
pub mod scaffold;
pub mod text;
