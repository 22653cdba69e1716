//! Build planning and step logic for assembling a Linux-from-scratch style
//! system: configuration records, path and command construction, task graphs
//! and the state machines that drive package installs and downloads.

pub mod build_lfs_sys;
pub mod build_rust_packages;
pub mod build_temp_toolchain;
pub mod config;
pub mod config_sys;
pub mod disk;
pub mod download;
pub mod install;
pub mod paths;
pub mod plan;
pub mod prepare_host_sys;
pub mod scripts;
pub mod steps;
pub mod trusted;
pub mod utils;
