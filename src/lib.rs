//! Turns a declarative description of a QEMU virtual machine into the
//! ordered argument vector that launches it.
#![allow(dead_code)]

pub mod text;
pub mod types;
pub mod device_consts;
pub mod device;
pub mod config;
pub mod vm_id;
pub mod qemu;
pub mod laws;
