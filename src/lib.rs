//! A bridge between statically typed host code and a stack-based script VM:
//! binding declarations are turned into marshaling adapters grouped by domain,
//! and at run time a registry of live VMs routes script calls to those adapters.

pub mod binary;
pub mod binding;
pub mod callbacks;
pub mod config;
pub mod crab;
pub mod debug;
pub mod dispatch;
pub mod domain;
pub mod endian;
pub mod error;
pub mod host;
pub mod instruction;
pub mod params;
pub mod registry;
pub mod render;
pub mod scan;
pub mod unit;
pub mod value;
pub mod vm;
