//! Configuration layering, platform support and environment helpers for dist.
#![allow(unused_imports)]

use vstd::prelude::*;

pub mod checksum;
pub mod commands;
pub mod config;
pub mod env;
pub mod errors;
pub mod generate;
pub mod help;
pub mod host;
pub mod init;
pub mod keyed;
pub mod laws;
pub mod linkage;
pub mod manifest;
pub mod net;
pub mod paths;
pub mod plan;
pub mod properties;
pub mod platform;
pub mod schema;
pub mod strings;
pub mod workspace;

verus! {

} // verus!
