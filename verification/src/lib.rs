use vstd::prelude::*;

pub mod text;
pub mod multiaddr;
pub mod path;
pub mod permission;
pub mod options;
pub mod config;
pub mod json;
pub mod cli_config;
pub mod v86config;
pub mod exit_code;
pub mod runner;
pub mod engine;
pub mod mcall;
pub mod drivers;
pub mod cli;
pub mod checksum;
pub mod wasm_config;

verus! {

} // verus!
