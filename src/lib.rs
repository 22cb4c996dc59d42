use vstd::prelude::*;

pub mod config;
pub mod descriptor;
pub mod error;
pub mod process;
pub mod props;
pub mod provision;
pub mod vm;

verus! {

} // verus!
