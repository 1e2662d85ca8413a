use vstd::prelude::*;

pub mod audio;
pub mod bits;
pub mod cat;
pub mod constants;
mod crc32;
pub mod keymap;
pub mod laws;
pub mod eit;
pub mod nit;
pub mod pat;
pub mod pidmap;
pub mod pmt;
pub mod processor;
pub mod report;
pub mod sdt;
pub mod si_cache;
pub mod stats;
pub mod section;
pub mod tdt;
pub mod tr101;
pub mod types;
pub mod video;

verus! {

} // verus!
