use vstd::prelude::*;

pub mod auth;
pub mod crypto;
pub mod error;
pub mod event;
pub mod json;
pub mod metadata;
pub mod project;
pub mod resource;
pub mod usage;
pub mod utils;
pub mod worker;

verus! {

/// Page size used when a command does not ask for one.
pub const PAGE_SIZE_DEFAULT: u32 = 12;
/// Page sizes at or above this bound are refused.
pub const PAGE_SIZE_MAX: u32 = 120;
/// Most secrets a project may hold at once.
pub const MAX_SECRET: usize = 2;

} // verus!
