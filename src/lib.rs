use vstd::prelude::*;

pub mod builder;
pub mod error;
pub mod handshake;
pub mod lifecycle;
pub mod process;
pub mod registry;
pub mod tag;

verus! {

} // verus!
