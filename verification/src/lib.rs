use vstd::prelude::*;

pub mod decimal;
pub mod discovery;
pub mod locate;
pub mod supervisor;

verus! {

/// Port used in the API base URL when no port has been discovered yet.
pub const FALLBACK_PORT: u16 = 5000;

} // verus!
