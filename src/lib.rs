use vstd::prelude::*;

pub mod bench;
pub mod diagnostics;
pub mod grid;
pub mod rate;
pub mod text;

verus! {

} // verus!
