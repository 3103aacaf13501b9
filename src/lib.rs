use vstd::prelude::*;

pub mod text;
pub mod actions;
pub mod commands;

verus! {

} // verus!
