use vstd::prelude::*;

pub mod assistant;
pub mod drawer;
pub mod events;
pub mod files;
pub mod launch;
pub mod lifecycle;
pub mod pty;
pub mod records;
pub mod session;
pub mod supervisor;

verus! {

} // verus!
