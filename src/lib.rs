use vstd::prelude::*;

pub mod framebuffer;
pub mod input;
pub mod keymap;
pub mod pacer;
pub mod session;

verus! {

} // verus!
