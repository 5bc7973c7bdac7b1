//! Decision logic of a pan/orbit camera controller: which mouse bindings
//! are active, where the mouse motion of a frame goes, which single movement
//! a frame applies, and when the upside-down state is re-evaluated.

pub mod controls;
pub mod frame;
pub mod input;
