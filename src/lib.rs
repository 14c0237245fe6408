//! Resource lifecycle of a single-window text renderer: which native
//! graphics objects exist, when they are created, resized and released, and
//! how window messages drive those transitions. The native calls themselves
//! are made by the host program; this library decides what to ask for and
//! keeps the bookkeeping consistent.
pub mod dpi;
pub mod wide;
pub mod document;
pub mod window;
pub mod laws;
