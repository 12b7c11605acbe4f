//! A line-oriented text editor core: a viewport/cursor coordinate model, a
//! line-buffer edit engine, a substring search navigator, and the pure part of
//! the render pipeline. Terminal I/O lives outside this crate; every function
//! here is verified.

pub mod coords;
pub mod directions;
pub mod edit;
pub mod editor;
pub mod errors;
pub mod laws;
pub mod navigation;
pub mod screen;
pub mod search;
