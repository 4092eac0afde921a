//! Two small console utilities as a verified library: a bounds-checked lookup
//! in a fixed array driven by lines of text, and the preparation of a
//! recursive, optionally case-insensitive, file search.

pub mod text;
pub mod lookup;
pub mod enumerate;
