//! Live reloading of a fragment shader: the decision of which file-change
//! events call for a recompile, the compile step itself, and the hot-swap of
//! the bound material that never leaves the drawn object without a shader.
pub mod event;
pub mod geometry;
pub mod history;
pub mod material;
pub mod reload;
