//! The core of a sandboxed script runtime: the table of native resources, the
//! permission checker, the op registry with its dispatch boundary, and the
//! worker that drives one execution context through its lifecycle.
//!
//! Nothing here touches the host. The embedder performs the outside work and
//! reports back; every decision is taken, and proved, in this crate.

pub mod error;
pub mod global;
pub mod lifecycle;
pub mod logging;
pub mod ops;
pub mod permission;
pub mod prompt;
pub mod resource;
pub mod text;
pub mod worker;
