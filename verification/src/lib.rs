//! The configuration runtime of a desktop status bar: it evaluates a
//! user-written script with a `poll` binding installed, projects the
//! globals the script leaves behind (`windows`, `custom`, `boo`) into a
//! typed model, and serves the lookups a renderer makes, while pollers
//! registered by the script may mutate the shared `boo` namespace.

pub mod chars;
pub mod duration;
pub mod error;
pub mod host;
pub mod laws;
pub mod model;
pub mod project;
pub mod runtime;
pub mod strmap;
pub mod widget;
