//! Lifecycle and text rules of a binding to a QML application toolkit.

pub mod arguments;
pub mod lifecycle;
pub mod logging;
pub mod text;
