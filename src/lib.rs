//! Lifecycle and reactivity core of a document-tree binding layer.
//!
//! A node carries a release list with two phases: actions that run once the
//! node is inserted into a live tree, and actions that run once it is removed
//! (or discarded without ever being inserted). Everything here is bookkeeping
//! on plain values: the tree itself and the reactive streams live with the
//! caller, which performs what these types hand back.
pub mod bindings;
pub mod builder;
pub mod callbacks;
pub mod children;
pub mod dom;
pub mod window;
