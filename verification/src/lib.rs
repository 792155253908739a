//! A counter widget that a host page mounts onto one of its DOM elements.
//!
//! The widget's behaviour lives here, verified: its state (a caption taken
//! from the host element's text and a signed count), the transitions that
//! the two buttons trigger, and the exact strings the widget displays.
//! Rendering and DOM access are left to the embedding code, which feeds
//! plain strings in and reads plain strings back out.

pub mod counter;
pub mod text;
