//! Core engine of a key-overlay display: a modifier state tracker, a pure
//! glyph resolver mapping physical keys under the held modifiers to display
//! tokens, and a bounded sliding-window buffer of the glyphs shown on screen.

pub mod buffer;
pub mod engine;
pub mod events;
pub mod keymap;
pub mod keys;
pub mod modifiers;
pub mod resolve;

pub use events::Event;
pub use modifiers::Modifier;
