//! Composes display messages for a scrolling LED-matrix badge: resolves display
//! styles and fonts, turns text or raw pixels into bitmaps, gathers frames into
//! an ordered payload and decides which single device receives it.
pub mod text;
pub mod style;
pub mod font;
pub mod bitmap;
pub mod payload;
pub mod compose;
pub mod transport;
