//! Client-side encoding of window-manager commands.
//!
//! A command (close, kill, move, resize, maximize, fullscreen, hide, show),
//! together with an optional explicit target window, is packed into a flat
//! payload of five integer slots that an out-of-process listener decodes.
//! The slot layout is a wire contract with an independently versioned
//! receiver, so the mapping is stated exactly and proved here.

pub mod command;
pub mod encode;
