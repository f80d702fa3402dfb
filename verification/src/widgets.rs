//! What the widgets decide before anything is drawn.

pub mod battery;
