//! Bounded, scrollable view state and stream decoding for a live telemetry
//! dashboard of an embedded controller.

pub mod app;
pub mod battery;
pub mod ring_buffer;
pub mod debug;
pub mod decoder;
pub mod input;
pub mod log_line;
pub mod log_view;
pub mod mock;
pub mod notifications;
pub mod scan;
pub mod scroll;
pub mod text;
pub mod ucsi;
pub mod widgets;
