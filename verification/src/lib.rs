//! Control core of a Wi-Fi RGB lamp: one addressable LED behind a small
//! HTTP control surface.
//!
//! The crate holds the coordination logic worth proving: the shared control
//! state that request handlers and the update loop both touch, the
//! time-gated colorloop animation over the HSV hue wheel, the decoding of
//! color commands, and the resolution of the final output color. The
//! platform glue around it (Wi-Fi association, the HTTP server, the LED
//! driver) lives outside and hands this crate plain values: timestamps in
//! milliseconds and query strings as bytes.
pub mod color;
pub mod control;
pub mod state;
