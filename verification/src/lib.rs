//! Idle-pointer annotator: the per-frame state machine of a small desktop
//! toy that paints a short text next to the mouse pointer once the pointer
//! has sat still for an idle threshold.
//!
//! The library holds the whole decision path — pointer sample in, state
//! update, draw decision out — on plain values: positions as whole
//! coordinates and time as milliseconds on a monotonic clock. The host GUI
//! loop samples the pointer, calls in here once per frame, and paints
//! whatever draw command comes back.

pub mod annotator;
pub mod banner;
pub mod geom;
