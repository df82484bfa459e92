//! Frame-level engine state of a small real-time renderer: the per-frame
//! input banks (mouse and keyboard axes with their release queues), the
//! stable display settings, the frame counter, the keyboard shortcuts of the
//! debug overlay, uniform bind-group descriptions and the stub demo.

pub mod axis;
pub mod input;
pub mod keys;
pub mod engine_state;
pub mod uniform;
pub mod stub_demo;
pub mod laws;
