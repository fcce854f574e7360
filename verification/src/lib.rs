//! Core of a microphone-capture tool: a shared recording session (an armed
//! flag plus an append-only sample buffer), the input-stream state machine
//! that feeds it, and the device-selection rules. The windowing layer and the
//! platform audio calls live outside this crate and only read and write the
//! state exposed here.

pub mod device;
pub mod errors;
pub mod session;
pub mod stream;
