//! A capture engine that extracts a sub-rectangle of a duplicated display
//! frame as tightly packed pixel bytes.
//!
//! The engine is a state machine: it decides, and the owner of the graphics
//! handles performs the work that each [`Action`] names and reports its
//! outcome as an [`Event`]. Transient loss of the device rebuilds the
//! session; the staging surface is reused while the requested size stays
//! the same.
use vstd::prelude::*;

pub mod engine;
pub mod region;
pub mod rows;

pub use engine::{Action, AfterRelease, DxgiCapture, Event, Phase, Purpose, Session};
pub use region::{
    candidate_format, classify_acquire_failure, AcquireFailure, CaptureError, PixelFormat, Region,
    ACCESS_LOST, DEVICE_REMOVED, DEVICE_RESET, FORMAT_CANDIDATES,
    SESSION_DISCONNECTED, WAIT_TIMEOUT,
};
pub use rows::pack_rows;
