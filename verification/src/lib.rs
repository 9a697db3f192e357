//! Window discovery, placement, style and capture logic, kept apart from the
//! operating system calls that feed it: every function here works on plain
//! values (handles as integers, rectangles, byte buffers) and carries a
//! contract that is proved.

pub mod capture;
pub mod capture_plan;
pub mod window_controller;
pub mod window_image;
pub mod window_style;

pub use capture::{
    CaptureBackend, CaptureError, CaptureLayout, Point, ReadbackFormat, Rect, WindowGeometry,
};
pub use capture_plan::{CaptureAction, CapturePhase, CapturePlan, CaptureResource};
pub use window_controller::{
    EnumerationSession, ProcessError, ProcessQuery, WindowController, WindowSnapshot,
};
pub use window_image::WindowImage;
pub use window_style::{WindowStyle, ZOrder};
