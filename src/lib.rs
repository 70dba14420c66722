//! Core of a local remote-desktop bridge: the capture-session state machine,
//! the per-frame encoding pipeline, frame pacing, monitor description and the
//! translation of abstract input events into injection actions.

pub mod frame;
pub mod input;
pub mod monitors;
pub mod pacing;
pub mod sampling;
pub mod session;

pub use frame::{drop_alpha, encode_frame, package_jpeg, FrameError, FrameSettings, RawFrame};
pub use input::{dispatch_input, InputAction, InputEvent, MouseButton};
pub use monitors::{describe_monitors, DisplayFacts, MonitorInfo};
pub use pacing::pause_after;
pub use sampling::{SamplingLoop, TickOutcome};
pub use session::{CaptureError, CaptureSession, SessionRequest};
