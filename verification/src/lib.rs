//! Core of a direct-to-display rendering pipeline: the presentation
//! scheduler that gates page flips on hardware completion events, the
//! buffer lifecycle bookkeeping for the swap chain, the display-mode
//! selection rule, and the per-frame animation schedule.
//!
//! Device access (DRM ioctls, GBM buffers, EGL/GL) lives outside this
//! library; the library makes every decision on plain values and is
//! verified.

pub mod animation;
pub mod buffers;
pub mod driver;
pub mod errors;
pub mod events;
pub mod modes;
pub mod scheduler;

pub use animation::{frame_angles, FrameAngles, MAX_ANIMATED_FRAME};
pub use buffers::BufferManager;
pub use driver::FramePipeline;
pub use errors::PipelineError;
pub use events::PresentationEvent;
pub use modes::{best_mode, first_usable_connector, ConnectorCandidate, DisplayMode};
pub use scheduler::{Scheduler, SchedulerState};
