//! Verified core of a DRM/KMS display compositor backend.
//!
//! The library holds the decision logic of the presentation pipeline:
//! output discovery and plane claiming, the triple-buffered swapchain,
//! atomic-commit request building, the dma-buf import plan, and the
//! page-flip state machine.  All device effects (ioctls, GPU calls)
//! are performed by the surrounding application, which feeds their
//! results back into these verified functions as plain values.
pub mod commit;
pub mod config;
pub mod display;
pub mod error;
pub mod fourcc;
pub mod ident;
pub mod import;
pub mod present;
pub mod resolver;
pub mod swapchain;
pub mod util;

pub use commit::AtomicRequest;
pub use commit::CommitFlags;
pub use commit::PropValue;
pub use config::CompositorConfig;
pub use config::Config;
pub use display::CURSOR_DIM;
pub use display::Display;
pub use display::DrmCtx;
pub use display::LifecycleState;
pub use error::CompositorError;
pub use error::CompositorResult;
pub use fourcc::DRM_FORMAT;
pub use fourcc::FourCc;
pub use fourcc::PixelFormat;
pub use ident::output_identity;
pub use import::ImportPlan;
pub use present::DrmEvent;
pub use present::FlipRequest;
pub use present::PollResult;
pub use resolver::ConnectorSnapshot;
pub use resolver::ModeInfo;
pub use resolver::OutputPlan;
pub use resolver::PlaneKind;
pub use resolver::PlaneSnapshot;
pub use swapchain::buffer_usage_for_role;
pub use swapchain::BufferUsage;
pub use swapchain::FbHandle;
pub use swapchain::SwapSlot;
pub use swapchain::TripleBuffer;
pub use util::Direction;
pub use util::DisplayPosition;
