//! Screen (video) capture: request and report types, the native platform backend and
//! its registry.
pub mod backend;
pub mod native_platform;
pub mod platform;
pub mod registry;

pub use backend::{
    ActiveVisualProcessInfo, DisplayInfo, VideoBackend, VideoBackendCapabilities,
    VideoCaptureReport, VideoCaptureRequest, VideoError, VideoScope, VideoTarget,
    VisualProcessSelector,
};
pub use native_platform::NativePlatformVideoBackend;
pub use registry::{build_video_backend, default_video_backend, video_backends, VideoBackendDescriptor};
