//! Audio capture: request and report types, device selection, backends and the
//! platform-specific planning of per-application capture.
pub mod backend;
pub mod backends;
pub mod platform;
pub mod selection;

pub use backend::{
    ActiveAudioProcessInfo, AudioBackend, AudioError, BackendCapabilities, CaptureConfig,
    CaptureFormat, CaptureReport, CaptureRequest, CaptureScope, CaptureStream, CaptureTarget,
    CommandSpec, DeviceInfo, InputDeviceInfo, ProcessSelector,
};
pub use backends::{
    audio_backend_names, default_audio_backend, CpalBackend, CpalFfmpegBackend, CpalNativeBackend,
};
pub use selection::{loopback_score, select_input_device, SelectedInput};
