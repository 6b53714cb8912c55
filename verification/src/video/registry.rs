//! The catalog of video backends and construction by identifier.
use vstd::prelude::*;

use crate::os::TargetOs;
use crate::text::{concat2, str_eq};
use crate::video::native_platform::NativePlatformVideoBackend;

verus! {

/// A video backend in the catalog.
pub struct VideoBackendDescriptor {
    pub id: &'static str,
    pub note: &'static str,
}

/// The backend used when none is named: the native one.
pub fn default_video_backend(os: TargetOs) -> (r: NativePlatformVideoBackend)
    ensures
        r.os == os,
{
    NativePlatformVideoBackend::new(os)
}

/// Builds the backend with identifier `backend_id`; `platform-native` is the only one.
pub fn build_video_backend(backend_id: &str, os: TargetOs) -> (r: Result<NativePlatformVideoBackend, String>)
    ensures
        backend_id@ == "platform-native"@ ==> (r matches Ok(b) && b.os == os),
        backend_id@ != "platform-native"@ ==> (r matches Err(msg) && msg@
            == "unknown video backend: "@ + backend_id@),
{
    if str_eq(backend_id, "platform-native") {
        Ok(NativePlatformVideoBackend::new(os))
    } else {
        Err(concat2("unknown video backend: ", backend_id))
    }
}

/// The catalog: the native platform backend.
pub fn video_backends() -> (r: Vec<VideoBackendDescriptor>)
    ensures
        r@.len() == 1,
        r@[0].id@ == "platform-native"@,
        r@[0].note@
            == "Native platform video backend scaffold (screen capture implementation in progress)"@,
{
    let mut v = Vec::new();
    v.push(
        VideoBackendDescriptor {
            id: "platform-native",
            note: "Native platform video backend scaffold (screen capture implementation in progress)",
        },
    );
    v
}

} // verus!
