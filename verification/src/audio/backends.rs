//! The audio backends built on CPAL device enumeration, the output-device listing they
//! share, and the backend registry.
use vstd::prelude::*;

use crate::audio::backend::{
    AudioBackend, AudioError, BackendCapabilities, CaptureConfig, CaptureFormat, CaptureReport,
    CaptureRequest, CaptureStream, CaptureTarget, CommandSpec, DeviceInfo, InputDeviceInfo,
};
use crate::audio::platform;
use crate::audio::platform::common::{append_common_ffmpeg_args, common_ffmpeg_args};
use crate::os::TargetOs;
use crate::text::{
    contains_seq, decimal, lowercase, push_decimal, str_contains, str_eq, to_lower, to_owned_string,
    views,
};

verus! {

// ---------------------------------------------------------------------------
// Output devices.
// ---------------------------------------------------------------------------

/// The listing of output device number `idx` whose name is `name` (when it could be
/// read): id `cpal-output-<idx>`, the name or `unknown-device-<idx>`, and whether that
/// name is the default output device's name.
pub open spec fn device_entry(idx: nat, name: Option<Seq<char>>, default_name: Seq<char>) -> (Seq<char>, Seq<char>, bool) {
    let shown = match name {
        Some(n) => n,
        None => "unknown-device-"@ + decimal(idx),
    };
    ("cpal-output-"@ + decimal(idx), shown, shown == default_name)
}

/// Output devices at different positions get different ids; a device whose name was
/// read is listed under that name, and it is the default output exactly when that name is
/// the default device's name.
pub proof fn law_device_entries_distinct_ids(i: nat, j: nat, a: Option<Seq<char>>, b: Option<Seq<char>>, default_name: Seq<char>)
    ensures
        i != j ==> device_entry(i, a, default_name).0 != device_entry(j, b, default_name).0,
        a matches Some(n) ==> device_entry(i, a, default_name).1 == n && (device_entry(i, a, default_name).2
            <==> n == default_name),
{
    let p = "cpal-output-"@;
    if i != j && device_entry(i, a, default_name).0 == device_entry(j, b, default_name).0 {
        let x = p + decimal(i);
        let y = p + decimal(j);
        assert(x.subrange(p.len() as int, x.len() as int) =~= decimal(i));
        assert(y.subrange(p.len() as int, y.len() as int) =~= decimal(j));
        crate::text::lemma_decimal_injective(i, j);
    }
}

/// A device listing as `(id, name, is_default_output)`.
pub open spec fn device_view(d: DeviceInfo) -> (Seq<char>, Seq<char>, bool) {
    (d.id@, d.name@, d.is_default_output)
}

/// Lists output devices from the names CPAL gave, in its order; `default_name` is the
/// default output device's name, or empty when there is none or it cannot be read.
pub fn output_devices_from_names(default_name: &str, names: &Vec<Option<String>>) -> (r: Vec<DeviceInfo>)
    requires
        names@.len() <= u64::MAX,
    ensures
        r@.len() == names@.len(),
        forall|i: int| 0 <= i < names@.len() ==> device_view(#[trigger] r@[i]) == device_entry(
            i as nat,
            match names@[i] {
                Some(n) => Some(n@),
                None => None,
            },
            default_name@,
        ),
{
    let mut out: Vec<DeviceInfo> = Vec::new();
    let mut i: usize = 0;
    while i < names.len()
        invariant
            i <= names@.len(),
            names@.len() <= u64::MAX,
            out@.len() == i,
            forall|j: int| 0 <= j < i ==> device_view(#[trigger] out@[j]) == device_entry(
                j as nat,
                match names@[j] {
                    Some(n) => Some(n@),
                    None => None,
                },
                default_name@,
            ),
        decreases names.len() - i,
    {
        let name = match &names[i] {
            Some(n) => n.clone(),
            None => {
                let mut n = to_owned_string("unknown-device-");
                push_decimal(&mut n, i as u64);
                n
            },
        };
        let mut id = to_owned_string("cpal-output-");
        push_decimal(&mut id, i as u64);
        let is_default = str_eq(name.as_str(), default_name);
        out.push(DeviceInfo { id, name, is_default_output: is_default });
        i = i + 1;
    }
    out
}

// ---------------------------------------------------------------------------
// Backends.
// ---------------------------------------------------------------------------

/// The capabilities of the CPAL-based backends on `os`: system loopback capture, no
/// per-application capture, the platform's note.
pub open spec fn cpal_capabilities(os: TargetOs, r: BackendCapabilities) -> bool {
    &&& r.system_loopback_capture
    &&& !r.per_app_capture
    &&& r.note@ == platform::capability_note_for(os)
}

/// The backend that captures by running ffmpeg, using CPAL to list devices.
pub struct CpalFfmpegBackend {
    pub os: TargetOs,
}

impl CpalFfmpegBackend {
    /// The ffmpeg backend for `os`.
    pub fn new(os: TargetOs) -> (r: Self)
        ensures
            r.os == os,
    {
        CpalFfmpegBackend { os }
    }

    /// What the backend can capture on its operating system.
    pub fn capabilities(&self) -> (r: BackendCapabilities)
        ensures
            cpal_capabilities(self.os, r),
    {
        BackendCapabilities {
            system_loopback_capture: true,
            per_app_capture: false,
            note: platform::capability_note(self.os),
        }
    }

    /// The ffmpeg command line for a request: quiet, overwriting options; the platform's
    /// input arguments; the shared rate, channel and duration options; then the output,
    /// a file in the request's format or raw 16-bit PCM on stdout.
    pub fn build_capture_command(&self, request: &CaptureRequest, input_args: &Vec<String>) -> (r: Result<CommandSpec, AudioError>)
        ensures
            r matches Ok(spec) && spec.program == request.ffmpeg_bin && views(spec.args@) == seq![
                "-hide_banner"@,
                "-loglevel"@,
                "warning"@,
                "-y"@,
            ] + views(input_args@) + common_ffmpeg_args(*request) + match request.target {
                CaptureTarget::File(path) => seq!["-f"@, request.format.ffmpeg_name_spec(), path@],
                CaptureTarget::StdoutPcm => seq!["-f"@, "s16le"@, "-"@],
            },
    {
        let mut args: Vec<String> = Vec::new();
        args.push(to_owned_string("-hide_banner"));
        args.push(to_owned_string("-loglevel"));
        args.push(to_owned_string("warning"));
        args.push(to_owned_string("-y"));
        let mut i: usize = 0;
        let ghost head = views(args@);
        while i < input_args.len()
            invariant
                i <= input_args@.len(),
                views(args@) == head + views(input_args@).take(i as int),
            decreases input_args.len() - i,
        {
            let ghost before = views(args@);
            args.push(input_args[i].clone());
            assert(views(input_args@).take(i + 1) =~= views(input_args@).take(i as int).push(input_args@[i as int]@));
            assert(views(args@) =~= before.push(input_args@[i as int]@));
            i = i + 1;
        }
        assert(views(input_args@).take(input_args@.len() as int) =~= views(input_args@));
        append_common_ffmpeg_args(&mut args, request);
        let ghost before_target = views(args@);
        match &request.target {
            CaptureTarget::File(path) => {
                args.push(to_owned_string("-f"));
                args.push(to_owned_string(request.format.ffmpeg_name()));
                args.push(path.clone());
                assert(views(args@) =~= before_target + seq!["-f"@, request.format.ffmpeg_name_spec(), path@]);
            },
            CaptureTarget::StdoutPcm => {
                args.push(to_owned_string("-f"));
                args.push(to_owned_string("s16le"));
                args.push(to_owned_string("-"));
                assert(views(args@) =~= before_target + seq!["-f"@, "s16le"@, "-"@]);
            },
        }
        Ok(CommandSpec { program: request.ffmpeg_bin.clone(), args })
    }
}

impl AudioBackend for CpalFfmpegBackend {
    fn backend_name(&self) -> (r: &'static str)
        ensures
            r@ == "cpal+ffmpeg"@,
    {
        "cpal+ffmpeg"
    }
}

/// The device name was read and, lowercased, contains the query.
pub open spec fn hinted_name(name: Option<String>, query: Seq<char>) -> bool {
    name matches Some(n) && contains_seq(lowercase(n@), query)
}

/// The backend that captures through a CPAL input stream.
pub struct CpalNativeBackend {
    pub os: TargetOs,
}

impl CpalNativeBackend {
    /// The native CPAL backend for `os`.
    pub fn new(os: TargetOs) -> (r: Self)
        ensures
            r.os == os,
    {
        CpalNativeBackend { os }
    }

    /// What the backend can capture on its operating system.
    pub fn capabilities(&self) -> (r: BackendCapabilities)
        ensures
            cpal_capabilities(self.os, r),
    {
        BackendCapabilities {
            system_loopback_capture: true,
            per_app_capture: false,
            note: platform::capability_note(self.os),
        }
    }

    /// The input device a capture uses when the request hints at one: the first device
    /// (by index in `names`, the names CPAL could read) whose lowercase name contains the
    /// lowercase hint; `None` means the default input device is used.
    pub fn hinted_input(names: &Vec<Option<String>>, hint: Option<&str>) -> (r: Option<usize>)
        ensures
            match hint {
                None => r is None,
                Some(h) => match r {
                    Some(k) => k < names@.len() && hinted_name(names@[k as int], lowercase(h@))
                        && forall|j: int| 0 <= j < k ==> !hinted_name(#[trigger] names@[j], lowercase(h@)),
                    None => forall|j: int| 0 <= j < names@.len() ==> !hinted_name(#[trigger] names@[j], lowercase(h@)),
                },
            },
    {
        match hint {
            None => None,
            Some(h) => {
                let query = to_lower(h);
                let mut i: usize = 0;
                while i < names.len()
                    invariant
                        i <= names@.len(),
                        hint == Some(h),
                        query@ == lowercase(h@),
                        forall|j: int| 0 <= j < i ==> !hinted_name(#[trigger] names@[j], query@),
                    decreases names.len() - i,
                {
                    match &names[i] {
                        Some(n) => {
                            let lower = to_lower(n.as_str());
                            if str_contains(lower.as_str(), query.as_str()) {
                                return Some(i);
                            }
                        },
                        None => {},
                    }
                    i = i + 1;
                }
                None
            },
        }
    }

    /// Checks that captured samples can be written where the request says: a file target
    /// takes WAV only.
    pub fn check_output(request: &CaptureRequest) -> (r: Result<(), AudioError>)
        ensures
            request.target is File && request.format != CaptureFormat::Wav <==> (r matches Err(
                AudioError::Message(m),
            ) && m@ == "native backend currently supports file output in WAV format only"@),
            r is Err ==> request.target is File && request.format != CaptureFormat::Wav,
    {
        match &request.target {
            CaptureTarget::File(_) => {
                if request.format != CaptureFormat::Wav {
                    return Err(
                        AudioError::Message(
                            to_owned_string(
                                "native backend currently supports file output in WAV format only",
                            ),
                        ),
                    );
                }
                Ok(())
            },
            CaptureTarget::StdoutPcm => Ok(()),
        }
    }

    /// The report of a finished capture, refused when nothing was captured.
    pub fn capture_report(
        sample_count: usize,
        sample_rate: u32,
        channels: u16,
        started_at_ms: u64,
        ended_at_ms: u64,
        device: InputDeviceInfo,
        reason: String,
    ) -> (r: Result<CaptureReport, AudioError>)
        ensures
            sample_count == 0 <==> (r matches Err(AudioError::Message(m)) && m@
                == "captured audio is empty; check input routing or loopback device"@),
            r matches Ok(rep) ==> rep.captured_samples == sample_count && rep.sample_rate
                == sample_rate && rep.channels == channels && rep.started_at_ms == started_at_ms
                && rep.ended_at_ms == ended_at_ms && rep.selected_input_device == device
                && rep.selection_reason == reason && rep.matched_processes@.len() == 0,
    {
        if sample_count == 0 {
            return Err(
                AudioError::Message(
                    to_owned_string("captured audio is empty; check input routing or loopback device"),
                ),
            );
        }
        Ok(
            CaptureReport {
                captured_samples: sample_count,
                sample_rate,
                channels,
                started_at_ms,
                ended_at_ms,
                selected_input_device: device,
                selection_reason: reason,
                matched_processes: Vec::new(),
            },
        )
    }

    /// The capture length when the request gives none: five seconds.
    pub fn capture_duration_secs(request: &CaptureRequest) -> (r: u32)
        ensures
            r == match request.duration_secs {
                Some(d) => d,
                None => 5,
            },
    {
        match request.duration_secs {
            Some(d) => d,
            None => 5,
        }
    }
}

impl AudioBackend for CpalNativeBackend {
    fn backend_name(&self) -> (r: &'static str)
        ensures
            r@ == "cpal-native"@,
    {
        "cpal-native"
    }
}

/// The first backend: CPAL device enumeration, without capture.
pub struct CpalBackend;

impl CpalBackend {
    /// The backend.
    pub fn new() -> (r: Self)
        ensures
            r == CpalBackend,
    {
        CpalBackend
    }
}

impl AudioBackend for CpalBackend {
    fn backend_name(&self) -> (r: &'static str)
        ensures
            r@ == "cpal"@,
    {
        "cpal"
    }

    fn start_system_capture(&self, config: CaptureConfig) -> (r: Result<CaptureStream, AudioError>)
        ensures
            r matches Err(AudioError::NotImplemented { feature }) && feature@ == "system loopback capture"@,
    {
        Err(AudioError::NotImplemented { feature: "system loopback capture" })
    }
}

// ---------------------------------------------------------------------------
// Registry.
// ---------------------------------------------------------------------------

/// The backend used when none is named: the ffmpeg one.
pub fn default_audio_backend(os: TargetOs) -> (r: CpalFfmpegBackend)
    ensures
        r.os == os,
{
    CpalFfmpegBackend::new(os)
}

/// The identifiers of the registered audio backends.
pub fn audio_backend_names() -> (r: Vec<&'static str>)
    ensures
        r@.len() == 1,
        r@[0]@ == "cpal+ffmpeg"@,
{
    let mut v: Vec<&'static str> = Vec::new();
    v.push("cpal+ffmpeg");
    v
}

} // verus!
