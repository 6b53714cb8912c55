//! The `capture system` command: the request it builds and the command line it shows.
use vstd::prelude::*;

use crate::audio::backend::{CaptureFormat, CaptureRequest, CaptureScope, CaptureTarget, CommandSpec};
use crate::text::{join_strings, joined, push_str, to_owned_string, views};

verus! {

/// The request of a system capture: raw PCM on stdout when `stdout` is set, else the file
/// `out`, which is then required.
pub fn system_request(
    out: Option<String>,
    stdout: bool,
    seconds: Option<u32>,
    sample_rate: Option<u32>,
    channels: Option<u16>,
    format: CaptureFormat,
    ffmpeg_bin: String,
    input_device: Option<String>,
    prefer_loopback: bool,
) -> (r: Result<CaptureRequest, String>)
    ensures
        !stdout && out is None <==> (r matches Err(m) && m@
            == "--out is required when --stdout is not set"@),
        r matches Ok(req) ==> {
            &&& req.scope is System
            &&& if stdout {
                req.target is StdoutPcm
            } else {
                out matches Some(p) && req.target == CaptureTarget::File(p)
            }
            &&& req.duration_secs == seconds
            &&& req.sample_rate == sample_rate
            &&& req.channels == channels
            &&& req.format == format
            &&& req.ffmpeg_bin == ffmpeg_bin
            &&& req.input_device_hint == input_device
            &&& req.prefer_loopback == prefer_loopback
        },
{
    let target = if stdout {
        CaptureTarget::StdoutPcm
    } else {
        match out {
            Some(path) => CaptureTarget::File(path),
            None => {
                return Err(to_owned_string("--out is required when --stdout is not set"));
            },
        }
    };
    Ok(
        CaptureRequest {
            scope: CaptureScope::System,
            target,
            duration_secs: seconds,
            sample_rate,
            channels,
            format,
            input_device_hint: input_device,
            prefer_loopback,
            ffmpeg_bin,
        },
    )
}

/// The line that shows a command before it runs: the program, then each argument, all
/// separated by spaces.
pub fn command_line(spec: &CommandSpec) -> (r: String)
    ensures
        r@ == spec.program@ + " "@ + joined(views(spec.args@), " "@),
{
    let mut r = spec.program.clone();
    push_str(&mut r, " ");
    let args = join_strings(&spec.args, " ");
    push_str(&mut r, args.as_str());
    r
}

} // verus!
