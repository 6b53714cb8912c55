//! ffmpeg arguments that every platform's command line shares.
use vstd::prelude::*;

use crate::audio::backend::CaptureRequest;
use crate::text::{decimal, decimal_string, to_owned_string, views};

verus! {

/// The shared ffmpeg arguments for a request: `-ar <rate>` when a sample rate is given,
/// `-ac <channels>` when a channel count is given, `-t <seconds>` when a duration is
/// given, in that order.
pub open spec fn common_ffmpeg_args(request: CaptureRequest) -> Seq<Seq<char>> {
    (match request.sample_rate {
        Some(rate) => seq!["-ar"@, decimal(rate as nat)],
        None => Seq::empty(),
    }) + (match request.channels {
        Some(ch) => seq!["-ac"@, decimal(ch as nat)],
        None => Seq::empty(),
    }) + (match request.duration_secs {
        Some(d) => seq!["-t"@, decimal(d as nat)],
        None => Seq::empty(),
    })
}

/// Appends an option and its numeric value.
fn push_option(args: &mut Vec<String>, flag: &str, value: u64)
    ensures
        views(final(args)@) == views(old(args)@) + seq![flag@, decimal(value as nat)],
{
    let ghost before = args@;
    args.push(to_owned_string(flag));
    args.push(decimal_string(value));
    assert(views(args@) =~= views(before) + seq![flag@, decimal(value as nat)]);
}

/// Appends the arguments that every platform's ffmpeg command line shares.
pub fn append_common_ffmpeg_args(args: &mut Vec<String>, request: &CaptureRequest)
    ensures
        views(final(args)@) == views(old(args)@) + common_ffmpeg_args(*request),
{
    let ghost start = views(args@);
    if let Some(sample_rate) = request.sample_rate {
        push_option(args, "-ar", sample_rate as u64);
    }
    let ghost a1 = views(args@);
    if let Some(channels) = request.channels {
        push_option(args, "-ac", channels as u64);
    }
    let ghost a2 = views(args@);
    if let Some(duration) = request.duration_secs {
        push_option(args, "-t", duration as u64);
    }
    assert(views(args@) =~= start + common_ffmpeg_args(*request));
}

} // verus!
