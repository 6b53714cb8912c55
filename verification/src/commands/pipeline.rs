//! The `pipeline` commands: the name of a temporary capture file and the context of a
//! recognition failure.
use vstd::prelude::*;

use crate::text::{concat3, decimal, push_decimal, push_str, to_owned_string};

verus! {

/// The file name of a temporary capture made at `ms` milliseconds since the Unix epoch.
pub fn temp_capture_file_name(ms: u64) -> (r: String)
    ensures
        r@ == "lyricwave-capture-"@ + decimal(ms as nat) + ".wav"@,
{
    let mut r = to_owned_string("lyricwave-capture-");
    push_decimal(&mut r, ms);
    push_str(&mut r, ".wav");
    r
}

/// The context given to a recognition error: `<engine> failed for <file>`.
pub fn recognition_failure_context(engine_name: &str, audio_path: &str) -> (r: String)
    ensures
        r@ == engine_name@ + " failed for "@ + audio_path@,
{
    concat3(engine_name, " failed for ", audio_path)
}

} // verus!
