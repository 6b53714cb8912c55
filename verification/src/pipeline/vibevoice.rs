//! The VibeVoice file recognition provider: the command it runs and how that command's
//! output becomes a transcript or an error.
use vstd::prelude::*;

use crate::audio::backend::CommandSpec;
use crate::text::{concat2, decode_utf8_lossy, trim, trim_ws, utf8_lossy, to_owned_string};

verus! {

/// Recognition by a local checkout of microsoft/VibeVoice, run with a Python interpreter.
pub struct VibeVoiceFileAsrProvider {
    pub python_bin: String,
    /// The checkout; the command runs in this directory.
    pub repo_dir: String,
    pub model_path: String,
}

/// How a finished process ended: whether its status was success, the status's text, and
/// what it wrote.
pub struct ProcessOutput {
    pub success: bool,
    pub status: String,
    pub stdout: Vec<u8>,
    pub stderr: Vec<u8>,
}

/// The transcript, or the error, that a run of the recognition command gives.
pub open spec fn transcription_of(spawned: Result<ProcessOutput, String>) -> Result<Seq<char>, Seq<char>> {
    match spawned {
        Err(e) => Err("failed to spawn VibeVoice ASR command: "@ + e@),
        Ok(out) => if !out.success {
            let stderr = trim_ws(utf8_lossy(out.stderr@));
            if stderr.len() == 0 {
                Err("VibeVoice ASR exited with status "@ + out.status@)
            } else {
                Err(stderr)
            }
        } else {
            let stdout = trim_ws(utf8_lossy(out.stdout@));
            if stdout.len() == 0 {
                Err("VibeVoice ASR returned empty output"@)
            } else {
                Ok(stdout)
            }
        },
    }
}

/// A run that succeeded gives its trimmed standard output as the transcript whenever
/// that is not empty, and an error only when it is; what the run wrote to standard error
/// and its status text play no part.
pub proof fn law_successful_run_gives_stdout(out: ProcessOutput)
    requires
        out.success,
    ensures
        trim_ws(utf8_lossy(out.stdout@)).len() > 0 ==> transcription_of(Ok(out)) == Ok::<Seq<char>, Seq<char>>(
            trim_ws(utf8_lossy(out.stdout@)),
        ),
        transcription_of(Ok(out)) is Ok <==> trim_ws(utf8_lossy(out.stdout@)).len() > 0,
{
}

/// Two successful runs that wrote the same standard output give the same result,
/// whatever each wrote to standard error.
pub proof fn law_transcription_ignores_stderr_on_success(a: ProcessOutput, b: ProcessOutput)
    requires
        a.success,
        b.success,
        a.stdout@ == b.stdout@,
    ensures
        transcription_of(Ok(a)) == transcription_of(Ok(b)),
{
}

/// A run that failed, or that could not start, never gives a transcript.
pub proof fn law_failed_run_gives_error(spawned: Result<ProcessOutput, String>)
    requires
        spawned matches Ok(out) ==> !out.success,
    ensures
        transcription_of(spawned) is Err,
{
}

impl VibeVoiceFileAsrProvider {
    /// The provider's engine name.
    pub fn name(&self) -> (r: &'static str)
        ensures
            r@ == "vibevoice-asr"@,
    {
        "vibevoice-asr"
    }

    /// The command that transcribes `input_audio`: the inference script of the checkout
    /// with the model and the audio file.
    pub fn command(&self, input_audio: &str) -> (r: CommandSpec)
        ensures
            r.program == self.python_bin,
            r.args@.len() == 5,
            r.args@[0]@ == "demo/vibevoice_asr_inference_from_file.py"@,
            r.args@[1]@ == "--model_path"@,
            r.args@[2]@ == self.model_path@,
            r.args@[3]@ == "--audio_files"@,
            r.args@[4]@ == input_audio@,
    {
        let mut args = Vec::new();
        args.push(to_owned_string("demo/vibevoice_asr_inference_from_file.py"));
        args.push(to_owned_string("--model_path"));
        args.push(self.model_path.clone());
        args.push(to_owned_string("--audio_files"));
        args.push(to_owned_string(input_audio));
        CommandSpec { program: self.python_bin.clone(), args }
    }

    /// The transcript a run gives: its trimmed standard output when it succeeded and
    /// wrote something; otherwise an error with the trimmed standard error, or the exit
    /// status when that is empty.
    pub fn transcription(spawned: Result<ProcessOutput, String>) -> (r: Result<String, String>)
        ensures
            match transcription_of(spawned) {
                Ok(t) => (r matches Ok(s) && s@ == t),
                Err(e) => (r matches Err(s) && s@ == e),
            },
    {
        match spawned {
            Err(e) => Err(concat2("failed to spawn VibeVoice ASR command: ", e.as_str())),
            Ok(out) => {
                if !out.success {
                    let decoded = decode_utf8_lossy(out.stderr.as_slice());
                    let stderr = trim(decoded.as_str());
                    if stderr.as_str().is_empty() {
                        Err(concat2("VibeVoice ASR exited with status ", out.status.as_str()))
                    } else {
                        Err(stderr)
                    }
                } else {
                    let decoded = decode_utf8_lossy(out.stdout.as_slice());
                    let stdout = trim(decoded.as_str());
                    if stdout.as_str().is_empty() {
                        Err(to_owned_string("VibeVoice ASR returned empty output"))
                    } else {
                        Ok(stdout)
                    }
                }
            },
        }
    }
}

} // verus!
