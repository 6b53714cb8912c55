//! Per-application capture on Linux with PulseAudio/PipeWire (`pactl` and `parecord`).
//!
//! The capture moves the matched sink inputs to a temporary null sink, records that sink's
//! monitor, moves the inputs back and unloads the sink. The commands are run by the caller;
//! `LinuxCaptureSession` decides, from what each command gave, which command comes next.
use vstd::prelude::*;

use crate::audio::backend::{
    process_request_rejection, AudioError, CaptureFormat, CaptureReport, CaptureRequest, CaptureScope, CaptureTarget,
    InputDeviceInfo, ProcessSelector,
};
use crate::audio::selection::{push_signed_decimal, signed_decimal};
use crate::text::{
    concat2, concat3, contains_seq, decimal, decimal_string, join_strings, joined, lowercase,
    parse_u32, parsed_u32, push_decimal, push_str, str_contains, string_from_utf8, to_lower,
    to_owned_string, trim, trim_ws, utf8_error_text, views,
};

verus! {

/// The note that describes audio capture on Linux.
pub open spec fn capability_note_text() -> Seq<char> {
    "Linux native capture uses CPAL input stream for system capture; per-app capture is available with PulseAudio/PipeWire via pactl+parecord."@
}

/// Describes audio capture on Linux.
pub fn capability_note() -> (r: &'static str)
    ensures
        r@ == capability_note_text(),
{
    "Linux native capture uses CPAL input stream for system capture; per-app capture is available with PulseAudio/PipeWire via pactl+parecord."
}

/// Per-application capture is offered on Linux.
pub fn supports_per_app_capture() -> (r: bool)
    ensures
        r,
{
    true
}

// ---------------------------------------------------------------------------
// Sink inputs.
// ---------------------------------------------------------------------------

/// A stream that plays into a sink: its index, the pid of the process behind it (0 when
/// unknown) and the application's name.
pub struct SinkInput {
    pub index: u32,
    pub pid: u32,
    pub name: String,
}

impl SinkInput {
    /// A copy with the same fields.
    pub fn duplicate(&self) -> (r: Self)
        ensures
            r == *self,
    {
        SinkInput { index: self.index, pid: self.pid, name: self.name.clone() }
    }
}

/// The fields of one entry of `pactl -f json list sink-inputs` that capture reads:
/// `index` when it is an unsigned integer, and the string properties
/// `application.process.id`, `application.name` and `media.name`.
pub struct SinkInputRecord {
    pub index: Option<u64>,
    pub process_id: Option<String>,
    pub application_name: Option<String>,
    pub media_name: Option<String>,
}

/// What the JSON text of `pactl -f json list sink-inputs` holds.
pub enum PactlSinkInputs {
    /// The text is not JSON; the parser's message.
    Invalid(String),
    /// The text is JSON, but not an array.
    NotArray,
    /// The entries of the array, in order.
    Entries(Vec<SinkInputRecord>),
}

/// What serde_json reads from the bytes of a sink-input listing.
pub uninterp spec fn pactl_sink_inputs(bytes: Seq<u8>) -> PactlSinkInputs;

/// Parses a sink-input listing with `serde_json::from_slice::<serde_json::Value>` and
/// reads each array entry's fields with `Value::get`, `Value::as_u64` and `Value::as_str`.
/// Claimed: the result depends on the bytes alone.
#[verifier::external_body]
fn parse_pactl_sink_inputs(bytes: &[u8]) -> (r: PactlSinkInputs)
    ensures
        r == pactl_sink_inputs(bytes@),
{
    let parsed: serde_json::Value = match serde_json::from_slice(bytes) {
        Ok(v) => v,
        Err(e) => return PactlSinkInputs::Invalid(e.to_string()),
    };
    let Some(items) = parsed.as_array() else { return PactlSinkInputs::NotArray };
    let text = |item: &serde_json::Value, key: &str| {
        item.get("properties").and_then(|p| p.get(key)).and_then(|v| v.as_str()).map(|s| s.to_string())
    };
    PactlSinkInputs::Entries(items.iter().map(|item| SinkInputRecord {
        index: item.get("index").and_then(|v| v.as_u64()),
        process_id: text(item, "application.process.id"),
        application_name: text(item, "application.name"),
        media_name: text(item, "media.name"),
    }).collect())
}

/// The sink input an entry stands for, as `(index, pid, name)`: none without an index;
/// the index cut to 32 bits; the pid parsed from `application.process.id`, or 0; the name
/// from `application.name`, else `media.name`, else `unknown`.
pub open spec fn sink_input_of(rec: SinkInputRecord) -> Option<(u32, u32, Seq<char>)> {
    match rec.index {
        None => None,
        Some(idx) => Some(
            (
                idx as u32,
                match rec.process_id {
                    Some(p) => match parsed_u32(p@) {
                        Some(v) => v,
                        None => 0,
                    },
                    None => 0,
                },
                match rec.application_name {
                    Some(n) => n@,
                    None => match rec.media_name {
                        Some(n) => n@,
                        None => "unknown"@,
                    },
                },
            ),
        ),
    }
}

/// The sink inputs of all entries, in order.
pub open spec fn sink_inputs_of(recs: Seq<SinkInputRecord>) -> Seq<(u32, u32, Seq<char>)>
    decreases recs.len(),
{
    if recs.len() == 0 {
        Seq::empty()
    } else {
        match sink_input_of(recs.last()) {
            Some(t) => sink_inputs_of(recs.drop_last()).push(t),
            None => sink_inputs_of(recs.drop_last()),
        }
    }
}

/// Listing keeps the order of the entries: the sink inputs of two runs of entries, one
/// after the other, are those of the first run, then those of the second.
pub proof fn law_sink_inputs_keep_order(a: Seq<SinkInputRecord>, b: Seq<SinkInputRecord>)
    ensures
        sink_inputs_of(a + b) == sink_inputs_of(a) + sink_inputs_of(b),
    decreases b.len(),
{
    if b.len() == 0 {
        assert(a + b =~= a);
        assert(sink_inputs_of(a) + Seq::<(u32, u32, Seq<char>)>::empty() =~= sink_inputs_of(a));
    } else {
        let p = b.drop_last();
        law_sink_inputs_keep_order(a, p);
        assert((a + b).drop_last() =~= a + p);
        assert((a + b).last() == b.last());
        if let Some(t) = sink_input_of(b.last()) {
            assert((sink_inputs_of(a) + sink_inputs_of(p)).push(t) =~= sink_inputs_of(a) + sink_inputs_of(p).push(t));
        }
    }
}

/// A sink input as `(index, pid, name)`.
pub open spec fn sink_view(s: SinkInput) -> (u32, u32, Seq<char>) {
    (s.index, s.pid, s.name@)
}

/// The sink inputs a listing gives, or the error for an unusable listing.
pub open spec fn listed_sink_inputs(parsed: PactlSinkInputs, r: Result<Vec<SinkInput>, AudioError>) -> bool {
    match parsed {
        PactlSinkInputs::Invalid(msg) => r matches Err(AudioError::Message(m)) && m@
            == "invalid pactl sink-input json: "@ + msg@,
        PactlSinkInputs::NotArray => r matches Err(AudioError::Message(m)) && m@
            == "unexpected pactl sink-input json shape"@,
        PactlSinkInputs::Entries(recs) => r matches Ok(v) && v@.map_values(|s: SinkInput| sink_view(s))
            == sink_inputs_of(recs@),
    }
}

/// How many of the first `n` entries have an index.
pub open spec fn indexed_entries(recs: Seq<SinkInputRecord>, n: int) -> nat
    decreases n,
{
    if n <= 0 {
        0
    } else {
        indexed_entries(recs, n - 1) + if recs[n - 1].index is Some { 1nat } else { 0 }
    }
}

proof fn lemma_sink_inputs_prefix(recs: Seq<SinkInputRecord>, n: int)
    requires
        0 <= n <= recs.len(),
    ensures
        sink_inputs_of(recs.take(n)).len() == indexed_entries(recs, n),
        sink_inputs_of(recs.take(n)).len() <= sink_inputs_of(recs).len(),
        sink_inputs_of(recs).subrange(0, sink_inputs_of(recs.take(n)).len() as int) == sink_inputs_of(
            recs.take(n),
        ),
    decreases recs.len(),
{
    if n == recs.len() {
        assert(recs.take(n) =~= recs);
        assert(sink_inputs_of(recs).subrange(0, sink_inputs_of(recs).len() as int) =~= sink_inputs_of(recs));
        if n > 0 {
            lemma_sink_inputs_prefix(recs.drop_last(), n - 1);
            assert(recs.drop_last().take(n - 1) =~= recs.drop_last());
            lemma_indexed_entries_prefix(recs, recs.drop_last(), n - 1);
        }
    } else {
        let p = recs.drop_last();
        lemma_sink_inputs_prefix(p, n);
        assert(p.take(n) =~= recs.take(n));
        lemma_indexed_entries_prefix(recs, p, n);
        let full = sink_inputs_of(recs);
        let part = sink_inputs_of(p);
        let k = sink_inputs_of(recs.take(n)).len() as int;
        assert(full.subrange(0, k) =~= part.subrange(0, k));
    }
}

proof fn lemma_indexed_entries_prefix(recs: Seq<SinkInputRecord>, p: Seq<SinkInputRecord>, n: int)
    requires
        0 <= n <= p.len() <= recs.len(),
        forall|i: int| 0 <= i < p.len() ==> p[i] == recs[i],
    ensures
        indexed_entries(recs, n) == indexed_entries(p, n),
    decreases n,
{
    if n > 0 {
        lemma_indexed_entries_prefix(recs, p, n - 1);
    }
}

/// Every entry with an index is listed, in the order of the entries: the entry at `i`
/// gives the sink input at the position that counts the indexed entries before it. Its
/// index is the entry's index cut to 32 bits; its pid is `application.process.id` read as
/// a number, or 0; its name is `application.name` when the entry has one, whatever
/// `media.name` holds, then `media.name`, then `unknown`. Entries without an index are
/// left out, so the listing holds as many inputs as there are indexed entries.
pub proof fn law_listed_sink_input_fields(recs: Seq<SinkInputRecord>, i: int)
    requires
        0 <= i < recs.len(),
        recs[i].index is Some,
    ensures
        sink_inputs_of(recs).len() == indexed_entries(recs, recs.len() as int),
        indexed_entries(recs, i) < sink_inputs_of(recs).len(),
        sink_inputs_of(recs)[indexed_entries(recs, i) as int].0 == recs[i].index->0 as u32,
        recs[i].process_id matches Some(p) ==> (parsed_u32(p@) matches Some(v) ==> sink_inputs_of(
            recs,
        )[indexed_entries(recs, i) as int].1 == v),
        (recs[i].process_id matches Some(p) ==> parsed_u32(p@) is None) ==> sink_inputs_of(
            recs,
        )[indexed_entries(recs, i) as int].1 == 0,
        recs[i].application_name matches Some(a) ==> sink_inputs_of(recs)[indexed_entries(recs, i) as int].2
            == a@,
        recs[i].application_name is None ==> (recs[i].media_name matches Some(m) ==> sink_inputs_of(
            recs,
        )[indexed_entries(recs, i) as int].2 == m@),
        recs[i].application_name is None && recs[i].media_name is None ==> sink_inputs_of(
            recs,
        )[indexed_entries(recs, i) as int].2 == "unknown"@,
{
    lemma_sink_inputs_prefix(recs, recs.len() as int);
    assert(recs.take(recs.len() as int) =~= recs);
    lemma_sink_inputs_prefix(recs, i);
    lemma_sink_inputs_prefix(recs, i + 1);
    let t = recs.take(i + 1);
    assert(t.drop_last() =~= recs.take(i));
    assert(t.last() == recs[i]);
    let k = indexed_entries(recs, i) as int;
    let full = sink_inputs_of(recs);
    assert(full.subrange(0, k + 1)[k] == full[k]);
    assert(full[k] == sink_input_of(recs[i])->0);
}

/// Turns a parsed sink-input listing into sink inputs.
pub fn sink_inputs_from_listing(parsed: PactlSinkInputs) -> (r: Result<Vec<SinkInput>, AudioError>)
    ensures
        listed_sink_inputs(parsed, r),
{
    match parsed {
        PactlSinkInputs::Invalid(msg) => Err(AudioError::Message(concat2("invalid pactl sink-input json: ", msg.as_str()))),
        PactlSinkInputs::NotArray => Err(AudioError::Message(to_owned_string("unexpected pactl sink-input json shape"))),
        PactlSinkInputs::Entries(recs) => {
            let mut out: Vec<SinkInput> = Vec::new();
            let mut i: usize = 0;
            while i < recs.len()
                invariant
                    i <= recs@.len(),
                    out@.map_values(|s: SinkInput| sink_view(s)) == sink_inputs_of(recs@.take(i as int)),
                decreases recs.len() - i,
            {
                let ghost t = recs@.take(i + 1);
                assert(t.drop_last() =~= recs@.take(i as int));
                let rec = &recs[i];
                if let Some(idx) = rec.index {
                    let pid = match &rec.process_id {
                        Some(p) => match parse_u32(p.as_str()) {
                            Some(v) => v,
                            None => 0,
                        },
                        None => 0,
                    };
                    let name = match &rec.application_name {
                        Some(n) => n.clone(),
                        None => match &rec.media_name {
                            Some(n) => n.clone(),
                            None => to_owned_string("unknown"),
                        },
                    };
                    let ghost before = out@;
                    #[verifier::truncate]
                    let index = idx as u32;
                    out.push(SinkInput { index, pid, name });
                    assert(out@.map_values(|s: SinkInput| sink_view(s)) =~= before.map_values(
                        |s: SinkInput| sink_view(s),
                    ).push(sink_input_of(*rec)->0));
                }
                i = i + 1;
            }
            assert(recs@.take(recs@.len() as int) =~= recs@);
            Ok(out)
        },
    }
}

/// Reads the sink inputs from the bytes that `pactl -f json list sink-inputs` printed.
pub fn list_sink_inputs_from_output(bytes: &[u8]) -> (r: Result<Vec<SinkInput>, AudioError>)
    ensures
        listed_sink_inputs(pactl_sink_inputs(bytes@), r),
{
    sink_inputs_from_listing(parse_pactl_sink_inputs(bytes))
}

/// The input is picked by the selector: by pid, or by its name containing the query
/// (ignoring case).
pub open spec fn selector_picks(input: SinkInput, sel: ProcessSelector) -> bool {
    match sel {
        ProcessSelector::Pid(p) => input.pid == p,
        ProcessSelector::NameContains(n) => contains_seq(lowercase(input.name@), lowercase(n@)),
    }
}

/// Some selector picks the input.
pub open spec fn picked(input: SinkInput, sels: Seq<ProcessSelector>) -> bool {
    exists|i: int| 0 <= i < sels.len() && selector_picks(input, #[trigger] sels[i])
}

/// The inputs that some selector picks, in order.
pub open spec fn matched_inputs(inputs: Seq<SinkInput>, sels: Seq<ProcessSelector>) -> Seq<SinkInput>
    decreases inputs.len(),
{
    if inputs.len() == 0 {
        Seq::empty()
    } else if picked(inputs.last(), sels) {
        matched_inputs(inputs.drop_last(), sels).push(inputs.last())
    } else {
        matched_inputs(inputs.drop_last(), sels)
    }
}

proof fn lemma_matched_inputs(inputs: Seq<SinkInput>, sels: Seq<ProcessSelector>)
    ensures
        matched_inputs(inputs, sels).len() <= inputs.len(),
        forall|i: int| 0 <= i < inputs.len() && picked(#[trigger] inputs[i], sels) ==> matched_inputs(
            inputs,
            sels,
        ).contains(inputs[i]),
        forall|x: SinkInput| #[trigger] matched_inputs(inputs, sels).contains(x) ==> inputs.contains(x) && picked(
            x,
            sels,
        ),
    decreases inputs.len(),
{
    if inputs.len() > 0 {
        let p = inputs.drop_last();
        lemma_matched_inputs(p, sels);
        let m = matched_inputs(inputs, sels);
        let mp = matched_inputs(p, sels);
        assert forall|i: int| 0 <= i < inputs.len() && picked(#[trigger] inputs[i], sels) implies m.contains(
            inputs[i],
        ) by {
            if i < p.len() {
                assert(p[i] == inputs[i]);
                let k = choose|k: int| 0 <= k < mp.len() && mp[k] == p[i];
                if picked(inputs.last(), sels) {
                    assert(m[k] == mp[k]);
                }
            } else {
                assert(m[m.len() - 1] == inputs.last());
            }
        }
        assert forall|x: SinkInput| #[trigger] m.contains(x) implies inputs.contains(x) && picked(x, sels) by {
            let k = choose|k: int| 0 <= k < m.len() && m[k] == x;
            if k < mp.len() {
                if picked(inputs.last(), sels) {
                    assert(m[k] == mp[k]);
                }
                assert(mp.contains(x));
                let j = choose|j: int| 0 <= j < p.len() && p[j] == x;
                assert(inputs[j] == x);
            } else {
                assert(inputs[inputs.len() - 1] == x);
            }
        }
    }
}

/// Which sink inputs a per-application capture moves: every input whose pid a pid
/// selector names, and every input whose lowercase name contains the lowercase form of
/// any one name selector; each moved input is one of the listed inputs that some selector
/// picks in one of those two ways.
pub proof fn law_matched_sink_inputs(inputs: Seq<SinkInput>, sels: Seq<ProcessSelector>)
    ensures
        forall|i: int, k: int|
            0 <= i < inputs.len() && 0 <= k < sels.len() && #[trigger] sels[k] == ProcessSelector::Pid(
                (#[trigger] inputs[i]).pid,
            ) ==> matched_inputs(inputs, sels).contains(inputs[i]),
        forall|i: int, k: int|
            0 <= i < inputs.len() && 0 <= k < sels.len() && (#[trigger] sels[k]) is NameContains && contains_seq(
                lowercase((#[trigger] inputs[i]).name@),
                lowercase(sels[k]->NameContains_0@),
            ) ==> matched_inputs(inputs, sels).contains(inputs[i]),
        forall|x: SinkInput| #[trigger] matched_inputs(inputs, sels).contains(x) ==> inputs.contains(x) && exists|
            k: int,
        |
            0 <= k < sels.len() && (#[trigger] sels[k] == ProcessSelector::Pid(x.pid) || (sels[k] is NameContains
                && contains_seq(lowercase(x.name@), lowercase(sels[k]->NameContains_0@)))),
        matched_inputs(inputs, sels).len() <= inputs.len(),
{
    lemma_matched_inputs(inputs, sels);
    assert forall|i: int, k: int|
        0 <= i < inputs.len() && 0 <= k < sels.len() && #[trigger] sels[k] == ProcessSelector::Pid(
            (#[trigger] inputs[i]).pid,
        ) implies matched_inputs(inputs, sels).contains(inputs[i]) by {
        assert(selector_picks(inputs[i], sels[k]));
    }
    assert forall|i: int, k: int|
        0 <= i < inputs.len() && 0 <= k < sels.len() && (#[trigger] sels[k]) is NameContains && contains_seq(
            lowercase((#[trigger] inputs[i]).name@),
            lowercase(sels[k]->NameContains_0@),
        ) implies matched_inputs(inputs, sels).contains(inputs[i]) by {
        assert(selector_picks(inputs[i], sels[k]));
    }
    assert forall|x: SinkInput| #[trigger] matched_inputs(inputs, sels).contains(x) implies inputs.contains(x)
        && exists|k: int|
        0 <= k < sels.len() && (#[trigger] sels[k] == ProcessSelector::Pid(x.pid) || (sels[k] is NameContains
            && contains_seq(lowercase(x.name@), lowercase(sels[k]->NameContains_0@)))) by {
        let k = choose|k: int| 0 <= k < sels.len() && selector_picks(x, #[trigger] sels[k]);
        assert(sels[k] == ProcessSelector::Pid(x.pid) || (sels[k] is NameContains && contains_seq(
            lowercase(x.name@),
            lowercase(sels[k]->NameContains_0@),
        )));
    }
}

/// Matching keeps the listed order: the inputs matched in two lists one after the other
/// are those matched in the first, then those matched in the second; a single input is
/// matched exactly when some selector picks it.
pub proof fn law_matched_inputs_keep_order(a: Seq<SinkInput>, b: Seq<SinkInput>, sels: Seq<ProcessSelector>)
    ensures
        matched_inputs(a + b, sels) == matched_inputs(a, sels) + matched_inputs(b, sels),
        forall|x: SinkInput| #[trigger] matched_inputs(seq![x], sels) == if picked(x, sels) {
            seq![x]
        } else {
            Seq::<SinkInput>::empty()
        },
    decreases b.len(),
{
    assert forall|x: SinkInput| #[trigger] matched_inputs(seq![x], sels) == if picked(x, sels) {
        seq![x]
    } else {
        Seq::<SinkInput>::empty()
    } by {
        assert(seq![x].drop_last() =~= Seq::<SinkInput>::empty());
        assert(seq![x].last() == x);
        assert(seq![x].len() == 1);
        assert(matched_inputs(Seq::<SinkInput>::empty(), sels) == Seq::<SinkInput>::empty());
        assert(Seq::<SinkInput>::empty().push(x) =~= seq![x]);
        if picked(x, sels) {
            assert(matched_inputs(seq![x], sels) == matched_inputs(Seq::<SinkInput>::empty(), sels).push(x));
        } else {
            assert(matched_inputs(seq![x], sels) == matched_inputs(Seq::<SinkInput>::empty(), sels));
        }
    }
    if b.len() == 0 {
        assert(a + b =~= a);
        assert(matched_inputs(a, sels) + Seq::<SinkInput>::empty() =~= matched_inputs(a, sels));
    } else {
        let p = b.drop_last();
        law_matched_inputs_keep_order(a, p, sels);
        assert((a + b).drop_last() =~= a + p);
        assert((a + b).last() == b.last());
        if picked(b.last(), sels) {
            assert((matched_inputs(a, sels) + matched_inputs(p, sels)).push(b.last()) =~= matched_inputs(a, sels)
                + matched_inputs(p, sels).push(b.last()));
        }
    }
}

/// Whether some selector picks the input.
fn is_picked(input: &SinkInput, selectors: &[ProcessSelector]) -> (r: bool)
    ensures
        r == picked(*input, selectors@),
{
    let lowered = to_lower(input.name.as_str());
    let mut i: usize = 0;
    while i < selectors.len()
        invariant
            i <= selectors@.len(),
            lowered@ == lowercase(input.name@),
            forall|j: int| 0 <= j < i ==> !selector_picks(*input, #[trigger] selectors@[j]),
        decreases selectors.len() - i,
    {
        let hit = match &selectors[i] {
            ProcessSelector::Pid(pid) => input.pid == *pid,
            ProcessSelector::NameContains(name) => {
                let q = to_lower(name.as_str());
                str_contains(lowered.as_str(), q.as_str())
            },
        };
        if hit {
            return true;
        }
        i = i + 1;
    }
    false
}

/// The sink inputs that the selectors pick, in their listed order.
pub fn match_sink_inputs(inputs: &[SinkInput], selectors: &[ProcessSelector]) -> (r: Vec<SinkInput>)
    ensures
        r@ == matched_inputs(inputs@, selectors@),
{
    let mut matched: Vec<SinkInput> = Vec::new();
    let mut i: usize = 0;
    while i < inputs.len()
        invariant
            i <= inputs@.len(),
            matched@ == matched_inputs(inputs@.take(i as int), selectors@),
        decreases inputs.len() - i,
    {
        let ghost t = inputs@.take(i + 1);
        assert(t.drop_last() =~= inputs@.take(i as int));
        if is_picked(&inputs[i], selectors) {
            matched.push(inputs[i].duplicate());
        }
        i = i + 1;
    }
    assert(inputs@.take(inputs@.len() as int) =~= inputs@);
    matched
}

// ---------------------------------------------------------------------------
// Commands and their output.
// ---------------------------------------------------------------------------

/// The name of the temporary capture sink: `lyricwave_capture_<milliseconds>`.
pub open spec fn capture_sink_name_text(now_ms: u64) -> Seq<char> {
    "lyricwave_capture_"@ + decimal(now_ms as nat)
}

/// Names the temporary capture sink after the current time in milliseconds.
pub fn capture_sink_name(now_ms: u64) -> (r: String)
    ensures
        r@ == capture_sink_name_text(now_ms),
{
    let mut r = to_owned_string("lyricwave_capture_");
    push_decimal(&mut r, now_ms);
    r
}

/// The trimmed, non-empty text a `pactl` command printed, or the error for it.
pub open spec fn pactl_text_result(
    bytes: Seq<u8>,
    r: Result<String, AudioError>,
    invalid_prefix: Seq<char>,
    empty_message: Seq<char>,
) -> bool {
    if !vstd::utf8::valid_utf8(bytes) {
        r matches Err(AudioError::Message(m)) && m@.len() >= invalid_prefix.len() && m@.subrange(
            0,
            invalid_prefix.len() as int,
        ) == invalid_prefix
    } else if trim_ws(vstd::utf8::decode_utf8(bytes)).len() == 0 {
        r matches Err(AudioError::Message(m)) && m@ == empty_message
    } else {
        r matches Ok(s) && s@ == trim_ws(vstd::utf8::decode_utf8(bytes))
    }
}

/// The trimmed text a command printed; refused when it is not UTF-8 or is blank.
fn pactl_text(bytes: Vec<u8>, invalid_prefix: &str, empty_message: &str) -> (r: Result<String, AudioError>)
    ensures
        pactl_text_result(bytes@, r, invalid_prefix@, empty_message@),
{
    let ghost b = bytes@;
    match string_from_utf8(bytes) {
        Err(e) => {
            let detail = utf8_error_text(&e);
            let m = concat2(invalid_prefix, detail.as_str());
            assert(m@.subrange(0, invalid_prefix@.len() as int) =~= invalid_prefix@);
            Err(AudioError::Message(m))
        },
        Ok(s) => {
            let t = trim(s.as_str());
            if t.as_str().is_empty() {
                Err(AudioError::Message(to_owned_string(empty_message)))
            } else {
                Ok(t)
            }
        },
    }
}

/// Reads the default sink's name from what `pactl get-default-sink` printed.
pub fn default_sink_from_output(bytes: Vec<u8>) -> (r: Result<String, AudioError>)
    ensures
        pactl_text_result(
            bytes@,
            r,
            "invalid default sink output: "@,
            "default sink is empty; Pulse/PipeWire may be unavailable"@,
        ),
{
    pactl_text(bytes, "invalid default sink output: ", "default sink is empty; Pulse/PipeWire may be unavailable")
}

/// Reads the module id from what `pactl load-module module-null-sink` printed.
pub fn module_id_from_output(bytes: Vec<u8>) -> (r: Result<String, AudioError>)
    ensures
        pactl_text_result(
            bytes@,
            r,
            "invalid module id output: "@,
            "pactl returned empty module id for null sink"@,
        ),
{
    pactl_text(bytes, "invalid module id output: ", "pactl returned empty module id for null sink")
}

/// The arguments of `pactl` that load the null sink named `sink_name`.
pub open spec fn null_sink_args_text(sink_name: Seq<char>) -> Seq<Seq<char>> {
    seq![
        "load-module"@,
        "module-null-sink"@,
        "sink_name="@ + sink_name,
        "sink_properties=device.description=LyricwaveCapture"@,
    ]
}

/// The arguments of `pactl` that load the null sink named `sink_name`.
pub fn null_sink_args(sink_name: &str) -> (r: Vec<String>)
    ensures
        views(r@) == null_sink_args_text(sink_name@),
{
    let mut v: Vec<String> = Vec::new();
    v.push(to_owned_string("load-module"));
    v.push(to_owned_string("module-null-sink"));
    v.push(concat2("sink_name=", sink_name));
    v.push(to_owned_string("sink_properties=device.description=LyricwaveCapture"));
    assert(views(v@) =~= null_sink_args_text(sink_name@));
    v
}

/// The arguments of `pactl` that move sink input `index` to `sink_name`.
pub open spec fn move_args_text(index: u32, sink_name: Seq<char>) -> Seq<Seq<char>> {
    seq!["move-sink-input"@, decimal(index as nat), sink_name]
}

/// The arguments of `pactl` that move sink input `index` to `sink_name`.
pub fn move_sink_input_args(index: u32, sink_name: &str) -> (r: Vec<String>)
    ensures
        views(r@) == move_args_text(index, sink_name@),
{
    let mut v: Vec<String> = Vec::new();
    v.push(to_owned_string("move-sink-input"));
    v.push(decimal_string(index as u64));
    v.push(to_owned_string(sink_name));
    assert(views(v@) =~= move_args_text(index, sink_name@));
    v
}

/// The arguments of `parecord` that record the monitor of `sink_name` into `path` as WAV,
/// with `--rate` and `--channels` when given.
pub open spec fn parecord_args_text(sink_name: Seq<char>, path: Seq<char>, rate: Option<u32>, channels: Option<u16>) -> Seq<Seq<char>> {
    seq!["-d"@, sink_name + ".monitor"@, "--file-format=wav"@, path] + (match rate {
        Some(r) => seq!["--rate"@, decimal(r as nat)],
        None => Seq::empty(),
    }) + (match channels {
        Some(c) => seq!["--channels"@, decimal(c as nat)],
        None => Seq::empty(),
    })
}

/// The arguments of `parecord` for a request; refused for a stdout target.
pub fn parecord_args(request: &CaptureRequest, sink_name: &str) -> (r: Result<Vec<String>, AudioError>)
    ensures
        match request.target {
            CaptureTarget::File(path) => r matches Ok(v) && views(v@) == parecord_args_text(
                sink_name@,
                path@,
                request.sample_rate,
                request.channels,
            ),
            CaptureTarget::StdoutPcm => r matches Err(AudioError::Message(m)) && m@
                == "process capture only supports file target"@,
        },
{
    let path = match &request.target {
        CaptureTarget::File(p) => p,
        CaptureTarget::StdoutPcm => {
            return Err(AudioError::Message(to_owned_string("process capture only supports file target")));
        },
    };
    let mut v: Vec<String> = Vec::new();
    v.push(to_owned_string("-d"));
    v.push(concat2(sink_name, ".monitor"));
    v.push(to_owned_string("--file-format=wav"));
    v.push(path.clone());
    let ghost base = views(v@);
    if let Some(rate) = request.sample_rate {
        v.push(to_owned_string("--rate"));
        v.push(decimal_string(rate as u64));
    }
    let ghost with_rate = views(v@);
    if let Some(ch) = request.channels {
        v.push(to_owned_string("--channels"));
        v.push(decimal_string(ch as u64));
    }
    assert(views(v@) =~= parecord_args_text(sink_name@, path@, request.sample_rate, request.channels));
    Ok(v)
}

/// How a recording is ended.
pub enum WaitPlan {
    /// After this many seconds.
    Duration(u32),
    /// When the stop flag is raised.
    UntilStopped,
}

/// How a recording is ended: after the duration when one is given, else when the stop
/// flag is raised; refused when there is neither.
pub fn wait_plan(duration_secs: Option<u32>, has_stop_flag: bool) -> (r: Result<WaitPlan, AudioError>)
    ensures
        duration_secs matches Some(d) ==> (r matches Ok(WaitPlan::Duration(x)) && x == d),
        duration_secs is None && has_stop_flag ==> (r matches Ok(WaitPlan::UntilStopped)),
        duration_secs is None && !has_stop_flag ==> (r matches Err(AudioError::Message(m)) && m@
            == "manual capture requires stop flag when duration is not set"@),
{
    match duration_secs {
        Some(d) => Ok(WaitPlan::Duration(d)),
        None => if has_stop_flag {
            Ok(WaitPlan::UntilStopped)
        } else {
            Err(AudioError::Message(to_owned_string("manual capture requires stop flag when duration is not set")))
        },
    }
}

/// Judges how `parecord` ended after it was told to stop: success, no exit code, or the
/// codes 0, 130 and 143 (interrupted or terminated) are fine; any other code fails.
pub fn parecord_exit_result(success: bool, code: Option<i32>) -> (r: Result<(), AudioError>)
    ensures
        success || code is None || code == Some(0i32) || code == Some(130i32) || code == Some(143i32)
            ==> r is Ok,
        !(success || code is None || code == Some(0i32) || code == Some(130i32) || code == Some(
            143i32,
        )) ==> (r matches Err(AudioError::Message(m)) && m@ == "parecord exited with code "@
            + signed_decimal(code->0 as int)),
{
    if success {
        return Ok(());
    }
    match code {
        None => Ok(()),
        Some(c) => {
            if c == 0 || c == 130 || c == 143 {
                Ok(())
            } else {
                let mut m = to_owned_string("parecord exited with code ");
                push_signed_decimal(&mut m, c);
                Err(AudioError::Message(m))
            }
        },
    }
}

// ---------------------------------------------------------------------------
// The capture session.
// ---------------------------------------------------------------------------

/// Where a Linux per-application capture stands.
pub enum LinuxCapturePhase {
    /// Checking that `pactl` is installed.
    CheckPactl,
    /// Checking that `parecord` is installed.
    CheckParecord,
    /// Listing the sink inputs.
    ListInputs,
    /// Asking for the default sink.
    GetDefaultSink,
    /// Loading the temporary null sink.
    LoadNullSink,
    /// Moving the matched inputs to the null sink.
    MoveToCapture,
    /// Recording the null sink's monitor.
    Record,
    /// Moving the inputs back to the default sink.
    MoveBack,
    /// Moving the inputs back once more after a failure; the outcome is not awaited.
    RetryMoveBack,
    /// Unloading the null sink.
    Unload,
    /// Reading the recorded file's sample count and format.
    ReadMeta,
    /// Finished, with the outcome.
    Done(Result<CaptureReport, AudioError>),
}

/// The state of a Linux per-application capture.
pub struct LinuxCaptureSession {
    pub selectors: Vec<ProcessSelector>,
    pub out_path: String,
    pub sample_rate: Option<u32>,
    pub channels: Option<u16>,
    pub started_at_ms: u64,
    pub capture_sink: String,
    pub matched: Vec<SinkInput>,
    pub default_sink: String,
    pub module_id: String,
    /// The error that the capture ends with once the sink is cleaned up, if any.
    pub failure: Option<AudioError>,
    pub phase: LinuxCapturePhase,
}

/// What the caller has to do next.
pub enum LinuxCaptureAction {
    /// Check that the command is installed.
    CheckCommand(String),
    /// Run `pactl -f json list sink-inputs`.
    ListSinkInputs,
    /// Run `pactl get-default-sink`.
    GetDefaultSink,
    /// Run `pactl` with these arguments.
    LoadNullSink(Vec<String>),
    /// Run `pactl` once per argument list, in order, stopping at the first failure.
    MoveSinkInputs(Vec<Vec<String>>),
    /// Run `parecord` with these arguments until the recording ends, then stop it.
    Record(Vec<String>),
    /// Run `pactl unload-module` with this module id.
    Unload(String),
    /// Read the sample count, rate and channels of this WAV file.
    ReadWavMeta(String),
    /// Nothing: the capture is finished.
    Finish,
}

/// What the caller's last command gave.
pub enum LinuxCaptureEvent {
    CommandChecked(Result<(), AudioError>),
    SinkInputsListed(Result<Vec<u8>, AudioError>),
    DefaultSinkPrinted(Result<Vec<u8>, AudioError>),
    NullSinkLoaded(Result<Vec<u8>, AudioError>),
    SinkInputsMoved(Result<(), AudioError>),
    Recorded(Result<(), AudioError>),
    ModuleUnloaded(Result<(), AudioError>),
    WavMetaRead(Result<(usize, u32, u16), AudioError>, u64),
}

/// The refusal for a non-file target on Linux.
pub open spec fn linux_file_only() -> Seq<char> {
    "process capture currently supports file target only"@
}

/// The refusal for a non-WAV format on Linux.
pub open spec fn linux_wav_only() -> Seq<char> {
    "process capture currently supports WAV output only"@
}

/// The session that a capture of `request` started at `now_ms` begins with: the request's
/// selectors, file, rate and channels, the capture sink named after the time, nothing
/// matched or looked up yet, no failure, and the first phase.
pub open spec fn fresh_session(request: CaptureRequest, now_ms: u64, s: LinuxCaptureSession) -> bool {
    &&& s.phase is CheckPactl
    &&& request.scope matches CaptureScope::Processes(sel)
    &&& s.selectors@ == sel@
    &&& request.target matches CaptureTarget::File(path)
    &&& s.out_path == path
    &&& s.sample_rate == request.sample_rate
    &&& s.channels == request.channels
    &&& s.started_at_ms == now_ms
    &&& s.capture_sink@ == capture_sink_name_text(now_ms)
    &&& s.matched@.len() == 0
    &&& s.default_sink@.len() == 0
    &&& s.module_id@.len() == 0
    &&& s.failure is None
}

/// Starts a per-application capture; refused unless the request selects at least one
/// process, targets a file and asks for WAV.
pub fn capture_processes(request: &CaptureRequest, now_ms: u64) -> (r: Result<LinuxCaptureSession, AudioError>)
    ensures
        match process_request_rejection(*request, linux_file_only(), linux_wav_only()) {
            Some(m) => r matches Err(AudioError::Message(x)) && x@ == m,
            None => r matches Ok(s) && fresh_session(*request, now_ms, s),
        },
{
    let selectors = match &request.scope {
        CaptureScope::System => {
            return Err(AudioError::Message(to_owned_string("internal error: process capture called with system scope")));
        },
        CaptureScope::Processes(items) => {
            if items.len() == 0 {
                return Err(AudioError::Message(to_owned_string("process capture requires at least one selector")));
            }
            items
        },
    };
    let out_path = match &request.target {
        CaptureTarget::File(path) => path.clone(),
        CaptureTarget::StdoutPcm => {
            return Err(AudioError::Message(to_owned_string("process capture currently supports file target only")));
        },
    };
    if request.format != CaptureFormat::Wav {
        return Err(AudioError::Message(to_owned_string("process capture currently supports WAV output only")));
    }
    let mut copied: Vec<ProcessSelector> = Vec::new();
    let mut i: usize = 0;
    while i < selectors.len()
        invariant
            i <= selectors@.len(),
            copied@ == selectors@.take(i as int),
        decreases selectors.len() - i,
    {
        let c = match &selectors[i] {
            ProcessSelector::Pid(p) => ProcessSelector::Pid(*p),
            ProcessSelector::NameContains(n) => ProcessSelector::NameContains(n.clone()),
        };
        copied.push(c);
        assert(copied@ =~= selectors@.take(i + 1));
        i = i + 1;
    }
    assert(selectors@.take(selectors@.len() as int) =~= selectors@);
    Ok(LinuxCaptureSession {
        selectors: copied,
        out_path,
        sample_rate: request.sample_rate,
        channels: request.channels,
        started_at_ms: now_ms,
        capture_sink: capture_sink_name(now_ms),
        matched: Vec::new(),
        default_sink: String::new(),
        module_id: String::new(),
        failure: None,
        phase: LinuxCapturePhase::CheckPactl,
    })
}

/// The message when no sink input matched: the selectors' texts joined with `, `.
pub open spec fn no_match_message(sels: Seq<ProcessSelector>) -> Seq<char> {
    "no playing sink-inputs matched selectors: "@ + joined(
        sels.map_values(|p: ProcessSelector| p.display_text()),
        ", "@,
    )
}

/// The argument lists that move each matched input to `sink`.
pub open spec fn move_all_args(matched: Seq<SinkInput>, sink: Seq<char>) -> Seq<Seq<Seq<char>>> {
    matched.map_values(|m: SinkInput| move_args_text(m.index, sink))
}

/// The matched-process text of a sink input: `pid=<pid> name=<name> sink_input=<index>`.
pub open spec fn matched_text(m: SinkInput) -> Seq<char> {
    "pid="@ + decimal(m.pid as nat) + " name="@ + m.name@ + " sink_input="@ + decimal(m.index as nat)
}

/// The report of a finished capture from the recorded file's metadata.
pub open spec fn report_matches(s: LinuxCaptureSession, meta: (usize, u32, u16), ended_at_ms: u64, r: CaptureReport) -> bool {
    &&& r.captured_samples == meta.0
    &&& r.sample_rate == meta.1
    &&& r.channels == meta.2
    &&& r.started_at_ms == s.started_at_ms
    &&& r.ended_at_ms == ended_at_ms
    &&& r.selected_input_device.id@ == "pulse-monitor:"@ + s.capture_sink@ + ".monitor"@
    &&& r.selected_input_device.name@ == s.capture_sink@ + " monitor"@
    &&& !r.selected_input_device.is_default
    &&& r.selected_input_device.loopback_score == 100
    &&& r.selected_input_device.is_loopback_candidate
    &&& r.selection_reason@ == "selected linux per-app monitor sink"@
    &&& r.matched_processes@.len() == s.matched@.len()
    &&& forall|i: int| 0 <= i < s.matched@.len() ==> (#[trigger] r.matched_processes@[i])@ == matched_text(s.matched@[i])
}

/// The session moves to phase `p`, everything else kept.
pub open spec fn same_but_phase(s: LinuxCaptureSession, t: LinuxCaptureSession) -> bool {
    &&& t.selectors == s.selectors
    &&& t.out_path == s.out_path
    &&& t.sample_rate == s.sample_rate
    &&& t.channels == s.channels
    &&& t.started_at_ms == s.started_at_ms
    &&& t.capture_sink == s.capture_sink
    &&& t.matched == s.matched
    &&& t.default_sink == s.default_sink
    &&& t.module_id == s.module_id
}

/// How one event moves the session on. An event that the phase does not wait for changes
/// nothing.
pub open spec fn transition(s: LinuxCaptureSession, e: LinuxCaptureEvent, t: LinuxCaptureSession) -> bool {
    match (s.phase, e) {
        (LinuxCapturePhase::CheckPactl, LinuxCaptureEvent::CommandChecked(r)) => same_but_phase(s, t)
            && t.failure == s.failure && match r {
            Ok(_) => t.phase is CheckParecord,
            Err(err) => t.phase == LinuxCapturePhase::Done(Err(err)),
        },
        (LinuxCapturePhase::CheckParecord, LinuxCaptureEvent::CommandChecked(r)) => same_but_phase(s, t)
            && t.failure == s.failure && match r {
            Ok(_) => t.phase is ListInputs,
            Err(err) => t.phase == LinuxCapturePhase::Done(Err(err)),
        },
        (LinuxCapturePhase::ListInputs, LinuxCaptureEvent::SinkInputsListed(r)) => match r {
            Err(err) => same_but_phase(s, t) && t.failure == s.failure && t.phase
                == LinuxCapturePhase::Done(Err(err)),
            Ok(bytes) => {
                let parsed = pactl_sink_inputs(bytes@);
                &&& t.selectors == s.selectors
                &&& t.out_path == s.out_path
                &&& t.sample_rate == s.sample_rate
                &&& t.channels == s.channels
                &&& t.started_at_ms == s.started_at_ms
                &&& t.capture_sink == s.capture_sink
                &&& t.default_sink == s.default_sink
                &&& t.module_id == s.module_id
                &&& t.failure == s.failure
                &&& match parsed {
                    PactlSinkInputs::Entries(recs) => exists|inputs: Seq<SinkInput>| {
                        &&& inputs.map_values(|x: SinkInput| sink_view(x)) == sink_inputs_of(recs@)
                        &&& t.matched@ == matched_inputs(inputs, s.selectors@)
                        &&& if t.matched@.len() == 0 {
                            t.phase matches LinuxCapturePhase::Done(Err(AudioError::Message(m))) && m@
                                == no_match_message(s.selectors@)
                        } else {
                            t.phase is GetDefaultSink
                        }
                    },
                    _ => exists|res: Result<Vec<SinkInput>, AudioError>| {
                        &&& listed_sink_inputs(parsed, res)
                        &&& t.phase == LinuxCapturePhase::Done(Err(res->Err_0))
                    },
                }
            },
        },
        (LinuxCapturePhase::GetDefaultSink, LinuxCaptureEvent::DefaultSinkPrinted(r)) => {
            &&& t.selectors == s.selectors
            &&& t.out_path == s.out_path
            &&& t.sample_rate == s.sample_rate
            &&& t.channels == s.channels
            &&& t.started_at_ms == s.started_at_ms
            &&& t.capture_sink == s.capture_sink
            &&& t.matched == s.matched
            &&& t.module_id == s.module_id
            &&& t.failure == s.failure
            &&& match r {
                Err(err) => t.default_sink == s.default_sink && t.phase == LinuxCapturePhase::Done(Err(err)),
                Ok(bytes) => exists|res: Result<String, AudioError>| {
                    &&& pactl_text_result(
                        bytes@,
                        res,
                        "invalid default sink output: "@,
                        "default sink is empty; Pulse/PipeWire may be unavailable"@,
                    )
                    &&& match res {
                        Ok(sink) => t.default_sink == sink && t.phase is LoadNullSink,
                        Err(err) => t.default_sink == s.default_sink && t.phase == LinuxCapturePhase::Done(Err(err)),
                    }
                },
            }
        },
        (LinuxCapturePhase::LoadNullSink, LinuxCaptureEvent::NullSinkLoaded(r)) => {
            &&& t.selectors == s.selectors
            &&& t.out_path == s.out_path
            &&& t.sample_rate == s.sample_rate
            &&& t.channels == s.channels
            &&& t.started_at_ms == s.started_at_ms
            &&& t.capture_sink == s.capture_sink
            &&& t.matched == s.matched
            &&& t.default_sink == s.default_sink
            &&& t.failure == s.failure
            &&& match r {
                Err(err) => t.module_id == s.module_id && t.phase == LinuxCapturePhase::Done(Err(err)),
                Ok(bytes) => exists|res: Result<String, AudioError>| {
                    &&& pactl_text_result(
                        bytes@,
                        res,
                        "invalid module id output: "@,
                        "pactl returned empty module id for null sink"@,
                    )
                    &&& match res {
                        Ok(id) => t.module_id == id && t.phase is MoveToCapture,
                        Err(err) => t.module_id == s.module_id && t.phase == LinuxCapturePhase::Done(Err(err)),
                    }
                },
            }
        },
        (LinuxCapturePhase::MoveToCapture, LinuxCaptureEvent::SinkInputsMoved(r)) => same_but_phase(s, t)
            && match r {
            Ok(_) => t.failure == s.failure && t.phase is Record,
            Err(err) => t.failure == Some(err) && t.phase is RetryMoveBack,
        },
        (LinuxCapturePhase::Record, LinuxCaptureEvent::Recorded(r)) => same_but_phase(s, t) && t.phase is MoveBack
            && match r {
            Ok(_) => t.failure is None,
            Err(err) => t.failure == Some(err),
        },
        (LinuxCapturePhase::MoveBack, LinuxCaptureEvent::SinkInputsMoved(r)) => same_but_phase(s, t)
            && match r {
            Ok(_) => t.failure == s.failure && t.phase is Unload,
            Err(err) => t.failure == Some(err) && t.phase is RetryMoveBack,
        },
        (LinuxCapturePhase::RetryMoveBack, LinuxCaptureEvent::SinkInputsMoved(_)) => same_but_phase(s, t)
            && t.failure == s.failure && t.phase is Unload,
        (LinuxCapturePhase::Unload, LinuxCaptureEvent::ModuleUnloaded(_)) => same_but_phase(s, t)
            && t.failure == s.failure && match s.failure {
            Some(err) => t.phase == LinuxCapturePhase::Done(Err(err)),
            None => t.phase is ReadMeta,
        },
        (LinuxCapturePhase::ReadMeta, LinuxCaptureEvent::WavMetaRead(r, ended_at_ms)) => same_but_phase(s, t)
            && t.failure == s.failure && match r {
            Ok(meta) => t.phase matches LinuxCapturePhase::Done(Ok(report)) && report_matches(
                s,
                meta,
                ended_at_ms,
                report,
            ),
            Err(err) => t.phase == LinuxCapturePhase::Done(Err(err)),
        },
        _ => t == s,
    }
}

/// The action that goes with the session's phase.
pub open spec fn action_for(s: LinuxCaptureSession, a: LinuxCaptureAction) -> bool {
    match s.phase {
        LinuxCapturePhase::CheckPactl => a matches LinuxCaptureAction::CheckCommand(c) && c@ == "pactl"@,
        LinuxCapturePhase::CheckParecord => a matches LinuxCaptureAction::CheckCommand(c) && c@ == "parecord"@,
        LinuxCapturePhase::ListInputs => a is ListSinkInputs,
        LinuxCapturePhase::GetDefaultSink => a is GetDefaultSink,
        LinuxCapturePhase::LoadNullSink => a matches LinuxCaptureAction::LoadNullSink(args) && views(args@)
            == null_sink_args_text(s.capture_sink@),
        LinuxCapturePhase::MoveToCapture => a matches LinuxCaptureAction::MoveSinkInputs(moves)
            && moves@.map_values(|m: Vec<String>| views(m@)) == move_all_args(s.matched@, s.capture_sink@),
        LinuxCapturePhase::Record => a matches LinuxCaptureAction::Record(args) && views(args@)
            == parecord_args_text(s.capture_sink@, s.out_path@, s.sample_rate, s.channels),
        LinuxCapturePhase::MoveBack | LinuxCapturePhase::RetryMoveBack => a matches LinuxCaptureAction::MoveSinkInputs(moves)
            && moves@.map_values(|m: Vec<String>| views(m@)) == move_all_args(s.matched@, s.default_sink@),
        LinuxCapturePhase::Unload => a matches LinuxCaptureAction::Unload(id) && id == s.module_id,
        LinuxCapturePhase::ReadMeta => a matches LinuxCaptureAction::ReadWavMeta(p) && p == s.out_path,
        LinuxCapturePhase::Done(_) => a is Finish,
    }
}

/// The argument lists that move each matched input to `sink`.
fn move_all(matched: &Vec<SinkInput>, sink: &str) -> (r: Vec<Vec<String>>)
    ensures
        r@.map_values(|m: Vec<String>| views(m@)) == move_all_args(matched@, sink@),
{
    let mut out: Vec<Vec<String>> = Vec::new();
    let mut i: usize = 0;
    while i < matched.len()
        invariant
            i <= matched@.len(),
            out@.len() == i,
            out@.map_values(|m: Vec<String>| views(m@)) == move_all_args(matched@.take(i as int), sink@),
        decreases matched.len() - i,
    {
        let args = move_sink_input_args(matched[i].index, sink);
        let ghost before = out@;
        out.push(args);
        proof {
            let lhs = out@.map_values(|m: Vec<String>| views(m@));
            let rhs = move_all_args(matched@.take(i + 1), sink@);
            let old_l = before.map_values(|m: Vec<String>| views(m@));
            let old_r = move_all_args(matched@.take(i as int), sink@);
            assert forall|j: int| 0 <= j < i + 1 implies lhs[j] == rhs[j] by {
                if j < i {
                    assert(out@[j] == before[j]);
                    assert(matched@.take(i + 1)[j] == matched@.take(i as int)[j]);
                    assert(old_l[j] == old_r[j]);
                }
            }
            assert(lhs =~= rhs);
        }
        i = i + 1;
    }
    assert(matched@.take(matched@.len() as int) =~= matched@);
    out
}

/// The texts of the selectors.
fn selector_texts(sels: &Vec<ProcessSelector>) -> (r: Vec<String>)
    ensures
        views(r@) == sels@.map_values(|p: ProcessSelector| p.display_text()),
{
    let mut out: Vec<String> = Vec::new();
    let mut i: usize = 0;
    while i < sels.len()
        invariant
            i <= sels@.len(),
            out@.len() == i,
            views(out@) == sels@.take(i as int).map_values(|p: ProcessSelector| p.display_text()),
        decreases sels.len() - i,
    {
        let t = sels[i].to_display_string();
        let ghost before = out@;
        out.push(t);
        proof {
            let lhs = views(out@);
            let rhs = sels@.take(i + 1).map_values(|p: ProcessSelector| p.display_text());
            let old_l = views(before);
            let old_r = sels@.take(i as int).map_values(|p: ProcessSelector| p.display_text());
            assert forall|j: int| 0 <= j < i + 1 implies lhs[j] == rhs[j] by {
                if j < i {
                    assert(out@[j] == before[j]);
                    assert(sels@.take(i + 1)[j] == sels@.take(i as int)[j]);
                    assert(old_l[j] == old_r[j]);
                }
            }
            assert(lhs =~= rhs);
        }
        i = i + 1;
    }
    assert(sels@.take(sels@.len() as int) =~= sels@);
    out
}

impl LinuxCaptureSession {
    /// What the caller has to do next.
    pub fn next_action(&self) -> (a: LinuxCaptureAction)
        ensures
            action_for(*self, a),
    {
        match &self.phase {
            LinuxCapturePhase::CheckPactl => LinuxCaptureAction::CheckCommand(to_owned_string("pactl")),
            LinuxCapturePhase::CheckParecord => LinuxCaptureAction::CheckCommand(to_owned_string("parecord")),
            LinuxCapturePhase::ListInputs => LinuxCaptureAction::ListSinkInputs,
            LinuxCapturePhase::GetDefaultSink => LinuxCaptureAction::GetDefaultSink,
            LinuxCapturePhase::LoadNullSink => LinuxCaptureAction::LoadNullSink(null_sink_args(self.capture_sink.as_str())),
            LinuxCapturePhase::MoveToCapture => LinuxCaptureAction::MoveSinkInputs(move_all(&self.matched, self.capture_sink.as_str())),
            LinuxCapturePhase::Record => {
                let mut args: Vec<String> = Vec::new();
                args.push(to_owned_string("-d"));
                args.push(concat2(self.capture_sink.as_str(), ".monitor"));
                args.push(to_owned_string("--file-format=wav"));
                args.push(self.out_path.clone());
                if let Some(rate) = self.sample_rate {
                    args.push(to_owned_string("--rate"));
                    args.push(decimal_string(rate as u64));
                }
                if let Some(ch) = self.channels {
                    args.push(to_owned_string("--channels"));
                    args.push(decimal_string(ch as u64));
                }
                assert(views(args@) =~= parecord_args_text(self.capture_sink@, self.out_path@, self.sample_rate, self.channels));
                LinuxCaptureAction::Record(args)
            },
            LinuxCapturePhase::MoveBack | LinuxCapturePhase::RetryMoveBack => LinuxCaptureAction::MoveSinkInputs(move_all(&self.matched, self.default_sink.as_str())),
            LinuxCapturePhase::Unload => LinuxCaptureAction::Unload(self.module_id.clone()),
            LinuxCapturePhase::ReadMeta => LinuxCaptureAction::ReadWavMeta(self.out_path.clone()),
            LinuxCapturePhase::Done(_) => LinuxCaptureAction::Finish,
        }
    }

    /// Whether the capture is finished.
    pub fn is_done(&self) -> (r: bool)
        ensures
            r == (self.phase is Done),
    {
        match &self.phase {
            LinuxCapturePhase::Done(_) => true,
            _ => false,
        }
    }

    /// The outcome of a finished capture; nothing before it is finished.
    pub fn into_outcome(self) -> (r: Option<Result<CaptureReport, AudioError>>)
        ensures
            match self.phase {
                LinuxCapturePhase::Done(res) => r == Some(res),
                _ => r is None,
            },
    {
        match self.phase {
            LinuxCapturePhase::Done(res) => Some(res),
            _ => None,
        }
    }

    /// The report of the finished capture.
    fn build_report(&self, meta: (usize, u32, u16), ended_at_ms: u64) -> (r: CaptureReport)
        ensures
            report_matches(*self, meta, ended_at_ms, r),
    {
        let mut texts: Vec<String> = Vec::new();
        let mut i: usize = 0;
        while i < self.matched.len()
            invariant
                i <= self.matched@.len(),
                texts@.len() == i,
                forall|j: int| 0 <= j < i ==> (#[trigger] texts@[j])@ == matched_text(self.matched@[j]),
            decreases self.matched.len() - i,
        {
            let m = &self.matched[i];
            let mut t = to_owned_string("pid=");
            push_decimal(&mut t, m.pid as u64);
            push_str(&mut t, " name=");
            push_str(&mut t, m.name.as_str());
            push_str(&mut t, " sink_input=");
            push_decimal(&mut t, m.index as u64);
            texts.push(t);
            i = i + 1;
        }
        CaptureReport {
            captured_samples: meta.0,
            sample_rate: meta.1,
            channels: meta.2,
            started_at_ms: self.started_at_ms,
            ended_at_ms,
            selected_input_device: InputDeviceInfo {
                id: concat3("pulse-monitor:", self.capture_sink.as_str(), ".monitor"),
                name: concat2(self.capture_sink.as_str(), " monitor"),
                is_default: false,
                loopback_score: 100,
                is_loopback_candidate: true,
            },
            selection_reason: to_owned_string("selected linux per-app monitor sink"),
            matched_processes: texts,
        }
    }

    /// Moves the session on by what the caller's last command gave.
    pub fn step(&mut self, event: LinuxCaptureEvent)
        ensures
            transition(*old(self), event, *final(self)),
    {
        let ghost s = *self;
        let mut phase = LinuxCapturePhase::CheckPactl;
        std::mem::swap(&mut phase, &mut self.phase);
        match (phase, event) {
            (LinuxCapturePhase::CheckPactl, LinuxCaptureEvent::CommandChecked(r)) => {
                self.phase = match r {
                    Ok(_) => LinuxCapturePhase::CheckParecord,
                    Err(err) => LinuxCapturePhase::Done(Err(err)),
                };
            },
            (LinuxCapturePhase::CheckParecord, LinuxCaptureEvent::CommandChecked(r)) => {
                self.phase = match r {
                    Ok(_) => LinuxCapturePhase::ListInputs,
                    Err(err) => LinuxCapturePhase::Done(Err(err)),
                };
            },
            (LinuxCapturePhase::ListInputs, LinuxCaptureEvent::SinkInputsListed(r)) => {
                match r {
                    Err(err) => {
                        self.phase = LinuxCapturePhase::Done(Err(err));
                    },
                    Ok(bytes) => {
                        let ghost parsed = pactl_sink_inputs(bytes@);
                        let listed = list_sink_inputs_from_output(bytes.as_slice());
                        match listed {
                            Err(err) => {
                                proof {
                                    assert(!(parsed is Entries));
                                }
                                self.phase = LinuxCapturePhase::Done(Err(err));
                            },
                            Ok(inputs) => {
                                let matched = match_sink_inputs(inputs.as_slice(), self.selectors.as_slice());
                                if matched.len() == 0 {
                                    let texts = selector_texts(&self.selectors);
                                    let joined_text = join_strings(&texts, ", ");
                                    let m = concat2("no playing sink-inputs matched selectors: ", joined_text.as_str());
                                    self.matched = matched;
                                    self.phase = LinuxCapturePhase::Done(Err(AudioError::Message(m)));
                                } else {
                                    self.matched = matched;
                                    self.phase = LinuxCapturePhase::GetDefaultSink;
                                }
                            },
                        }
                    },
                }
            },
            (LinuxCapturePhase::GetDefaultSink, LinuxCaptureEvent::DefaultSinkPrinted(r)) => {
                match r {
                    Err(err) => {
                        self.phase = LinuxCapturePhase::Done(Err(err));
                    },
                    Ok(bytes) => {
                        let res = default_sink_from_output(bytes);
                        match res {
                            Ok(sink) => {
                                self.default_sink = sink;
                                self.phase = LinuxCapturePhase::LoadNullSink;
                            },
                            Err(err) => {
                                self.phase = LinuxCapturePhase::Done(Err(err));
                            },
                        }
                    },
                }
            },
            (LinuxCapturePhase::LoadNullSink, LinuxCaptureEvent::NullSinkLoaded(r)) => {
                match r {
                    Err(err) => {
                        self.phase = LinuxCapturePhase::Done(Err(err));
                    },
                    Ok(bytes) => {
                        let res = module_id_from_output(bytes);
                        match res {
                            Ok(id) => {
                                self.module_id = id;
                                self.phase = LinuxCapturePhase::MoveToCapture;
                            },
                            Err(err) => {
                                self.phase = LinuxCapturePhase::Done(Err(err));
                            },
                        }
                    },
                }
            },
            (LinuxCapturePhase::MoveToCapture, LinuxCaptureEvent::SinkInputsMoved(r)) => {
                match r {
                    Ok(_) => {
                        self.phase = LinuxCapturePhase::Record;
                    },
                    Err(err) => {
                        self.failure = Some(err);
                        self.phase = LinuxCapturePhase::RetryMoveBack;
                    },
                }
            },
            (LinuxCapturePhase::Record, LinuxCaptureEvent::Recorded(r)) => {
                self.failure = match r {
                    Ok(_) => None,
                    Err(err) => Some(err),
                };
                self.phase = LinuxCapturePhase::MoveBack;
            },
            (LinuxCapturePhase::MoveBack, LinuxCaptureEvent::SinkInputsMoved(r)) => {
                match r {
                    Ok(_) => {
                        self.phase = LinuxCapturePhase::Unload;
                    },
                    Err(err) => {
                        self.failure = Some(err);
                        self.phase = LinuxCapturePhase::RetryMoveBack;
                    },
                }
            },
            (LinuxCapturePhase::RetryMoveBack, LinuxCaptureEvent::SinkInputsMoved(_)) => {
                self.phase = LinuxCapturePhase::Unload;
            },
            (LinuxCapturePhase::Unload, LinuxCaptureEvent::ModuleUnloaded(_)) => {
                let mut failure: Option<AudioError> = None;
                std::mem::swap(&mut failure, &mut self.failure);
                match failure {
                    Some(err) => {
                        self.failure = Some(err.duplicate());
                        self.phase = LinuxCapturePhase::Done(Err(err));
                    },
                    None => {
                        self.phase = LinuxCapturePhase::ReadMeta;
                    },
                }
            },
            (LinuxCapturePhase::ReadMeta, LinuxCaptureEvent::WavMetaRead(r, ended_at_ms)) => {
                match r {
                    Ok(meta) => {
                        let report = self.build_report(meta, ended_at_ms);
                        self.phase = LinuxCapturePhase::Done(Ok(report));
                    },
                    Err(err) => {
                        self.phase = LinuxCapturePhase::Done(Err(err));
                    },
                }
            },
            (phase, _) => {
                self.phase = phase;
            },
        }
    }
}

// ---------------------------------------------------------------------------
// Laws of the capture session.
// ---------------------------------------------------------------------------

/// The temporary null sink is loaded and not yet unloaded.
pub open spec fn holds_capture_sink(s: LinuxCaptureSession) -> bool {
    ||| s.phase is MoveToCapture
    ||| s.phase is Record
    ||| s.phase is MoveBack
    ||| s.phase is RetryMoveBack
    ||| s.phase is Unload
}

/// Inputs may be playing into the null sink and no move back was attempted yet.
pub open spec fn restore_pending(s: LinuxCaptureSession) -> bool {
    ||| s.phase is Record
    ||| s.phase is MoveBack
    ||| s.phase is RetryMoveBack
}

/// The null sink is released only by the event that reports its unloading.
pub proof fn law_sink_released_only_by_unload(s: LinuxCaptureSession, e: LinuxCaptureEvent, t: LinuxCaptureSession)
    requires
        transition(s, e, t),
        holds_capture_sink(s),
        !holds_capture_sink(t),
    ensures
        s.phase is Unload,
        e is ModuleUnloaded,
{
}

/// Once inputs may have been moved to the null sink, the session leaves that state only
/// after a move back has been run (whatever it reported).
pub proof fn law_restore_before_release(s: LinuxCaptureSession, e: LinuxCaptureEvent, t: LinuxCaptureSession)
    requires
        transition(s, e, t),
        restore_pending(s),
        !restore_pending(t),
    ensures
        e is SinkInputsMoved,
        t.phase is Unload,
{
}

/// A capture never finishes while it holds the null sink, except by the unloading event.
pub proof fn law_no_finish_while_holding_sink(s: LinuxCaptureSession, e: LinuxCaptureEvent, t: LinuxCaptureSession)
    requires
        transition(s, e, t),
        holds_capture_sink(s),
        t.phase is Done,
    ensures
        s.phase is Unload,
        e is ModuleUnloaded,
{
}

/// A failure met while the null sink was held is the outcome once it is unloaded.
pub proof fn law_failure_reported_after_cleanup(s: LinuxCaptureSession, e: LinuxCaptureEvent, t: LinuxCaptureSession)
    requires
        transition(s, e, t),
        s.phase is Unload,
        e is ModuleUnloaded,
        s.failure is Some,
    ensures
        t.phase == LinuxCapturePhase::Done(Err(s.failure->0)),
{
}

/// A finished capture stays finished.
pub proof fn law_done_is_final(s: LinuxCaptureSession, e: LinuxCaptureEvent, t: LinuxCaptureSession)
    requires
        transition(s, e, t),
        s.phase is Done,
    ensures
        t == s,
{
}

/// While the null sink is held, the moved inputs and both sinks stay as they were, so the
/// move back returns exactly the inputs that were moved to the capture sink.
pub proof fn law_moved_inputs_kept_while_holding_sink(s: LinuxCaptureSession, e: LinuxCaptureEvent, t: LinuxCaptureSession)
    requires
        transition(s, e, t),
        holds_capture_sink(s),
    ensures
        t.matched == s.matched,
        t.capture_sink == s.capture_sink,
        t.default_sink == s.default_sink,
{
}

} // verus!
