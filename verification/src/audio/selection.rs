//! Choosing the input device to capture from: an explicit hint first, then the best
//! loopback candidate, then the default device, then the first one.
use vstd::prelude::*;

use crate::audio::backend::InputDeviceInfo;
use crate::text::{
    concat3, contains_seq, decimal, lowercase, push_char, push_decimal, push_str, str_contains,
    to_lower, to_owned_string,
};

verus! {

// ---------------------------------------------------------------------------
// Loopback scoring.
// ---------------------------------------------------------------------------

/// Ten points when `kw` occurs in the lowercase name.
pub open spec fn strong_points(lower: Seq<char>, kw: Seq<char>) -> int {
    if contains_seq(lower, kw) { 10 } else { 0 }
}

/// Three points when `kw` occurs in the lowercase name.
pub open spec fn weak_points(lower: Seq<char>, kw: Seq<char>) -> int {
    if contains_seq(lower, kw) { 3 } else { 0 }
}

/// The loopback score of a device whose lowercase name is `lower`: ten points for each
/// strong keyword in it, three for each weak one.
pub open spec fn loopback_score_of(lower: Seq<char>) -> int {
    strong_points(lower, "blackhole"@) + strong_points(lower, "stereo mix"@) + strong_points(
        lower,
        "what u hear"@,
    ) + strong_points(lower, "monitor"@) + strong_points(lower, "vb-cable"@) + strong_points(
        lower,
        "cable output"@,
    ) + strong_points(lower, "soundflower"@) + strong_points(lower, "loopback"@)
        + strong_points(lower, "snd-aloop"@) + weak_points(lower, "mix"@) + weak_points(
        lower,
        "virtual"@,
    ) + weak_points(lower, "monitoring"@) + weak_points(lower, "wave out"@) + weak_points(
        lower,
        "capture"@,
    )
}

/// Containment is transitive: what occurs in `b` occurs in any `a` that contains `b`.
proof fn lemma_contains_trans(a: Seq<char>, b: Seq<char>, k: Seq<char>)
    requires
        contains_seq(a, b),
        contains_seq(b, k),
    ensures
        contains_seq(a, k),
{
    let i = choose|i: int| 0 <= i && i + b.len() <= a.len() && #[trigger] a.subrange(i, i + b.len()) == b;
    let j = choose|j: int| 0 <= j && j + k.len() <= b.len() && #[trigger] b.subrange(j, j + k.len()) == k;
    assert forall|x: int| 0 <= x < k.len() implies a.subrange(i + j, i + j + k.len())[x] == k[x] by {
        assert(a.subrange(i, i + b.len())[j + x] == b[j + x]);
        assert(b.subrange(j, j + k.len())[x] == k[x]);
    }
    assert(a.subrange(i + j, i + j + k.len()) =~= k);
}

/// A name whose lowercase form contains another's scores at least as high: every keyword
/// found in the shorter name is found in the longer one.
pub proof fn law_loopback_score_grows_with_containment(longer: Seq<char>, shorter: Seq<char>)
    requires
        contains_seq(longer, shorter),
    ensures
        loopback_score_of(longer) >= loopback_score_of(shorter),
{
    assert forall|kw: Seq<char>| contains_seq(shorter, kw) implies contains_seq(longer, kw) by {
        lemma_contains_trans(longer, shorter, kw);
    }
    assert(contains_seq(shorter, "blackhole"@) ==> contains_seq(longer, "blackhole"@));
    assert(contains_seq(shorter, "stereo mix"@) ==> contains_seq(longer, "stereo mix"@));
    assert(contains_seq(shorter, "what u hear"@) ==> contains_seq(longer, "what u hear"@));
    assert(contains_seq(shorter, "monitor"@) ==> contains_seq(longer, "monitor"@));
    assert(contains_seq(shorter, "vb-cable"@) ==> contains_seq(longer, "vb-cable"@));
    assert(contains_seq(shorter, "cable output"@) ==> contains_seq(longer, "cable output"@));
    assert(contains_seq(shorter, "soundflower"@) ==> contains_seq(longer, "soundflower"@));
    assert(contains_seq(shorter, "loopback"@) ==> contains_seq(longer, "loopback"@));
    assert(contains_seq(shorter, "snd-aloop"@) ==> contains_seq(longer, "snd-aloop"@));
    assert(contains_seq(shorter, "mix"@) ==> contains_seq(longer, "mix"@));
    assert(contains_seq(shorter, "virtual"@) ==> contains_seq(longer, "virtual"@));
    assert(contains_seq(shorter, "monitoring"@) ==> contains_seq(longer, "monitoring"@));
    assert(contains_seq(shorter, "wave out"@) ==> contains_seq(longer, "wave out"@));
    assert(contains_seq(shorter, "capture"@) ==> contains_seq(longer, "capture"@));
}

/// The score ignores case: two names with the same lowercase form score the same, and
/// a name whose lowercase form contains another's lowercase form scores at least as high.
pub proof fn law_loopback_score_ignores_case(a: Seq<char>, b: Seq<char>)
    ensures
        lowercase(a) == lowercase(b) ==> loopback_score_of(lowercase(a)) == loopback_score_of(lowercase(b)),
        contains_seq(lowercase(a), lowercase(b)) ==> loopback_score_of(lowercase(a)) >= loopback_score_of(lowercase(b)),
{
    if contains_seq(lowercase(a), lowercase(b)) {
        law_loopback_score_grows_with_containment(lowercase(a), lowercase(b));
    }
}

/// The keywords that mark a loopback source strongly.
pub open spec fn strong_keywords() -> Seq<Seq<char>> {
    seq![
        "blackhole"@,
        "stereo mix"@,
        "what u hear"@,
        "monitor"@,
        "vb-cable"@,
        "cable output"@,
        "soundflower"@,
        "loopback"@,
        "snd-aloop"@,
    ]
}

/// The keywords that hint weakly at a loopback source.
pub open spec fn weak_keywords() -> Seq<Seq<char>> {
    seq!["mix"@, "virtual"@, "monitoring"@, "wave out"@, "capture"@]
}

/// How many of the first `n` keywords of `kws` occur in `lower`.
pub open spec fn keywords_found_upto(lower: Seq<char>, kws: Seq<Seq<char>>, n: int) -> int
    decreases n,
{
    if n <= 0 {
        0
    } else {
        keywords_found_upto(lower, kws, n - 1) + if contains_seq(lower, kws[n - 1]) { 1int } else { 0 }
    }
}

/// How many keywords of `kws` occur in `lower`.
pub open spec fn keywords_found(lower: Seq<char>, kws: Seq<Seq<char>>) -> int {
    keywords_found_upto(lower, kws, kws.len() as int)
}

/// The score counts keywords: ten points for each strong keyword that occurs in the
/// lowercase name, and three for each weak one.
pub proof fn law_loopback_score_counts_keywords(lower: Seq<char>)
    ensures
        loopback_score_of(lower) == 10 * keywords_found(lower, strong_keywords()) + 3 * keywords_found(
            lower,
            weak_keywords(),
        ),
{
    let s = strong_keywords();
    let w = weak_keywords();
    assert(s.len() == 9);
    assert(w.len() == 5);
    assert(keywords_found_upto(lower, s, 0) == 0);
    assert(s[0] == "blackhole"@);
    assert(10 * keywords_found_upto(lower, s, 1) == strong_points(lower, "blackhole"@));
    assert(s[1] == "stereo mix"@);
    assert(10 * keywords_found_upto(lower, s, 2) == strong_points(lower, "blackhole"@) + strong_points(lower, "stereo mix"@));
    assert(s[2] == "what u hear"@);
    assert(10 * keywords_found_upto(lower, s, 3) == strong_points(lower, "blackhole"@) + strong_points(lower, "stereo mix"@) + strong_points(lower, "what u hear"@));
    assert(s[3] == "monitor"@);
    assert(10 * keywords_found_upto(lower, s, 4) == strong_points(lower, "blackhole"@) + strong_points(lower, "stereo mix"@) + strong_points(lower, "what u hear"@) + strong_points(lower, "monitor"@));
    assert(s[4] == "vb-cable"@);
    assert(10 * keywords_found_upto(lower, s, 5) == strong_points(lower, "blackhole"@) + strong_points(lower, "stereo mix"@) + strong_points(lower, "what u hear"@) + strong_points(lower, "monitor"@) + strong_points(lower, "vb-cable"@));
    assert(s[5] == "cable output"@);
    assert(10 * keywords_found_upto(lower, s, 6) == strong_points(lower, "blackhole"@) + strong_points(lower, "stereo mix"@) + strong_points(lower, "what u hear"@) + strong_points(lower, "monitor"@) + strong_points(lower, "vb-cable"@) + strong_points(lower, "cable output"@));
    assert(s[6] == "soundflower"@);
    assert(10 * keywords_found_upto(lower, s, 7) == strong_points(lower, "blackhole"@) + strong_points(lower, "stereo mix"@) + strong_points(lower, "what u hear"@) + strong_points(lower, "monitor"@) + strong_points(lower, "vb-cable"@) + strong_points(lower, "cable output"@) + strong_points(lower, "soundflower"@));
    assert(s[7] == "loopback"@);
    assert(10 * keywords_found_upto(lower, s, 8) == strong_points(lower, "blackhole"@) + strong_points(lower, "stereo mix"@) + strong_points(lower, "what u hear"@) + strong_points(lower, "monitor"@) + strong_points(lower, "vb-cable"@) + strong_points(lower, "cable output"@) + strong_points(lower, "soundflower"@) + strong_points(lower, "loopback"@));
    assert(s[8] == "snd-aloop"@);
    assert(10 * keywords_found_upto(lower, s, 9) == strong_points(lower, "blackhole"@) + strong_points(lower, "stereo mix"@) + strong_points(lower, "what u hear"@) + strong_points(lower, "monitor"@) + strong_points(lower, "vb-cable"@) + strong_points(lower, "cable output"@) + strong_points(lower, "soundflower"@) + strong_points(lower, "loopback"@) + strong_points(lower, "snd-aloop"@));
    assert(keywords_found_upto(lower, w, 0) == 0);
    assert(w[0] == "mix"@);
    assert(3 * keywords_found_upto(lower, w, 1) == weak_points(lower, "mix"@));
    assert(w[1] == "virtual"@);
    assert(3 * keywords_found_upto(lower, w, 2) == weak_points(lower, "mix"@) + weak_points(lower, "virtual"@));
    assert(w[2] == "monitoring"@);
    assert(3 * keywords_found_upto(lower, w, 3) == weak_points(lower, "mix"@) + weak_points(lower, "virtual"@) + weak_points(lower, "monitoring"@));
    assert(w[3] == "wave out"@);
    assert(3 * keywords_found_upto(lower, w, 4) == weak_points(lower, "mix"@) + weak_points(lower, "virtual"@) + weak_points(lower, "monitoring"@) + weak_points(lower, "wave out"@));
    assert(w[4] == "capture"@);
    assert(3 * keywords_found_upto(lower, w, 5) == weak_points(lower, "mix"@) + weak_points(lower, "virtual"@) + weak_points(lower, "monitoring"@) + weak_points(lower, "wave out"@) + weak_points(lower, "capture"@));
}

/// A name whose lowercase form holds one strong keyword and no other keyword, strong or
/// weak, scores exactly ten.
pub proof fn law_lone_strong_keyword_scores_ten(lower: Seq<char>, i: int)
    requires
        0 <= i < strong_keywords().len(),
        contains_seq(lower, strong_keywords()[i]),
        forall|j: int| 0 <= j < strong_keywords().len() && j != i ==> !contains_seq(lower, #[trigger] strong_keywords()[j]),
        forall|j: int| 0 <= j < weak_keywords().len() ==> !contains_seq(lower, #[trigger] weak_keywords()[j]),
    ensures
        loopback_score_of(lower) == 10,
{
    law_loopback_score_counts_keywords(lower);
    let s = strong_keywords();
    let w = weak_keywords();
    reveal_with_fuel(keywords_found_upto, 10);
    assert(!contains_seq(lower, w[0]));
    assert(!contains_seq(lower, w[1]));
    assert(!contains_seq(lower, w[2]));
    assert(!contains_seq(lower, w[3]));
    assert(!contains_seq(lower, w[4]));
    assert(keywords_found(lower, w) == 0);
    assert(keywords_found(lower, s) == 1) by {
        assert(forall|j: int| 0 <= j < 9 ==> (contains_seq(lower, #[trigger] s[j]) <==> j == i));
    }
}

/// Adds `points` to `score` when `kw` occurs in `lower`.
fn add_if_contains(score: i32, lower: &str, kw: &str, points: i32) -> (r: i32)
    requires
        0 <= points <= 10,
        0 <= score <= 1000,
    ensures
        r == score + if contains_seq(lower@, kw@) { points as int } else { 0 },
{
    if str_contains(lower, kw) {
        score + points
    } else {
        score
    }
}

/// How strongly a device name suggests a loopback (system mix) source.
pub fn loopback_score(device_name: &str) -> (r: i32)
    ensures
        r == loopback_score_of(lowercase(device_name@)),
        0 <= r <= 105,
{
    let name = to_lower(device_name);
    let n = name.as_str();
    let mut score: i32 = 0;
    score = add_if_contains(score, n, "blackhole", 10);
    score = add_if_contains(score, n, "stereo mix", 10);
    score = add_if_contains(score, n, "what u hear", 10);
    score = add_if_contains(score, n, "monitor", 10);
    score = add_if_contains(score, n, "vb-cable", 10);
    score = add_if_contains(score, n, "cable output", 10);
    score = add_if_contains(score, n, "soundflower", 10);
    score = add_if_contains(score, n, "loopback", 10);
    score = add_if_contains(score, n, "snd-aloop", 10);
    score = add_if_contains(score, n, "mix", 3);
    score = add_if_contains(score, n, "virtual", 3);
    score = add_if_contains(score, n, "monitoring", 3);
    score = add_if_contains(score, n, "wave out", 3);
    score = add_if_contains(score, n, "capture", 3);
    score
}

// ---------------------------------------------------------------------------
// Device selection.
// ---------------------------------------------------------------------------

/// The chosen device and why it was chosen.
pub struct SelectedInput {
    pub info: InputDeviceInfo,
    pub reason: String,
}

/// The rule of the strategy that made a choice.
pub enum SelectionRule {
    Hint,
    Loopback,
    Default,
    First,
}

/// The device matches the lowercase query by name or by id.
pub open spec fn hint_matches(d: InputDeviceInfo, query: Seq<char>) -> bool {
    contains_seq(lowercase(d.name@), query) || contains_seq(lowercase(d.id@), query)
}

/// The index of the first device that matches the lowercase query.
pub open spec fn first_hint_match(ds: Seq<InputDeviceInfo>, query: Seq<char>) -> Option<int>
    decreases ds.len(),
{
    if ds.len() == 0 {
        None
    } else if hint_matches(ds[0], query) {
        Some(0)
    } else {
        match first_hint_match(ds.drop_first(), query) {
            Some(i) => Some(i + 1),
            None => None,
        }
    }
}

/// The index of the loopback candidate with the highest score; among equal scores the
/// last one wins, as `Iterator::max_by_key` picks.
pub open spec fn best_loopback(ds: Seq<InputDeviceInfo>) -> Option<int>
    decreases ds.len(),
{
    if ds.len() == 0 {
        None
    } else {
        let rest = best_loopback(ds.drop_last());
        let last = ds.last();
        if last.is_loopback_candidate && (rest is None || ds[rest->0].loopback_score
            <= last.loopback_score) {
            Some(ds.len() - 1)
        } else {
            rest
        }
    }
}

/// The index of the first default device.
pub open spec fn first_default(ds: Seq<InputDeviceInfo>) -> Option<int>
    decreases ds.len(),
{
    if ds.len() == 0 {
        None
    } else if ds[0].is_default {
        Some(0)
    } else {
        match first_default(ds.drop_first()) {
            Some(i) => Some(i + 1),
            None => None,
        }
    }
}

/// Which device the strategy chooses, and by which rule: an explicit hint first, then
/// (when preferred) the best loopback candidate, then the default device, then the
/// first device; nothing for an empty list.
pub open spec fn selection(ds: Seq<InputDeviceInfo>, hint: Option<Seq<char>>, prefer_loopback: bool) -> Option<(int, SelectionRule)> {
    if ds.len() == 0 {
        None
    } else if hint is Some && first_hint_match(ds, lowercase(hint->0)) is Some {
        Some((first_hint_match(ds, lowercase(hint->0))->0, SelectionRule::Hint))
    } else if prefer_loopback && best_loopback(ds) is Some {
        Some((best_loopback(ds)->0, SelectionRule::Loopback))
    } else if first_default(ds) is Some {
        Some((first_default(ds)->0, SelectionRule::Default))
    } else {
        Some((0, SelectionRule::First))
    }
}

/// The decimal text of a signed number.
pub open spec fn signed_decimal(i: int) -> Seq<char> {
    if i < 0 {
        seq!['-'] + decimal((-i) as nat)
    } else {
        decimal(i as nat)
    }
}

/// The reason text that goes with a choice.
pub open spec fn reason_text(rule: SelectionRule, hint: Seq<char>, score: int) -> Seq<char> {
    match rule {
        SelectionRule::Hint => "selected by explicit input hint '"@ + hint + "'"@,
        SelectionRule::Loopback => "selected best loopback candidate (score="@ + signed_decimal(
            score,
        ) + ")"@,
        SelectionRule::Default => "selected default input device"@,
        SelectionRule::First => "selected first available input device"@,
    }
}

/// Appends the decimal text of a signed number.
pub fn push_signed_decimal(s: &mut String, v: i32)
    ensures
        final(s)@ == old(s)@ + signed_decimal(v as int),
{
    if v < 0 {
        push_char(s, '-');
        let m: i64 = -(v as i64);
        push_decimal(s, m as u64);
        assert(final(s)@ =~= old(s)@ + signed_decimal(v as int));
    } else {
        push_decimal(s, v as u64);
    }
}

proof fn lemma_first_hint_match_at(ds: Seq<InputDeviceInfo>, query: Seq<char>, k: int)
    requires
        0 <= k < ds.len(),
        hint_matches(ds[k], query),
        forall|j: int| 0 <= j < k ==> !hint_matches(#[trigger] ds[j], query),
    ensures
        first_hint_match(ds, query) == Some(k),
    decreases k,
{
    if k > 0 {
        let t = ds.drop_first();
        assert forall|j: int| 0 <= j < k - 1 implies !hint_matches(#[trigger] t[j], query) by {
            assert(t[j] == ds[j + 1]);
        }
        assert(t[k - 1] == ds[k]);
        lemma_first_hint_match_at(t, query, k - 1);
    }
}

proof fn lemma_first_hint_match_none(ds: Seq<InputDeviceInfo>, query: Seq<char>)
    requires
        forall|j: int| 0 <= j < ds.len() ==> !hint_matches(#[trigger] ds[j], query),
    ensures
        first_hint_match(ds, query) is None,
    decreases ds.len(),
{
    if ds.len() > 0 {
        let t = ds.drop_first();
        assert forall|j: int| 0 <= j < t.len() implies !hint_matches(#[trigger] t[j], query) by {
            assert(t[j] == ds[j + 1]);
        }
        lemma_first_hint_match_none(t, query);
    }
}

proof fn lemma_first_default_at(ds: Seq<InputDeviceInfo>, k: int)
    requires
        0 <= k < ds.len(),
        ds[k].is_default,
        forall|j: int| 0 <= j < k ==> !(#[trigger] ds[j]).is_default,
    ensures
        first_default(ds) == Some(k),
    decreases k,
{
    if k > 0 {
        let t = ds.drop_first();
        assert forall|j: int| 0 <= j < k - 1 implies !(#[trigger] t[j]).is_default by {
            assert(t[j] == ds[j + 1]);
        }
        assert(t[k - 1] == ds[k]);
        lemma_first_default_at(t, k - 1);
    }
}

proof fn lemma_first_default_none(ds: Seq<InputDeviceInfo>)
    requires
        forall|j: int| 0 <= j < ds.len() ==> !(#[trigger] ds[j]).is_default,
    ensures
        first_default(ds) is None,
    decreases ds.len(),
{
    if ds.len() > 0 {
        let t = ds.drop_first();
        assert forall|j: int| 0 <= j < t.len() implies !(#[trigger] t[j]).is_default by {
            assert(t[j] == ds[j + 1]);
        }
        lemma_first_default_none(t);
    }
}

proof fn lemma_best_loopback_bounds(ds: Seq<InputDeviceInfo>)
    ensures
        best_loopback(ds) matches Some(k) ==> 0 <= k < ds.len() && ds[k].is_loopback_candidate,
    decreases ds.len(),
{
    if ds.len() > 0 {
        lemma_best_loopback_bounds(ds.drop_last());
    }
}

/// What `first_hint_match` finds: the first matching device, or none when no device
/// matches.
proof fn lemma_first_hint_match_spec(ds: Seq<InputDeviceInfo>, query: Seq<char>)
    ensures
        match first_hint_match(ds, query) {
            Some(k) => 0 <= k < ds.len() && hint_matches(ds[k], query) && forall|j: int|
                0 <= j < k ==> !hint_matches(#[trigger] ds[j], query),
            None => forall|j: int| 0 <= j < ds.len() ==> !hint_matches(#[trigger] ds[j], query),
        },
    decreases ds.len(),
{
    if ds.len() > 0 {
        let t = ds.drop_first();
        lemma_first_hint_match_spec(t, query);
        if !hint_matches(ds[0], query) {
            match first_hint_match(t, query) {
                Some(k) => {
                    assert forall|j: int| 0 <= j < k + 1 implies !hint_matches(
                        #[trigger] ds[j],
                        query,
                    ) by {
                        if j > 0 {
                            assert(ds[j] == t[j - 1]);
                        }
                    }
                    assert(ds[k + 1] == t[k]);
                },
                None => {
                    assert forall|j: int| 0 <= j < ds.len() implies !hint_matches(
                        #[trigger] ds[j],
                        query,
                    ) by {
                        if j > 0 {
                            assert(ds[j] == t[j - 1]);
                        }
                    }
                },
            }
        }
    }
}

/// What `first_default` finds: the first default device, or none when there is none.
proof fn lemma_first_default_spec(ds: Seq<InputDeviceInfo>)
    ensures
        match first_default(ds) {
            Some(k) => 0 <= k < ds.len() && ds[k].is_default && forall|j: int|
                0 <= j < k ==> !(#[trigger] ds[j]).is_default,
            None => forall|j: int| 0 <= j < ds.len() ==> !(#[trigger] ds[j]).is_default,
        },
    decreases ds.len(),
{
    if ds.len() > 0 {
        let t = ds.drop_first();
        lemma_first_default_spec(t);
        if !ds[0].is_default {
            match first_default(t) {
                Some(k) => {
                    assert forall|j: int| 0 <= j < k + 1 implies !(#[trigger] ds[j]).is_default by {
                        if j > 0 {
                            assert(ds[j] == t[j - 1]);
                        }
                    }
                    assert(ds[k + 1] == t[k]);
                },
                None => {
                    assert forall|j: int| 0 <= j < ds.len() implies !(
                    #[trigger] ds[j]).is_default by {
                        if j > 0 {
                            assert(ds[j] == t[j - 1]);
                        }
                    }
                },
            }
        }
    }
}

/// What `best_loopback` finds: a loopback candidate whose score no other candidate
/// exceeds, and that every later candidate scores below (the last of the best), or none
/// when there is no candidate.
proof fn lemma_best_loopback_spec(ds: Seq<InputDeviceInfo>)
    ensures
        match best_loopback(ds) {
            Some(k) => 0 <= k < ds.len() && ds[k].is_loopback_candidate && (forall|j: int|
                0 <= j < ds.len() && (#[trigger] ds[j]).is_loopback_candidate
                    ==> ds[j].loopback_score <= ds[k].loopback_score) && (forall|j: int|
                k < j < ds.len() && (#[trigger] ds[j]).is_loopback_candidate
                    ==> ds[j].loopback_score < ds[k].loopback_score),
            None => forall|j: int| 0 <= j < ds.len() ==> !(#[trigger] ds[j]).is_loopback_candidate,
        },
    decreases ds.len(),
{
    if ds.len() > 0 {
        let p = ds.drop_last();
        let n = ds.len() - 1;
        lemma_best_loopback_spec(p);
        match best_loopback(ds) {
            Some(k) => {
                assert forall|j: int|
                    0 <= j < ds.len() && (#[trigger] ds[j]).is_loopback_candidate implies ds[j].loopback_score
                    <= ds[k].loopback_score by {
                    if j < n {
                        assert(p[j] == ds[j]);
                    }
                    if let Some(r) = best_loopback(p) {
                        assert(p[r] == ds[r]);
                    }
                }
                assert forall|j: int|
                    k < j < ds.len() && (#[trigger] ds[j]).is_loopback_candidate implies ds[j].loopback_score
                    < ds[k].loopback_score by {
                    assert(j < n + 1);
                    if j < n {
                        assert(p[j] == ds[j]);
                    }
                    if let Some(r) = best_loopback(p) {
                        assert(p[r] == ds[r]);
                    }
                }
            },
            None => {
                assert forall|j: int| 0 <= j < ds.len() implies !(
                #[trigger] ds[j]).is_loopback_candidate by {
                    if j < n {
                        assert(p[j] == ds[j]);
                    }
                }
            },
        }
    }
}

/// The selection order `hint > loopback > default > first`: on a non-empty device
/// list, a device matching the hint (the first such) wins; failing that, when loopback
/// is preferred, a loopback candidate with the highest score (the last of them on a
/// tie); failing that, the first
/// default device; failing all, the first device.
pub proof fn law_selection_precedence(ds: Seq<InputDeviceInfo>, hint: Option<Seq<char>>, prefer_loopback: bool)
    requires
        ds.len() > 0,
    ensures
        ({
            let q = lowercase(hint->0);
            let hinted = hint is Some && exists|j: int|
                0 <= j < ds.len() && #[trigger] hint_matches(ds[j], q);
            let looped = prefer_loopback && exists|j: int|
                0 <= j < ds.len() && (#[trigger] ds[j]).is_loopback_candidate;
            let defaulted = exists|j: int| 0 <= j < ds.len() && (#[trigger] ds[j]).is_default;
            selection(ds, hint, prefer_loopback) matches Some((k, rule)) && 0 <= k < ds.len() && if hinted {
                rule == SelectionRule::Hint && hint_matches(ds[k], q) && forall|j: int|
                    0 <= j < k ==> !hint_matches(#[trigger] ds[j], q)
            } else if looped {
                rule == SelectionRule::Loopback && ds[k].is_loopback_candidate && forall|j: int|
                    0 <= j < ds.len() && (#[trigger] ds[j]).is_loopback_candidate
                        ==> ds[j].loopback_score <= ds[k].loopback_score && (k < j ==> ds[j].loopback_score
                        < ds[k].loopback_score)
            } else if defaulted {
                rule == SelectionRule::Default && ds[k].is_default && forall|j: int|
                    0 <= j < k ==> !(#[trigger] ds[j]).is_default
            } else {
                rule == SelectionRule::First && k == 0
            }
        }),
{
    let q = lowercase(hint->0);
    lemma_first_hint_match_spec(ds, q);
    lemma_best_loopback_spec(ds);
    lemma_first_default_spec(ds);
}

/// The index of the first device that matches the lowercase query.
fn find_hint(devices: &[InputDeviceInfo], query: &str) -> (r: Option<usize>)
    ensures
        r matches Some(k) ==> first_hint_match(devices@, query@) == Some(k as int) && k < devices@.len(),
        r is None ==> first_hint_match(devices@, query@) is None,
{
    let mut i: usize = 0;
    while i < devices.len()
        invariant
            i <= devices@.len(),
            forall|j: int| 0 <= j < i ==> !hint_matches(#[trigger] devices@[j], query@),
        decreases devices.len() - i,
    {
        let name = to_lower(devices[i].name.as_str());
        let id = to_lower(devices[i].id.as_str());
        if str_contains(name.as_str(), query) || str_contains(id.as_str(), query) {
            proof {
                lemma_first_hint_match_at(devices@, query@, i as int);
            }
            return Some(i);
        }
        i = i + 1;
    }
    proof {
        lemma_first_hint_match_none(devices@, query@);
    }
    None
}

/// The index of the best loopback candidate.
fn find_best_loopback(devices: &[InputDeviceInfo]) -> (r: Option<usize>)
    ensures
        r matches Some(k) ==> best_loopback(devices@) == Some(k as int) && k < devices@.len(),
        r is None ==> best_loopback(devices@) is None,
{
    let mut best: Option<usize> = None;
    let mut i: usize = 0;
    while i < devices.len()
        invariant
            i <= devices@.len(),
            best matches Some(k) ==> best_loopback(devices@.take(i as int)) == Some(k as int)
                && k < i,
            best is None ==> best_loopback(devices@.take(i as int)) is None,
        decreases devices.len() - i,
    {
        let ghost pre = devices@.take(i as int);
        let ghost next = devices@.take(i + 1);
        assert(next.drop_last() =~= pre);
        assert(next.last() == devices@[i as int]);
        let d = &devices[i];
        if d.is_loopback_candidate {
            match best {
                None => {
                    best = Some(i);
                },
                Some(k) => {
                    assert(next[k as int] == devices@[k as int]);
                    if devices[k].loopback_score <= d.loopback_score {
                        best = Some(i);
                    }
                },
            }
        }
        i = i + 1;
    }
    assert(devices@.take(devices@.len() as int) =~= devices@);
    best
}

/// The index of the first default device.
fn find_default(devices: &[InputDeviceInfo]) -> (r: Option<usize>)
    ensures
        r matches Some(k) ==> first_default(devices@) == Some(k as int) && k < devices@.len(),
        r is None ==> first_default(devices@) is None,
{
    let mut i: usize = 0;
    while i < devices.len()
        invariant
            i <= devices@.len(),
            forall|j: int| 0 <= j < i ==> !(#[trigger] devices@[j]).is_default,
        decreases devices.len() - i,
    {
        if devices[i].is_default {
            proof {
                lemma_first_default_at(devices@, i as int);
            }
            return Some(i);
        }
        i = i + 1;
    }
    proof {
        lemma_first_default_none(devices@);
    }
    None
}

/// Chooses the input device to capture from.
///
/// The strategy is `hint > loopback > default > first`: a device whose name or id
/// contains the hint (ignoring case), else (when `prefer_loopback`) the loopback
/// candidate with the highest score, else the default device, else the first device.
pub fn select_input_device(devices: &[InputDeviceInfo], hint: Option<&str>, prefer_loopback: bool) -> (r: Option<SelectedInput>)
    ensures
        r is None <==> devices@.len() == 0,
        r matches Some(sel) ==> {
            let hint_view = match hint {
                Some(h) => Some(h@),
                None => None,
            };
            let (k, rule) = selection(devices@, hint_view, prefer_loopback)->0;
            &&& sel.info == devices@[k]
            &&& sel.reason@ == reason_text(
                rule,
                match hint {
                    Some(h) => h@,
                    None => Seq::empty(),
                },
                devices@[k].loopback_score as int,
            )
        },
{
    if devices.len() == 0 {
        return None;
    }
    let ghost hint_view = match hint {
        Some(h) => Some(h@),
        None => None,
    };
    if let Some(hint_text) = hint {
        let query = to_lower(hint_text);
        match find_hint(devices, query.as_str()) {
            Some(k) => {
                let reason = concat3("selected by explicit input hint '", hint_text, "'");
                return Some(SelectedInput { info: devices[k].duplicate(), reason });
            },
            None => {},
        }
    }
    if prefer_loopback {
        match find_best_loopback(devices) {
            Some(k) => {
                proof {
                    lemma_best_loopback_bounds(devices@);
                }
                let mut reason = to_owned_string("selected best loopback candidate (score=");
                push_signed_decimal(&mut reason, devices[k].loopback_score);
                push_str(&mut reason, ")");
                return Some(SelectedInput { info: devices[k].duplicate(), reason });
            },
            None => {},
        }
    }
    match find_default(devices) {
        Some(k) => {
            let reason = to_owned_string("selected default input device");
            Some(SelectedInput { info: devices[k].duplicate(), reason })
        },
        None => {
            let reason = to_owned_string("selected first available input device");
            Some(SelectedInput { info: devices[0].duplicate(), reason })
        },
    }
}

} // verus!
