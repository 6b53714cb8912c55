//! The decisions behind the visual capture commands: which processes a split capture
//! records, the file each one is written to, and the selectors of an app capture.
use vstd::prelude::*;

use crate::os::TargetOs;
use crate::sorted_map::{
    apply_inserts, empty_text_map, insert_text, represents, sorted_entries, text_values,
};
use crate::text::{
    concat3, contains_seq, decimal, is_ascii_alnum, is_ascii_alphanumeric, is_digit,
    is_white_space, is_whitespace, join_strings, joined, lemma_decimal_digits,
    lemma_decimal_injective, lowercase, push_char, push_decimal, push_str, str_contains, to_lower,
    to_owned_string, trim_by, trim_char, views,
};
use crate::video::backend::{ActiveVisualProcessInfo, VideoCaptureReport, VisualProcessSelector};
use crate::video::native_platform::NativePlatformVideoBackend;
use crate::video::registry::build_video_backend;

verus! {

// ---------------------------------------------------------------------------
// File names.
// ---------------------------------------------------------------------------

/// What one character of a name becomes in a file name: ASCII letters, digits, `-` and
/// `_` stay, white space becomes `_`, anything else is dropped.
pub open spec fn sanitize_char(c: char) -> Seq<char> {
    if is_ascii_alnum(c) || c == '-' || c == '_' {
        seq![c]
    } else if is_white_space(c) {
        seq!['_']
    } else {
        Seq::empty()
    }
}

/// Every character of `s` mapped by `sanitize_char`, in order.
pub open spec fn sanitize_chars(s: Seq<char>) -> Seq<char>
    decreases s.len(),
{
    if s.len() == 0 {
        Seq::empty()
    } else {
        sanitize_chars(s.drop_last()) + sanitize_char(s.last())
    }
}

/// The file-name form of a process name: the mapped characters without leading and
/// trailing `_`, or `app` when nothing is left.
pub open spec fn sanitized(s: Seq<char>) -> Seq<char> {
    let t = trim_by(sanitize_chars(s), |c: char| c == '_');
    if t.len() == 0 {
        "app"@
    } else {
        t
    }
}

/// A character that may stand in a sanitized name.
pub open spec fn file_name_char(c: char) -> bool {
    is_ascii_alnum(c) || c == '-' || c == '_'
}

proof fn lemma_sanitize_chars_allowed(s: Seq<char>)
    ensures
        forall|i: int| 0 <= i < sanitize_chars(s).len() ==> file_name_char(#[trigger] sanitize_chars(s)[i]),
    decreases s.len(),
{
    if s.len() > 0 {
        lemma_sanitize_chars_allowed(s.drop_last());
        let a = sanitize_chars(s.drop_last());
        let b = sanitize_char(s.last());
        assert forall|i: int| 0 <= i < (a + b).len() implies file_name_char(#[trigger] (a + b)[i]) by {
            if i >= a.len() {
                assert((a + b)[i] == b[i - a.len()]);
            }
        }
    }
}

proof fn lemma_trim_keeps_chars(s: Seq<char>, f: spec_fn(char) -> bool, g: spec_fn(char) -> bool)
    requires
        forall|i: int| 0 <= i < s.len() ==> g(#[trigger] s[i]),
    ensures
        forall|i: int| 0 <= i < trim_by(s, f).len() ==> g(#[trigger] trim_by(s, f)[i]),
{
    lemma_trim_start_keeps(s, f, g);
    lemma_trim_end_keeps(crate::text::trim_start_by(s, f), f, g);
}

proof fn lemma_trim_start_keeps(s: Seq<char>, f: spec_fn(char) -> bool, g: spec_fn(char) -> bool)
    requires
        forall|i: int| 0 <= i < s.len() ==> g(#[trigger] s[i]),
    ensures
        forall|i: int| 0 <= i < crate::text::trim_start_by(s, f).len() ==> g(
            #[trigger] crate::text::trim_start_by(s, f)[i],
        ),
    decreases s.len(),
{
    if s.len() > 0 && f(s[0]) {
        let t = s.drop_first();
        assert forall|i: int| 0 <= i < t.len() implies g(#[trigger] t[i]) by {
            assert(t[i] == s[i + 1]);
        }
        lemma_trim_start_keeps(t, f, g);
        assert(crate::text::trim_start_by(s, f) == crate::text::trim_start_by(t, f));
    } else {
        assert(crate::text::trim_start_by(s, f) == s);
    }
}

proof fn lemma_trim_end_keeps(s: Seq<char>, f: spec_fn(char) -> bool, g: spec_fn(char) -> bool)
    requires
        forall|i: int| 0 <= i < s.len() ==> g(#[trigger] s[i]),
    ensures
        forall|i: int| 0 <= i < crate::text::trim_end_by(s, f).len() ==> g(
            #[trigger] crate::text::trim_end_by(s, f)[i],
        ),
    decreases s.len(),
{
    if s.len() > 0 && f(s.last()) {
        let t = s.drop_last();
        assert forall|i: int| 0 <= i < t.len() implies g(#[trigger] t[i]) by {
            assert(t[i] == s[i]);
        }
        lemma_trim_end_keeps(t, f, g);
        assert(crate::text::trim_end_by(s, f) == crate::text::trim_end_by(t, f));
    } else {
        assert(crate::text::trim_end_by(s, f) == s);
    }
}

proof fn lemma_sanitize_chars_keeps(s: Seq<char>)
    requires
        forall|i: int| 0 <= i < s.len() ==> file_name_char(#[trigger] s[i]),
    ensures
        sanitize_chars(s) == s,
    decreases s.len(),
{
    if s.len() > 0 {
        let p = s.drop_last();
        assert forall|i: int| 0 <= i < p.len() implies file_name_char(#[trigger] p[i]) by {
            assert(p[i] == s[i]);
        }
        lemma_sanitize_chars_keeps(p);
        assert(file_name_char(s[s.len() - 1]));
        assert(sanitize_char(s.last()) == seq![s.last()]);
        assert(p + seq![s.last()] =~= s);
    }
}

/// The shape of a sanitized name: non-empty, file-name characters only, no `_` at
/// either end.
proof fn lemma_sanitized_shape(s: Seq<char>)
    ensures
        sanitized(s).len() > 0,
        forall|i: int| 0 <= i < sanitized(s).len() ==> file_name_char(#[trigger] sanitized(s)[i]),
        sanitized(s)[0] != '_',
        sanitized(s).last() != '_',
{
    let f = |c: char| c == '_';
    lemma_sanitize_chars_allowed(s);
    lemma_trim_keeps_chars(sanitize_chars(s), f, |c: char| file_name_char(c));
    crate::text::lemma_trim_by_bounds(sanitize_chars(s), f);
    reveal_strlit("app");
}

/// Sanitizing a sanitized name changes nothing.
pub proof fn law_sanitize_idempotent(s: Seq<char>)
    ensures
        sanitized(sanitized(s)) == sanitized(s),
{
    let t = sanitized(s);
    let f = |c: char| c == '_';
    lemma_sanitized_shape(s);
    lemma_sanitize_chars_keeps(t);
    crate::text::lemma_trim_start_at(t, f, 0);
    assert(t.subrange(0, t.len() as int) =~= t);
    crate::text::lemma_trim_end_at(t, f, t.len() as int);
}

proof fn lemma_sanitize_chars_concat(a: Seq<char>, b: Seq<char>)
    ensures
        sanitize_chars(a + b) == sanitize_chars(a) + sanitize_chars(b),
    decreases b.len(),
{
    if b.len() == 0 {
        assert(a + b =~= a);
        assert(sanitize_chars(a) + sanitize_chars(b) =~= sanitize_chars(a));
    } else {
        let p = b.drop_last();
        lemma_sanitize_chars_concat(a, p);
        assert((a + b).drop_last() =~= a + p);
        assert((a + b).last() == b.last());
        assert(sanitize_chars(a) + sanitize_chars(p) + sanitize_char(b.last()) =~= sanitize_chars(a) + (
        sanitize_chars(p) + sanitize_char(b.last())));
    }
}

/// A name that is already a file-name stem (non-empty, only ASCII letters, digits, `-`
/// and `_`, no `_` at either end) is kept as it is.
pub proof fn law_sanitize_keeps_stems(s: Seq<char>)
    requires
        s.len() > 0,
        forall|i: int| 0 <= i < s.len() ==> file_name_char(#[trigger] s[i]),
        s[0] != '_',
        s.last() != '_',
    ensures
        sanitized(s) == s,
{
    lemma_sanitize_chars_keeps(s);
    crate::text::lemma_trim_by_unchanged(s, |c: char| c == '_');
}

/// A white-space character in a name counts as `_`.
pub proof fn law_sanitize_white_space_as_underscore(a: Seq<char>, b: Seq<char>, w: char)
    requires
        is_white_space(w),
    ensures
        sanitized(a + seq![w] + b) == sanitized(a + seq!['_'] + b),
{
    lemma_sanitize_chars_concat(a + seq![w], b);
    lemma_sanitize_chars_concat(a, seq![w]);
    lemma_sanitize_chars_concat(a + seq!['_'], b);
    lemma_sanitize_chars_concat(a, seq!['_']);
    assert(seq![w].drop_last() =~= Seq::<char>::empty());
    assert(seq!['_'].drop_last() =~= Seq::<char>::empty());
    assert(seq![w].last() == w);
    assert(sanitize_chars(Seq::<char>::empty()) == Seq::<char>::empty());
    assert(sanitize_char(w) == seq!['_']);
    assert(sanitize_chars(seq![w]) == sanitize_chars(Seq::<char>::empty()) + sanitize_char(w));
    assert(sanitize_chars(seq![w]) =~= seq!['_']);
    assert(seq!['_'].last() == '_');
    assert(sanitize_chars(seq!['_']) == sanitize_chars(Seq::<char>::empty()) + sanitize_char('_'));
    assert(sanitize_chars(seq!['_']) =~= seq!['_']);
}

/// A character that is neither a file-name character nor white space is dropped.
pub proof fn law_sanitize_drops_other_chars(a: Seq<char>, b: Seq<char>, c: char)
    requires
        !file_name_char(c),
        !is_white_space(c),
    ensures
        sanitized(a + seq![c] + b) == sanitized(a + b),
{
    lemma_sanitize_chars_concat(a + seq![c], b);
    lemma_sanitize_chars_concat(a, seq![c]);
    lemma_sanitize_chars_concat(a, b);
    assert(seq![c].drop_last() =~= Seq::<char>::empty());
    assert(seq![c].last() == c);
    assert(sanitize_chars(Seq::<char>::empty()) == Seq::<char>::empty());
    assert(sanitize_chars(seq![c]) == sanitize_chars(Seq::<char>::empty()) + sanitize_char(c));
    assert(sanitize_chars(seq![c]) =~= Seq::<char>::empty());
    assert(sanitize_chars(a) + Seq::<char>::empty() =~= sanitize_chars(a));
}

/// Turns a process name into a safe file-name stem.
///
/// The result is never empty, holds only ASCII letters, digits, `-` and `_`, and neither
/// starts nor ends with `_`.
pub fn sanitize_name(name: &str) -> (r: String)
    ensures
        r@ == sanitized(name@),
        r@.len() > 0,
        forall|i: int| 0 <= i < r@.len() ==> file_name_char(#[trigger] r@[i]),
        r@[0] != '_',
        r@.last() != '_',
{
    let v = crate::text::chars_of(name);
    let mut out = String::new();
    let mut i: usize = 0;
    while i < v.len()
        invariant
            i <= v.len(),
            v@ == name@,
            out@ == sanitize_chars(v@.take(i as int)),
        decreases v.len() - i,
    {
        let ch = v[i];
        let ghost before = out@;
        if is_ascii_alphanumeric(ch) || ch == '-' || ch == '_' {
            push_char(&mut out, ch);
        } else if is_whitespace(ch) {
            push_char(&mut out, '_');
        }
        proof {
            let t = v@.take(i + 1);
            assert(t.drop_last() =~= v@.take(i as int));
            assert(t.last() == ch);
            assert(out@ =~= before + sanitize_char(ch));
        }
        i = i + 1;
    }
    assert(v@.take(v@.len() as int) =~= v@);
    let trimmed = trim_char(out.as_str(), '_');
    proof {
        let f = |c: char| c == '_';
        lemma_sanitize_chars_allowed(name@);
        lemma_trim_keeps_chars(sanitize_chars(name@), f, |c: char| file_name_char(c));
        crate::text::lemma_trim_by_bounds(sanitize_chars(name@), f);
    }
    if trimmed.as_str().is_empty() {
        proof {
            reveal_strlit("app");
        }
        to_owned_string("app")
    } else {
        trimmed
    }
}

// ---------------------------------------------------------------------------
// Process selection for split capture.
// ---------------------------------------------------------------------------

/// Every active process, in order (the `--all-active` group).
pub open spec fn all_active_inserts(active: Seq<ActiveVisualProcessInfo>) -> Seq<(u32, Seq<char>)>
    decreases active.len(),
{
    if active.len() == 0 {
        Seq::empty()
    } else {
        all_active_inserts(active.drop_last()).push((active.last().pid, active.last().name@))
    }
}

/// The name of the first active process with this pid.
pub open spec fn active_name_of(active: Seq<ActiveVisualProcessInfo>, pid: u32) -> Option<Seq<char>>
    decreases active.len(),
{
    if active.len() == 0 {
        None
    } else if active[0].pid == pid {
        Some(active[0].name@)
    } else {
        active_name_of(active.drop_first(), pid)
    }
}

/// The name recorded for an explicitly requested pid: the active process's name, or
/// `pid-<pid>` when no active process has it.
pub open spec fn pid_label(active: Seq<ActiveVisualProcessInfo>, pid: u32) -> Seq<char> {
    match active_name_of(active, pid) {
        Some(name) => name,
        None => "pid-"@ + decimal(pid as nat),
    }
}

/// The explicitly requested pids, in order (the `--pid` group).
pub open spec fn pid_inserts(active: Seq<ActiveVisualProcessInfo>, pids: Seq<u32>) -> Seq<(u32, Seq<char>)>
    decreases pids.len(),
{
    if pids.len() == 0 {
        Seq::empty()
    } else {
        pid_inserts(active, pids.drop_last()).push((pids.last(), pid_label(active, pids.last())))
    }
}

/// Some query, lowercased, occurs in the lowercase process name.
pub open spec fn matches_any_query(lower_name: Seq<char>, names: Seq<String>) -> bool {
    exists|j: int| 0 <= j < names.len() && contains_seq(lower_name, lowercase((#[trigger] names[j])@))
}

/// The active processes whose names match a query, in order (the `--name` group).
pub open spec fn name_inserts(active: Seq<ActiveVisualProcessInfo>, names: Seq<String>) -> Seq<(u32, Seq<char>)>
    decreases active.len(),
{
    if active.len() == 0 {
        Seq::empty()
    } else if matches_any_query(lowercase(active.last().name@), names) {
        name_inserts(active.drop_last(), names).push((active.last().pid, active.last().name@))
    } else {
        name_inserts(active.drop_last(), names)
    }
}

/// The processes a split capture records, by pid: first every active process (with
/// `--all-active`), then each requested pid, then each active process whose name
/// matches a query; a later entry for the same pid replaces the earlier name.
pub open spec fn selected_processes(
    active: Seq<ActiveVisualProcessInfo>,
    pids: Seq<u32>,
    names: Seq<String>,
    all_active: bool,
) -> Map<u32, Seq<char>> {
    let m0 = apply_inserts(
        Map::empty(),
        if all_active {
            all_active_inserts(active)
        } else {
            Seq::empty()
        },
    );
    let m1 = apply_inserts(m0, pid_inserts(active, pids));
    apply_inserts(m1, name_inserts(active, names))
}

/// The name of the first active process with this pid.
fn find_active_name(active: &[ActiveVisualProcessInfo], pid: u32) -> (r: Option<String>)
    ensures
        match r {
            Some(n) => active_name_of(active@, pid) == Some(n@),
            None => active_name_of(active@, pid) is None,
        },
{
    let mut i: usize = 0;
    assert(active@.skip(0) =~= active@);
    while i < active.len()
        invariant
            i <= active@.len(),
            active_name_of(active@, pid) == active_name_of(active@.skip(i as int), pid),
        decreases active.len() - i,
    {
        let ghost rest = active@.skip(i as int);
        assert(rest.drop_first() =~= active@.skip(i + 1));
        assert(rest[0] == active@[i as int]);
        if active[i].pid == pid {
            return Some(active[i].name.clone());
        }
        i = i + 1;
    }
    None
}

/// Whether some query, lowercased, occurs in `lower_name`.
fn matches_any(lower_name: &str, names: &Vec<String>) -> (r: bool)
    ensures
        r == matches_any_query(lower_name@, names@),
{
    let mut j: usize = 0;
    while j < names.len()
        invariant
            j <= names@.len(),
            forall|k: int| 0 <= k < j ==> !contains_seq(lower_name@, lowercase((#[trigger] names@[k])@)),
        decreases names.len() - j,
    {
        let q = to_lower(names[j].as_str());
        if str_contains(lower_name, q.as_str()) {
            return true;
        }
        j = j + 1;
    }
    false
}

/// Some insert of `ops` is for key `k`.
pub open spec fn inserts_key(ops: Seq<(u32, Seq<char>)>, k: u32) -> bool {
    exists|i: int| 0 <= i < ops.len() && (#[trigger] ops[i]).0 == k
}

/// Some active process has pid `k`.
pub open spec fn active_pid(active: Seq<ActiveVisualProcessInfo>, k: u32) -> bool {
    exists|j: int| 0 <= j < active.len() && (#[trigger] active[j]).pid == k
}

proof fn lemma_apply_inserts_keys(m: Map<u32, Seq<char>>, ops: Seq<(u32, Seq<char>)>, k: u32)
    ensures
        apply_inserts(m, ops).contains_key(k) <==> m.contains_key(k) || inserts_key(ops, k),
    decreases ops.len(),
{
    if ops.len() > 0 {
        let p = ops.drop_last();
        lemma_apply_inserts_keys(m, p, k);
        if inserts_key(p, k) {
            let i = choose|i: int| 0 <= i < p.len() && (#[trigger] p[i]).0 == k;
            assert(ops[i] == p[i]);
        }
        if inserts_key(ops, k) && ops.last().0 != k {
            let i = choose|i: int| 0 <= i < ops.len() && (#[trigger] ops[i]).0 == k;
            assert(p[i] == ops[i]);
        }
        if ops.last().0 == k {
            assert(ops[ops.len() - 1].0 == k);
        }
    }
}

proof fn lemma_all_active_inserts(active: Seq<ActiveVisualProcessInfo>)
    ensures
        all_active_inserts(active).len() == active.len(),
        forall|i: int| 0 <= i < active.len() ==> (#[trigger] all_active_inserts(active)[i]).0
            == active[i].pid,
    decreases active.len(),
{
    if active.len() > 0 {
        lemma_all_active_inserts(active.drop_last());
    }
}

proof fn lemma_pid_inserts(active: Seq<ActiveVisualProcessInfo>, pids: Seq<u32>)
    ensures
        pid_inserts(active, pids).len() == pids.len(),
        forall|i: int| 0 <= i < pids.len() ==> (#[trigger] pid_inserts(active, pids)[i]).0 == pids[i],
    decreases pids.len(),
{
    if pids.len() > 0 {
        lemma_pid_inserts(active, pids.drop_last());
    }
}

proof fn lemma_name_inserts(active: Seq<ActiveVisualProcessInfo>, names: Seq<String>)
    ensures
        forall|i: int| 0 <= i < name_inserts(active, names).len() ==> active_pid(
            active,
            (#[trigger] name_inserts(active, names)[i]).0,
        ),
    decreases active.len(),
{
    if active.len() > 0 {
        let p = active.drop_last();
        lemma_name_inserts(p, names);
        let ops = name_inserts(active, names);
        assert forall|i: int| 0 <= i < ops.len() implies active_pid(active, (#[trigger] ops[i]).0) by {
            let prev = name_inserts(p, names);
            if i < prev.len() {
                assert(ops[i] == prev[i]);
                let j = choose|j: int| 0 <= j < p.len() && (#[trigger] p[j]).pid == prev[i].0;
                assert(active[j] == p[j]);
            } else {
                assert(active[active.len() - 1].pid == ops[i].0);
            }
        }
    }
}

/// Which pids a split capture records: every requested pid; with `all_active`, every
/// active process; and no pid that is neither requested nor active.
pub proof fn law_selected_processes_keys(
    active: Seq<ActiveVisualProcessInfo>,
    pids: Seq<u32>,
    names: Seq<String>,
    all_active: bool,
)
    ensures
        forall|i: int| 0 <= i < pids.len() ==> selected_processes(active, pids, names, all_active).contains_key(
            #[trigger] pids[i],
        ),
        all_active ==> forall|j: int| 0 <= j < active.len() ==> selected_processes(
            active,
            pids,
            names,
            all_active,
        ).contains_key((#[trigger] active[j]).pid),
        forall|k: u32| #[trigger] selected_processes(active, pids, names, all_active).contains_key(k)
            ==> pids.contains(k) || active_pid(active, k),
{
    let g0 = if all_active {
        all_active_inserts(active)
    } else {
        Seq::empty()
    };
    let m0 = apply_inserts(Map::empty(), g0);
    let g1 = pid_inserts(active, pids);
    let m1 = apply_inserts(m0, g1);
    let g2 = name_inserts(active, names);
    let m2 = apply_inserts(m1, g2);
    lemma_all_active_inserts(active);
    lemma_pid_inserts(active, pids);
    lemma_name_inserts(active, names);
    assert forall|k: u32| m2.contains_key(k) <==> (g0.len() > 0 && inserts_key(g0, k)) || inserts_key(g1, k)
        || inserts_key(g2, k) by {
        lemma_apply_inserts_keys(Map::empty(), g0, k);
        lemma_apply_inserts_keys(m0, g1, k);
        lemma_apply_inserts_keys(m1, g2, k);
    }
    assert forall|i: int| 0 <= i < pids.len() implies m2.contains_key(#[trigger] pids[i]) by {
        assert(g1[i].0 == pids[i]);
        assert(inserts_key(g1, pids[i]));
    }
    if all_active {
        assert forall|j: int| 0 <= j < active.len() implies m2.contains_key((#[trigger] active[j]).pid) by {
            assert(g0[j].0 == active[j].pid);
            assert(inserts_key(g0, active[j].pid));
        }
    }
    assert forall|k: u32| #[trigger] m2.contains_key(k) implies pids.contains(k) || active_pid(active, k) by {
        if inserts_key(g1, k) {
            let i = choose|i: int| 0 <= i < g1.len() && (#[trigger] g1[i]).0 == k;
            assert(pids[i] == k);
        } else if inserts_key(g2, k) {
            let i = choose|i: int| 0 <= i < g2.len() && (#[trigger] g2[i]).0 == k;
            assert(active_pid(active, g2[i].0));
        } else if g0.len() > 0 && inserts_key(g0, k) {
            let i = choose|i: int| 0 <= i < g0.len() && (#[trigger] g0[i]).0 == k;
            assert(active[i].pid == k);
        }
    }
}

proof fn lemma_name_inserts_exact(active: Seq<ActiveVisualProcessInfo>, names: Seq<String>, k: u32)
    ensures
        inserts_key(name_inserts(active, names), k) <==> exists|j: int, q: int|
            0 <= j < active.len() && 0 <= q < names.len() && (#[trigger] active[j]).pid == k
                && contains_seq(lowercase(active[j].name@), lowercase((#[trigger] names[q])@)),
    decreases active.len(),
{
    if active.len() > 0 {
        let p = active.drop_last();
        let n = active.len() - 1;
        lemma_name_inserts_exact(p, names, k);
        let ops = name_inserts(active, names);
        let prev = name_inserts(p, names);
        assert(active[n] == active.last());
        if inserts_key(ops, k) {
            let i = choose|i: int| 0 <= i < ops.len() && (#[trigger] ops[i]).0 == k;
            if i < prev.len() {
                assert(ops[i] == prev[i]);
                let (j, q) = choose|j: int, q: int|
                    0 <= j < p.len() && 0 <= q < names.len() && (#[trigger] p[j]).pid == k
                        && contains_seq(lowercase(p[j].name@), lowercase((#[trigger] names[q])@));
                assert(active[j] == p[j]);
            } else {
                let q = choose|q: int|
                    0 <= q < names.len() && contains_seq(lowercase(active.last().name@), lowercase((#[trigger] names[q])@));
                assert(active[n].pid == k);
            }
        }
        if exists|j: int, q: int|
            0 <= j < active.len() && 0 <= q < names.len() && (#[trigger] active[j]).pid == k
                && contains_seq(lowercase(active[j].name@), lowercase((#[trigger] names[q])@)) {
            let (j, q) = choose|j: int, q: int|
                0 <= j < active.len() && 0 <= q < names.len() && (#[trigger] active[j]).pid == k
                    && contains_seq(lowercase(active[j].name@), lowercase((#[trigger] names[q])@));
            if j == n {
                assert(matches_any_query(lowercase(active.last().name@), names));
                assert(ops[ops.len() - 1].0 == k);
            } else {
                assert(p[j] == active[j]);
                let i = choose|i: int| 0 <= i < prev.len() && (#[trigger] prev[i]).0 == k;
                if matches_any_query(lowercase(active.last().name@), names) {
                    assert(ops[i] == prev[i]);
                }
            }
        }
    }
}

/// The `--name` queries of a split capture: every active process whose lowercase name
/// contains the lowercase form of any one of the queries is recorded; and a pid is
/// recorded only when it was requested, when `all_active` takes every active process
/// and it is one, or when an active process with that pid matches some query.
pub proof fn law_selected_processes_by_name(
    active: Seq<ActiveVisualProcessInfo>,
    pids: Seq<u32>,
    names: Seq<String>,
    all_active: bool,
)
    ensures
        forall|j: int, q: int|
            0 <= j < active.len() && 0 <= q < names.len() && #[trigger] contains_seq(
                lowercase(active[j].name@),
                lowercase(names[q]@),
            ) ==> selected_processes(active, pids, names, all_active).contains_key(active[j].pid),
        forall|k: u32| #[trigger] selected_processes(active, pids, names, all_active).contains_key(k)
            ==> pids.contains(k) || (all_active && active_pid(active, k)) || exists|j: int, q: int|
            0 <= j < active.len() && 0 <= q < names.len() && (#[trigger] active[j]).pid == k
                && contains_seq(lowercase(active[j].name@), lowercase((#[trigger] names[q])@)),
{
    let g0 = if all_active {
        all_active_inserts(active)
    } else {
        Seq::empty()
    };
    let m0 = apply_inserts(Map::empty(), g0);
    let g1 = pid_inserts(active, pids);
    let m1 = apply_inserts(m0, g1);
    let g2 = name_inserts(active, names);
    let m2 = apply_inserts(m1, g2);
    lemma_all_active_inserts(active);
    lemma_pid_inserts(active, pids);
    assert forall|k: u32| m2.contains_key(k) <==> (g0.len() > 0 && inserts_key(g0, k)) || inserts_key(g1, k)
        || inserts_key(g2, k) by {
        lemma_apply_inserts_keys(Map::empty(), g0, k);
        lemma_apply_inserts_keys(m0, g1, k);
        lemma_apply_inserts_keys(m1, g2, k);
    }
    assert forall|j: int, q: int|
        0 <= j < active.len() && 0 <= q < names.len() && #[trigger] contains_seq(
            lowercase(active[j].name@),
            lowercase(names[q]@),
        ) implies m2.contains_key(active[j].pid) by {
        lemma_name_inserts_exact(active, names, active[j].pid);
    }
    assert forall|k: u32| #[trigger] m2.contains_key(k) implies pids.contains(k) || (all_active && active_pid(
        active,
        k,
    )) || exists|j: int, q: int|
        0 <= j < active.len() && 0 <= q < names.len() && (#[trigger] active[j]).pid == k
            && contains_seq(lowercase(active[j].name@), lowercase((#[trigger] names[q])@)) by {
        lemma_name_inserts_exact(active, names, k);
        if inserts_key(g1, k) {
            let i = choose|i: int| 0 <= i < g1.len() && (#[trigger] g1[i]).0 == k;
            assert(pids[i] == k);
        } else if g0.len() > 0 && inserts_key(g0, k) {
            let i = choose|i: int| 0 <= i < g0.len() && (#[trigger] g0[i]).0 == k;
            assert(active[i].pid == k);
        }
    }
}

/// Chooses the processes of a split capture, as `(pid, name)` pairs sorted by pid.
///
/// With `all_active` every active process is taken; each pid in `pids` is taken under its
/// active name (or `pid-<pid>` when no active process has it); each active process whose
/// name contains one of `names` (ignoring case) is taken. A pid occurs once, with the
/// name given last.
pub fn select_processes(
    active: &[ActiveVisualProcessInfo],
    pids: Vec<u32>,
    names: Vec<String>,
    all_active: bool,
) -> (r: Vec<(u32, String)>)
    ensures
        represents(r@, selected_processes(active@, pids@, names@, all_active)),
{
    let mut selected = empty_text_map();
    let ghost empty = Map::<u32, Seq<char>>::empty();
    let ghost g0 = if all_active {
        all_active_inserts(active@)
    } else {
        Seq::empty()
    };
    if all_active {
        let mut i: usize = 0;
        while i < active.len()
            invariant
                i <= active@.len(),
                text_values(selected@) == apply_inserts(empty, all_active_inserts(active@.take(i as int))),
            decreases active.len() - i,
        {
            let ghost t = active@.take(i + 1);
            assert(t.drop_last() =~= active@.take(i as int));
            let ghost ops = all_active_inserts(active@.take(i as int));
            let ghost ops2 = all_active_inserts(t);
            assert(ops2.drop_last() =~= ops);
            insert_text(&mut selected, active[i].pid, active[i].name.clone());
            i = i + 1;
        }
        assert(active@.take(active@.len() as int) =~= active@);
    }
    let ghost m0 = apply_inserts(empty, g0);
    assert(text_values(selected@) == m0);
    let mut i: usize = 0;
    while i < pids.len()
        invariant
            i <= pids@.len(),
            text_values(selected@) == apply_inserts(m0, pid_inserts(active@, pids@.take(i as int))),
        decreases pids.len() - i,
    {
        let pid = pids[i];
        let ghost t = pids@.take(i + 1);
        assert(t.drop_last() =~= pids@.take(i as int));
        let ghost ops = pid_inserts(active@, pids@.take(i as int));
        let label = match find_active_name(active, pid) {
            Some(name) => name,
            None => {
                let mut l = to_owned_string("pid-");
                push_decimal(&mut l, pid as u64);
                l
            },
        };
        assert(pid_inserts(active@, t).drop_last() =~= ops);
        insert_text(&mut selected, pid, label);
        i = i + 1;
    }
    assert(pids@.take(pids@.len() as int) =~= pids@);
    let ghost m1 = apply_inserts(m0, pid_inserts(active@, pids@));
    let mut i: usize = 0;
    while i < active.len()
        invariant
            i <= active@.len(),
            text_values(selected@) == apply_inserts(m1, name_inserts(active@.take(i as int), names@)),
        decreases active.len() - i,
    {
        let ghost t = active@.take(i + 1);
        assert(t.drop_last() =~= active@.take(i as int));
        let ghost ops = name_inserts(active@.take(i as int), names@);
        let lowered = to_lower(active[i].name.as_str());
        if matches_any(lowered.as_str(), &names) {
            assert(name_inserts(t, names@).drop_last() =~= ops);
            insert_text(&mut selected, active[i].pid, active[i].name.clone());
        } else {
            assert(name_inserts(t, names@) == ops);
        }
        i = i + 1;
    }
    assert(active@.take(active@.len() as int) =~= active@);
    sorted_entries(&selected)
}

/// The file name of one process's capture in a split capture: `<stem>-<pid>.mp4`.
pub open spec fn split_file_name_text(name: Seq<char>, pid: u32) -> Seq<char> {
    sanitized(name) + "-"@ + decimal(pid as nat) + ".mp4"@
}

/// Two processes with different pids never share a capture file in a split capture:
/// the file name ends with `-<pid>.mp4`, and a pid's digits hold no `-`.
pub proof fn law_split_file_names_distinct(n1: Seq<char>, p1: u32, n2: Seq<char>, p2: u32)
    requires
        p1 != p2,
    ensures
        split_file_name_text(n1, p1) != split_file_name_text(n2, p2),
{
    reveal_strlit("-");
    reveal_strlit(".mp4");
    let d1 = decimal(p1 as nat);
    let d2 = decimal(p2 as nat);
    lemma_decimal_digits(p1 as nat);
    lemma_decimal_digits(p2 as nat);
    let a1 = sanitized(n1) + "-"@;
    let a2 = sanitized(n2) + "-"@;
    let f1 = a1 + d1 + ".mp4"@;
    let f2 = a2 + d2 + ".mp4"@;
    assert(f1 == split_file_name_text(n1, p1));
    assert(f2 == split_file_name_text(n2, p2));
    if f1 == f2 {
        let len = f1.len();
        assert(a1[a1.len() - 1] == '-');
        assert(a2[a2.len() - 1] == '-');
        if d1.len() == d2.len() {
            assert forall|i: int| 0 <= i < d1.len() implies d1[i] == d2[i] by {
                assert(f1[a1.len() + i] == d1[i]);
                assert(f2[a2.len() + i] == d2[i]);
            }
            assert(d1 =~= d2);
            lemma_decimal_injective(p1 as nat, p2 as nat);
        } else if d1.len() < d2.len() {
            let k = a1.len() - 1;
            assert(f1[k] == '-');
            let j = k - a2.len();
            assert(0 <= j < d2.len());
            assert(f2[k] == d2[j]);
            assert(is_digit(d2[j]));
        } else {
            let k = a2.len() - 1;
            assert(f2[k] == '-');
            let j = k - a1.len();
            assert(0 <= j < d1.len());
            assert(f1[k] == d1[j]);
            assert(is_digit(d1[j]));
        }
    }
}

/// Names the file that one process's capture is written to.
pub fn split_file_name(name: &str, pid: u32) -> (r: String)
    ensures
        r@ == split_file_name_text(name@, pid),
{
    let mut r = sanitize_name(name);
    push_str(&mut r, "-");
    push_decimal(&mut r, pid as u64);
    push_str(&mut r, ".mp4");
    r
}

/// One planned capture of a split capture: the pid, the process name, the file name.
pub struct SplitTarget {
    pub pid: u32,
    pub name: String,
    pub file_name: String,
}

/// Plans a split capture: the selected processes in pid order, each with its file name;
/// refused when nothing is selected.
pub fn apps_split_plan(
    active: &[ActiveVisualProcessInfo],
    pids: Vec<u32>,
    names: Vec<String>,
    all_active: bool,
) -> (r: Result<Vec<SplitTarget>, String>)
    ensures
        ({
            let m = selected_processes(active@, pids@, names@, all_active);
            match r {
                Ok(plan) => exists|sel: Seq<(u32, String)>| {
                    &&& represents(sel, m)
                    &&& sel.len() > 0
                    &&& plan@.len() == sel.len()
                    &&& forall|i: int| 0 <= i < sel.len() ==> {
                        &&& (#[trigger] plan@[i]).pid == sel[i].0
                        &&& plan@[i].name@ == sel[i].1@
                        &&& plan@[i].file_name@ == split_file_name_text(sel[i].1@, sel[i].0)
                    }
                },
                Err(msg) => m.dom() =~= Set::empty() && msg@
                    == "no target processes selected; use --all-active or --pid/--name"@,
            }
        }),
{
    let selected = select_processes(active, pids, names, all_active);
    let ghost m = selected_processes(active@, pids@, names@, all_active);
    if selected.len() == 0 {
        assert forall|k: u32| !m.contains_key(k) by {
            if m.contains_key(k) {
                let i = choose|i: int| 0 <= i < selected@.len() && (#[trigger] selected@[i]).0 == k;
            }
        }
        assert(m.dom() =~= Set::empty());
        return Err(to_owned_string("no target processes selected; use --all-active or --pid/--name"));
    }
    let mut plan: Vec<SplitTarget> = Vec::new();
    let mut i: usize = 0;
    while i < selected.len()
        invariant
            i <= selected@.len(),
            plan@.len() == i,
            forall|j: int| 0 <= j < i ==> {
                &&& (#[trigger] plan@[j]).pid == selected@[j].0
                &&& plan@[j].name@ == selected@[j].1@
                &&& plan@[j].file_name@ == split_file_name_text(selected@[j].1@, selected@[j].0)
            },
        decreases selected.len() - i,
    {
        let pid = selected[i].0;
        let file_name = split_file_name(selected[i].1.as_str(), pid);
        plan.push(SplitTarget { pid, name: selected[i].1.clone(), file_name });
        i = i + 1;
    }
    assert(represents(selected@, m));
    Ok(plan)
}

/// The selectors of an app capture: the pids, then the name queries; refused when both
/// are empty.
pub fn visual_app_selectors(pids: Vec<u32>, names: Vec<String>) -> (r: Result<Vec<VisualProcessSelector>, String>)
    ensures
        pids@.len() + names@.len() == 0 ==> (r matches Err(msg) && msg@
            == "visual app requires at least one selector: --pid or --name"@),
        pids@.len() + names@.len() > 0 ==> (r matches Ok(sel) && sel@.len() == pids@.len()
            + names@.len() && (forall|i: int| 0 <= i < pids@.len() ==> #[trigger] sel@[i]
            == VisualProcessSelector::Pid(pids@[i])) && (forall|i: int| 0 <= i < names@.len()
            ==> #[trigger] sel@[pids@.len() + i] == VisualProcessSelector::NameContains(names@[i]))),
{
    let mut sel: Vec<VisualProcessSelector> = Vec::new();
    let mut i: usize = 0;
    while i < pids.len()
        invariant
            i <= pids@.len(),
            sel@.len() == i,
            forall|j: int| 0 <= j < i ==> #[trigger] sel@[j] == VisualProcessSelector::Pid(pids@[j]),
        decreases pids.len() - i,
    {
        sel.push(VisualProcessSelector::Pid(pids[i]));
        i = i + 1;
    }
    let mut j: usize = 0;
    while j < names.len()
        invariant
            j <= names@.len(),
            sel@.len() == pids@.len() + j,
            forall|k: int| 0 <= k < pids@.len() ==> #[trigger] sel@[k] == VisualProcessSelector::Pid(pids@[k]),
            forall|k: int| 0 <= k < j ==> #[trigger] sel@[pids@.len() + k]
                == VisualProcessSelector::NameContains(names@[k]),
        decreases names.len() - j,
    {
        sel.push(VisualProcessSelector::NameContains(names[j].clone()));
        j = j + 1;
    }
    if sel.len() == 0 {
        return Err(to_owned_string("visual app requires at least one selector: --pid or --name"));
    }
    Ok(sel)
}

/// Builds the visual backend with this identifier, with the reason when it is unknown.
pub fn build_backend(backend_id: &str, os: TargetOs) -> (r: Result<NativePlatformVideoBackend, String>)
    ensures
        backend_id@ == "platform-native"@ ==> (r matches Ok(b) && b.os == os),
        backend_id@ != "platform-native"@ ==> (r matches Err(msg) && msg@
            == "failed to initialize visual backend '"@ + backend_id@ + "': "@
            + "unknown video backend: "@ + backend_id@),
{
    match build_video_backend(backend_id, os) {
        Ok(b) => Ok(b),
        Err(e) => {
            let mut msg = concat3("failed to initialize visual backend '", backend_id, "': ");
            push_str(&mut msg, e.as_str());
            Err(msg)
        },
    }
}

/// The line that reports a finished visual capture, with the matched processes joined
/// by `; `.
pub open spec fn visual_summary_text(v: VideoCaptureReport) -> Seq<char> {
    "captured "@ + decimal(v.frames_captured as nat) + " frames @ "@ + decimal(v.fps as nat)
        + "fps from '"@ + v.selected_display.name@ + "' out="@ + v.output_path@ + ", matched="@
        + joined(views(v.matched_processes@), "; "@)
}

/// Renders the line that reports a finished visual capture.
pub fn visual_summary(v: &VideoCaptureReport) -> (r: String)
    ensures
        r@ == visual_summary_text(*v),
{
    let mut r = to_owned_string("captured ");
    push_decimal(&mut r, v.frames_captured as u64);
    push_str(&mut r, " frames @ ");
    push_decimal(&mut r, v.fps as u64);
    push_str(&mut r, "fps from '");
    push_str(&mut r, v.selected_display.name.as_str());
    push_str(&mut r, "' out=");
    push_str(&mut r, v.output_path.as_str());
    push_str(&mut r, ", matched=");
    let m = join_strings(&v.matched_processes, "; ");
    push_str(&mut r, m.as_str());
    r
}

} // verus!
