//! Per-application capture on Windows: reading the process table that `tasklist`
//! prints, resolving selectors to process ids, and the checks and report around a WASAPI
//! process-loopback capture.
use std::collections::BTreeSet;

use vstd::prelude::*;

use crate::audio::backend::{
    process_request_rejection, ActiveAudioProcessInfo, AudioError, CaptureFormat, CaptureReport, CaptureRequest,
    CaptureScope, CaptureTarget, InputDeviceInfo, ProcessSelector,
};
use crate::sorted_map::{
    contains_pid, empty_text_map, insert_pid, insert_text, represents, represents_set,
    sorted_entries, sorted_members, text_values,
};
use crate::recording::Joined;
use crate::text::{
    chars_of, contains_seq, decimal, join_strings, joined, lines_of, lowercase, parse_u32,
    parsed_u32, push_decimal, push_str, remove_char, split_lines, str_contains, string_from_chars,
    to_lower, to_owned_string, trim, trim_by, trim_char, trim_ws, views, without_char,
    is_white_space, lemma_trim_by_unchanged, lemma_trim_by_nonempty, lemma_remove_absent_char,
    law_parse_reads_decimal, lemma_decimal_digits, is_digit,
};

verus! {

/// The note that describes audio capture on Windows.
pub open spec fn capability_note_text() -> Seq<char> {
    "Windows supports per-app capture via native WASAPI process loopback (single/multiple process selectors)."@
}

/// Describes audio capture on Windows.
pub fn capability_note() -> (r: &'static str)
    ensures
        r@ == capability_note_text(),
{
    "Windows supports per-app capture via native WASAPI process loopback (single/multiple process selectors)."
}

/// Per-application capture is offered on Windows.
pub fn supports_per_app_capture() -> (r: bool)
    ensures
        r,
{
    true
}

// ---------------------------------------------------------------------------
// Simple CSV.
// ---------------------------------------------------------------------------

/// The state after reading `s` as a CSV line: finished fields, the unfinished field,
/// and whether a quoted section is open.
pub open spec fn csv_state(s: Seq<char>) -> (Seq<Seq<char>>, Seq<char>, bool)
    decreases s.len(),
{
    if s.len() == 0 {
        (Seq::empty(), Seq::empty(), false)
    } else {
        let (out, cur, quoted) = csv_state(s.drop_last());
        let c = s.last();
        if c == '"' {
            (out, cur, !quoted)
        } else if c == ',' && !quoted {
            (out.push(csv_field(cur)), Seq::empty(), quoted)
        } else {
            (out, cur.push(c), quoted)
        }
    }
}

/// A finished CSV field: white space trimmed, then surrounding quotes removed.
pub open spec fn csv_field(cur: Seq<char>) -> Seq<char> {
    trim_by(trim_ws(cur), |c: char| c == '"')
}

/// The fields of a CSV line: quotes toggle a quoted section and are dropped, commas
/// outside quotes separate fields, each field is trimmed.
pub open spec fn csv_fields(s: Seq<char>) -> Seq<Seq<char>> {
    let (out, cur, quoted) = csv_state(s);
    out.push(csv_field(cur))
}

proof fn lemma_csv_push(s: Seq<char>, c: char)
    ensures
        csv_state(s.push(c)) == (if c == '"' {
            (csv_state(s).0, csv_state(s).1, !csv_state(s).2)
        } else if c == ',' && !csv_state(s).2 {
            (csv_state(s).0.push(csv_field(csv_state(s).1)), Seq::<char>::empty(), csv_state(s).2)
        } else {
            (csv_state(s).0, csv_state(s).1.push(c), csv_state(s).2)
        }),
{
    assert(s.push(c).drop_last() =~= s);
}

/// Text without quotes, and without commas unless a quoted section is open, only extends
/// the unfinished field.
proof fn lemma_csv_plain(a: Seq<char>, b: Seq<char>)
    requires
        forall|i: int| 0 <= i < b.len() ==> b[i] != '"',
        !csv_state(a).2 ==> forall|i: int| 0 <= i < b.len() ==> b[i] != ',',
    ensures
        csv_state(a + b) == (csv_state(a).0, csv_state(a).1 + b, csv_state(a).2),
    decreases b.len(),
{
    if b.len() == 0 {
        assert(a + b =~= a);
        assert(csv_state(a).1 + b =~= csv_state(a).1);
    } else {
        let p = b.drop_last();
        lemma_csv_plain(a, p);
        assert(a + b =~= (a + p).push(b.last()));
        lemma_csv_push(a + p, b.last());
        assert(csv_state(a).1 + p + seq![b.last()] =~= csv_state(a).1 + b);
        assert((csv_state(a).1 + p).push(b.last()) =~= csv_state(a).1 + b);
    }
}

/// Reading more text never changes the fields already finished.
proof fn lemma_csv_fields_kept(a: Seq<char>, b: Seq<char>)
    ensures
        csv_state(a).0.len() <= csv_state(a + b).0.len(),
        csv_state(a + b).0.subrange(0, csv_state(a).0.len() as int) == csv_state(a).0,
    decreases b.len(),
{
    if b.len() == 0 {
        assert(a + b =~= a);
        assert(csv_state(a).0.subrange(0, csv_state(a).0.len() as int) =~= csv_state(a).0);
    } else {
        let p = b.drop_last();
        lemma_csv_fields_kept(a, p);
        assert(a + b =~= (a + p).push(b.last()));
        lemma_csv_push(a + p, b.last());
        let n = csv_state(a).0.len() as int;
        assert(csv_state(a + b).0.subrange(0, n) =~= csv_state(a + p).0.subrange(0, n));
    }
}

/// A field that is neither blank at its ends nor holds a quote reads back unchanged.
proof fn lemma_csv_field_plain(f: Seq<char>)
    requires
        forall|i: int| 0 <= i < f.len() ==> f[i] != '"',
        f.len() > 0 ==> !is_white_space(f[0]) && !is_white_space(f.last()),
    ensures
        csv_field(f) == f,
{
    lemma_trim_by_unchanged(f, |c: char| is_white_space(c));
    lemma_trim_by_unchanged(f, |c: char| c == '"');
}

/// The first two fields of a CSV line that starts with two quoted fields: a quoted
/// field that holds no quote and is not blank at its ends reads back as written, commas
/// inside it included, whatever follows the second field after a comma.
pub proof fn law_csv_reads_quoted_fields(first: Seq<char>, second: Seq<char>, rest: Seq<char>)
    requires
        forall|i: int| 0 <= i < first.len() ==> first[i] != '"',
        forall|i: int| 0 <= i < second.len() ==> second[i] != '"',
        first.len() > 0 ==> !is_white_space(first[0]) && !is_white_space(first.last()),
        second.len() > 0 ==> !is_white_space(second[0]) && !is_white_space(second.last()),
        rest.len() == 0 || rest[0] == ',',
    ensures
        csv_fields(seq!['"'] + first + seq!['"', ',', '"'] + second + seq!['"'] + rest).len() >= 2,
        csv_fields(seq!['"'] + first + seq!['"', ',', '"'] + second + seq!['"'] + rest)[0] == first,
        csv_fields(seq!['"'] + first + seq!['"', ',', '"'] + second + seq!['"'] + rest)[1] == second,
{
    let e = Seq::<char>::empty();
    let s0 = seq!['"'];
    lemma_csv_push(e, '"');
    assert(e.push('"') =~= s0);
    assert(csv_state(e) == (Seq::<Seq<char>>::empty(), e, false));
    lemma_csv_plain(s0, first);
    let s1 = s0 + first;
    lemma_csv_push(s1, '"');
    let s2 = s1.push('"');
    lemma_csv_push(s2, ',');
    let s3 = s2.push(',');
    lemma_csv_push(s3, '"');
    let s4 = s3.push('"');
    assert(s4 =~= s0 + first + seq!['"', ',', '"']);
    assert(e + first =~= first);
    lemma_csv_field_plain(first);
    assert(csv_state(s4).0 =~= seq![first]);
    lemma_csv_plain(s4, second);
    let s5 = s4 + second;
    lemma_csv_push(s5, '"');
    let s6 = s5.push('"');
    assert(s6 =~= s0 + first + seq!['"', ',', '"'] + second + seq!['"']);
    assert(e + second =~= second);
    lemma_csv_field_plain(second);
    let line = s6 + rest;
    assert(line =~= seq!['"'] + first + seq!['"', ',', '"'] + second + seq!['"'] + rest);
    if rest.len() == 0 {
        assert(line =~= s6);
        assert(csv_fields(line) =~= seq![first, second]);
    } else {
        let s7 = s6.push(',');
        lemma_csv_push(s6, ',');
        assert(csv_state(s7).0 =~= seq![first, second]);
        let tail = rest.drop_first();
        assert(line =~= s7 + tail);
        lemma_csv_fields_kept(s7, tail);
        let out = csv_state(line).0;
        assert(out.subrange(0, 2)[0] == out[0]);
        assert(out.subrange(0, 2)[1] == out[1]);
        assert(csv_fields(line)[0] == out[0]);
        assert(csv_fields(line)[1] == out[1]);
    }
}

/// Finishes a CSV field.
fn finish_field(cur: &Vec<char>) -> (r: String)
    ensures
        r@ == csv_field(cur@),
{
    let s = string_from_chars(cur);
    let t = trim(s.as_str());
    trim_char(t.as_str(), '"')
}

/// Splits one line of simple CSV into its fields.
pub fn parse_simple_csv_line(line: &str) -> (r: Vec<String>)
    ensures
        views(r@) == csv_fields(line@),
        r@.len() >= 1,
{
    let v = chars_of(line);
    let mut out: Vec<String> = Vec::new();
    let mut cur: Vec<char> = Vec::new();
    let mut in_quotes = false;
    let mut i: usize = 0;
    while i < v.len()
        invariant
            i <= v@.len(),
            v@ == line@,
            views(out@) == csv_state(v@.take(i as int)).0,
            cur@ == csv_state(v@.take(i as int)).1,
            in_quotes == csv_state(v@.take(i as int)).2,
        decreases v.len() - i,
    {
        let ghost t = v@.take(i + 1);
        assert(t.drop_last() =~= v@.take(i as int));
        let c = v[i];
        if c == '"' {
            in_quotes = !in_quotes;
        } else if c == ',' && !in_quotes {
            let field = finish_field(&cur);
            let ghost old_out = out@;
            out.push(field);
            assert(views(out@) =~= views(old_out).push(field@));
            cur = Vec::new();
        } else {
            cur.push(c);
        }
        i = i + 1;
    }
    assert(v@.take(v@.len() as int) =~= v@);
    let field = finish_field(&cur);
    let ghost old_out = out@;
    out.push(field);
    assert(views(out@) =~= views(old_out).push(field@));
    out
}


// ---------------------------------------------------------------------------
// The process table.
// ---------------------------------------------------------------------------

/// The row that one line of `tasklist /FO CSV /NH` output gives: the image name and the
/// pid (its digit-group commas removed); blank lines, lines with fewer than two fields
/// and pids that do not parse or are 0 give none.
pub open spec fn tasklist_row(line: Seq<char>) -> Option<(Seq<char>, u32)> {
    let cols = csv_fields(line);
    if trim_ws(line).len() == 0 || cols.len() < 2 {
        None
    } else {
        let pid = match parsed_u32(remove_char(cols[1], ',')) {
            Some(p) => p,
            None => 0,
        };
        if pid > 0 {
            Some((cols[0], pid))
        } else {
            None
        }
    }
}

/// A `tasklist` line that starts with the quoted image name and the quoted pid gives
/// that name and pid, whatever columns follow; a pid of 0 gives no row.
pub proof fn law_tasklist_row_reads_name_and_pid(name: Seq<char>, pid: u32, rest: Seq<char>)
    requires
        forall|i: int| 0 <= i < name.len() ==> name[i] != '"',
        name.len() > 0 ==> !is_white_space(name[0]) && !is_white_space(name.last()),
        rest.len() == 0 || rest[0] == ',',
    ensures
        tasklist_row(seq!['"'] + name + seq!['"', ',', '"'] + decimal(pid as nat) + seq!['"'] + rest) == if pid
            > 0 {
            Some((name, pid))
        } else {
            None::<(Seq<char>, u32)>
        },
{
    let d = decimal(pid as nat);
    lemma_decimal_digits(pid as nat);
    assert forall|i: int| 0 <= i < d.len() implies d[i] != '"' && d[i] != ',' && !is_white_space(d[i]) by {
        assert(is_digit(d[i]));
    }
    assert(is_digit(d[0]) && is_digit(d.last()));
    law_csv_reads_quoted_fields(name, d, rest);
    let line = seq!['"'] + name + seq!['"', ',', '"'] + d + seq!['"'] + rest;
    lemma_remove_absent_char(d, ',');
    law_parse_reads_decimal(pid);
    assert(line[0] == '"');
    lemma_trim_by_nonempty(line, |c: char| is_white_space(c));
}

/// The rows of all lines, in order.
pub open spec fn tasklist_rows_of(lines: Seq<Seq<char>>) -> Seq<(Seq<char>, u32)>
    decreases lines.len(),
{
    if lines.len() == 0 {
        Seq::empty()
    } else {
        match tasklist_row(lines.last()) {
            Some(row) => tasklist_rows_of(lines.drop_last()).push(row),
            None => tasklist_rows_of(lines.drop_last()),
        }
    }
}

/// The process table keeps the order of the lines: the rows of two runs of lines, one
/// after the other, are those of the first run, then those of the second; a single line
/// gives its row, if it has one.
pub proof fn law_tasklist_rows_keep_order(a: Seq<Seq<char>>, b: Seq<Seq<char>>)
    ensures
        tasklist_rows_of(a + b) == tasklist_rows_of(a) + tasklist_rows_of(b),
        forall|l: Seq<char>| #[trigger] tasklist_rows_of(seq![l]) == match tasklist_row(l) {
            Some(row) => seq![row],
            None => Seq::<(Seq<char>, u32)>::empty(),
        },
    decreases b.len(),
{
    assert forall|l: Seq<char>| #[trigger] tasklist_rows_of(seq![l]) == match tasklist_row(l) {
        Some(row) => seq![row],
        None => Seq::<(Seq<char>, u32)>::empty(),
    } by {
        assert(seq![l].drop_last() =~= Seq::<Seq<char>>::empty());
        assert(seq![l].last() == l);
        assert(seq![l].len() == 1);
        assert(tasklist_rows_of(Seq::<Seq<char>>::empty()) == Seq::<(Seq<char>, u32)>::empty());
        if let Some(row) = tasklist_row(l) {
            assert(Seq::<(Seq<char>, u32)>::empty().push(row) =~= seq![row]);
        }
    }
    if b.len() == 0 {
        assert(a + b =~= a);
        assert(tasklist_rows_of(a) + Seq::<(Seq<char>, u32)>::empty() =~= tasklist_rows_of(a));
    } else {
        let p = b.drop_last();
        law_tasklist_rows_keep_order(a, p);
        assert((a + b).drop_last() =~= a + p);
        assert((a + b).last() == b.last());
        if let Some(row) = tasklist_row(b.last()) {
            assert((tasklist_rows_of(a) + tasklist_rows_of(p)).push(row) =~= tasklist_rows_of(a) + tasklist_rows_of(
                p,
            ).push(row));
        }
    }
}

/// The views of `(name, pid)` rows.
pub open spec fn row_views(rows: Seq<(String, u32)>) -> Seq<(Seq<char>, u32)> {
    rows.map_values(|r: (String, u32)| (r.0@, r.1))
}

/// Reads the process table from the text that `tasklist /FO CSV /NH` printed.
pub fn parse_tasklist_rows(text: &str) -> (r: Vec<(String, u32)>)
    ensures
        row_views(r@) == tasklist_rows_of(lines_of(text@)),
{
    let lines = split_lines(text);
    let mut rows: Vec<(String, u32)> = Vec::new();
    let mut i: usize = 0;
    while i < lines.len()
        invariant
            i <= lines@.len(),
            views(lines@) == lines_of(text@),
            row_views(rows@) == tasklist_rows_of(views(lines@).take(i as int)),
        decreases lines.len() - i,
    {
        let ghost t = views(lines@).take(i + 1);
        assert(t.drop_last() =~= views(lines@).take(i as int));
        assert(t.last() == lines@[i as int]@);
        let line = lines[i].as_str();
        let trimmed = trim(line);
        if !trimmed.as_str().is_empty() {
            let cols = parse_simple_csv_line(line);
            if cols.len() >= 2 {
                let digits = without_char(cols[1].as_str(), ',');
                let pid = match parse_u32(digits.as_str()) {
                    Some(p) => p,
                    None => 0,
                };
                assert(views(cols@)[1] == cols@[1]@);
                if pid > 0 {
                    let ghost before = rows@;
                    rows.push((cols[0].clone(), pid));
                    assert(views(cols@)[0] == cols@[0]@);
                    assert(row_views(rows@) =~= row_views(before).push((cols@[0]@, pid)));
                }
            }
        }
        i = i + 1;
    }
    assert(views(lines@).take(lines@.len() as int) =~= views(lines@));
    rows
}

// ---------------------------------------------------------------------------
// Resolving selectors.
// ---------------------------------------------------------------------------

/// Whether resolving the selectors needs the process table: some selector matches by
/// name.
pub open spec fn has_name_query(selectors: Seq<ProcessSelector>) -> bool {
    exists|i: int| 0 <= i < selectors.len() && (#[trigger] selectors[i]) is NameContains
}

/// Whether resolving the selectors needs the process table.
pub fn needs_process_table(selectors: &[ProcessSelector]) -> (r: bool)
    ensures
        r == has_name_query(selectors@),
{
    let mut i: usize = 0;
    while i < selectors.len()
        invariant
            i <= selectors@.len(),
            forall|j: int| 0 <= j < i ==> !((#[trigger] selectors@[j]) is NameContains),
        decreases selectors.len() - i,
    {
        if let ProcessSelector::NameContains(_) = &selectors[i] {
            return true;
        }
        i = i + 1;
    }
    false
}

/// Some name query, lowercased, occurs in the lowercase image name.
pub open spec fn name_selected(lower_name: Seq<char>, selectors: Seq<ProcessSelector>) -> bool {
    exists|i: int| 0 <= i < selectors.len() && match #[trigger] selectors[i] {
        ProcessSelector::NameContains(q) => contains_seq(lower_name, lowercase(q@)),
        ProcessSelector::Pid(_) => false,
    }
}

/// The pids that the selectors pick: every pid selector, and every process in the table
/// whose image name contains a name query (ignoring case).
pub open spec fn target_pids(selectors: Seq<ProcessSelector>, rows: Seq<(String, u32)>) -> Set<u32> {
    Set::new(
        |p: u32|
            (exists|i: int| 0 <= i < selectors.len() && #[trigger] selectors[i] == ProcessSelector::Pid(p))
                || (exists|j: int|
                0 <= j < rows.len() && (#[trigger] rows[j]).1 == p && name_selected(
                    lowercase(rows[j].0@),
                    selectors,
                )),
    )
}

/// Whether some name query occurs in the lowercase image name.
fn name_query_matches(lower_name: &str, selectors: &[ProcessSelector]) -> (r: bool)
    ensures
        r == name_selected(lower_name@, selectors@),
{
    let mut i: usize = 0;
    while i < selectors.len()
        invariant
            i <= selectors@.len(),
            forall|j: int| 0 <= j < i ==> !match #[trigger] selectors@[j] {
                ProcessSelector::NameContains(q) => contains_seq(lower_name@, lowercase(q@)),
                ProcessSelector::Pid(_) => false,
            },
        decreases selectors.len() - i,
    {
        match &selectors[i] {
            ProcessSelector::NameContains(q) => {
                let lq = to_lower(q.as_str());
                if str_contains(lower_name, lq.as_str()) {
                    return true;
                }
            },
            ProcessSelector::Pid(_) => {},
        }
        i = i + 1;
    }
    false
}

/// Which pids a per-application capture records: the pid of every pid selector; the pid
/// of every table row whose lowercase image name contains the lowercase form of any one
/// name selector; and no other pid.
pub proof fn law_target_pids_members(selectors: Seq<ProcessSelector>, rows: Seq<(String, u32)>)
    ensures
        forall|i: int| 0 <= i < selectors.len() && (#[trigger] selectors[i]) is Pid ==> target_pids(
            selectors,
            rows,
        ).contains(selectors[i]->Pid_0),
        forall|i: int, j: int|
            0 <= i < selectors.len() && 0 <= j < rows.len() && (#[trigger] selectors[i]) is NameContains
                && contains_seq(lowercase((#[trigger] rows[j]).0@), lowercase(selectors[i]->NameContains_0@))
                ==> target_pids(selectors, rows).contains(rows[j].1),
        forall|p: u32| #[trigger] target_pids(selectors, rows).contains(p) ==> (exists|i: int|
            0 <= i < selectors.len() && #[trigger] selectors[i] == ProcessSelector::Pid(p)) || (exists|i: int, j: int|
            0 <= i < selectors.len() && 0 <= j < rows.len() && (#[trigger] selectors[i]) is NameContains
                && (#[trigger] rows[j]).1 == p && contains_seq(
                lowercase(rows[j].0@),
                lowercase(selectors[i]->NameContains_0@),
            )),
{
    assert forall|i: int| 0 <= i < selectors.len() && (#[trigger] selectors[i]) is Pid implies target_pids(
        selectors,
        rows,
    ).contains(selectors[i]->Pid_0) by {
        assert(selectors[i] == ProcessSelector::Pid(selectors[i]->Pid_0));
    }
    assert forall|i: int, j: int|
        0 <= i < selectors.len() && 0 <= j < rows.len() && (#[trigger] selectors[i]) is NameContains
            && contains_seq(lowercase((#[trigger] rows[j]).0@), lowercase(selectors[i]->NameContains_0@))
            implies target_pids(selectors, rows).contains(rows[j].1) by {
        assert(name_selected(lowercase(rows[j].0@), selectors));
    }
    assert forall|p: u32| #[trigger] target_pids(selectors, rows).contains(p) implies (exists|i: int|
        0 <= i < selectors.len() && #[trigger] selectors[i] == ProcessSelector::Pid(p)) || (exists|i: int, j: int|
        0 <= i < selectors.len() && 0 <= j < rows.len() && (#[trigger] selectors[i]) is NameContains
            && (#[trigger] rows[j]).1 == p && contains_seq(
            lowercase(rows[j].0@),
            lowercase(selectors[i]->NameContains_0@),
        )) by {
        if !(exists|i: int| 0 <= i < selectors.len() && #[trigger] selectors[i] == ProcessSelector::Pid(p)) {
            let j = choose|j: int|
                0 <= j < rows.len() && (#[trigger] rows[j]).1 == p && name_selected(lowercase(rows[j].0@), selectors);
            let i = choose|i: int| 0 <= i < selectors.len() && match #[trigger] selectors[i] {
                ProcessSelector::NameContains(q) => contains_seq(lowercase(rows[j].0@), lowercase(q@)),
                ProcessSelector::Pid(_) => false,
            };
            assert(selectors[i] is NameContains);
        }
    }
}

/// Resolves the selectors to process ids, sorted and without repeats; `rows` is the
/// process table (only consulted by name selectors).
pub fn resolve_target_pids(selectors: &[ProcessSelector], rows: &[(String, u32)]) -> (r: Vec<u32>)
    ensures
        represents_set(r@, target_pids(selectors@, rows@)),
{
    let mut pids: BTreeSet<u32> = BTreeSet::new();
    let ghost mut s = Set::<u32>::empty();
    let mut i: usize = 0;
    while i < selectors.len()
        invariant
            i <= selectors@.len(),
            pids@ == s,
            forall|p: u32| s.contains(p) <==> exists|j: int| 0 <= j < i && #[trigger] selectors@[j]
                == ProcessSelector::Pid(p),
        decreases selectors.len() - i,
    {
        if let ProcessSelector::Pid(pid) = &selectors[i] {
            insert_pid(&mut pids, *pid);
            proof {
                let s2 = s.insert(*pid);
                assert forall|p: u32| s2.contains(p) <==> exists|j: int| 0 <= j < i + 1 && #[trigger] selectors@[j]
                    == ProcessSelector::Pid(p) by {
                    if p == *pid {
                        assert(selectors@[i as int] == ProcessSelector::Pid(p));
                    }
                    if exists|j: int| 0 <= j < i + 1 && #[trigger] selectors@[j] == ProcessSelector::Pid(p) {
                        let j = choose|j: int| 0 <= j < i + 1 && #[trigger] selectors@[j] == ProcessSelector::Pid(p);
                        if j < i {
                        }
                    }
                }
                s = s2;
            }
        } else {
            proof {
                assert forall|p: u32| s.contains(p) <==> exists|j: int| 0 <= j < i + 1 && #[trigger] selectors@[j]
                    == ProcessSelector::Pid(p) by {
                    if exists|j: int| 0 <= j < i + 1 && #[trigger] selectors@[j] == ProcessSelector::Pid(p) {
                        let j = choose|j: int| 0 <= j < i + 1 && #[trigger] selectors@[j] == ProcessSelector::Pid(p);
                        if j < i {
                        }
                    }
                }
            }
        }
        i = i + 1;
    }
    let mut k: usize = 0;
    while k < rows.len()
        invariant
            k <= rows@.len(),
            pids@ == s,
            forall|p: u32|
                s.contains(p) <==> ((exists|j: int| 0 <= j < selectors@.len() && #[trigger] selectors@[j]
                    == ProcessSelector::Pid(p)) || (exists|j: int|
                    0 <= j < k && (#[trigger] rows@[j]).1 == p && name_selected(
                        lowercase(rows@[j].0@),
                        selectors@,
                    ))),
        decreases rows.len() - k,
    {
        let lowered = to_lower(rows[k].0.as_str());
        let hit = name_query_matches(lowered.as_str(), selectors);
        if hit {
            insert_pid(&mut pids, rows[k].1);
        }
        proof {
            let s2 = if hit {
                s.insert(rows@[k as int].1)
            } else {
                s
            };
            assert forall|p: u32|
                s2.contains(p) <==> ((exists|j: int| 0 <= j < selectors@.len() && #[trigger] selectors@[j]
                    == ProcessSelector::Pid(p)) || (exists|j: int|
                    0 <= j < k + 1 && (#[trigger] rows@[j]).1 == p && name_selected(
                        lowercase(rows@[j].0@),
                        selectors@,
                    ))) by {
                if hit && p == rows@[k as int].1 {
                    assert(rows@[k as int].1 == p);
                }
                if exists|j: int| 0 <= j < k + 1 && (#[trigger] rows@[j]).1 == p && name_selected(
                    lowercase(rows@[j].0@),
                    selectors@,
                ) {
                    let j = choose|j: int| 0 <= j < k + 1 && (#[trigger] rows@[j]).1 == p && name_selected(
                        lowercase(rows@[j].0@),
                        selectors@,
                    );
                    if j < k {
                    }
                }
            }
            s = s2;
        }
        k = k + 1;
    }
    assert(s =~= target_pids(selectors@, rows@));
    sorted_members(&pids)
}

// ---------------------------------------------------------------------------
// Active audio processes.
// ---------------------------------------------------------------------------

/// The active audio processes by pid: for each table row (in order) whose pid has an
/// active audio session, the first name seen for that pid.
pub open spec fn active_process_names(active_pids: Set<u32>, rows: Seq<(String, u32)>) -> Map<u32, Seq<char>>
    decreases rows.len(),
{
    if rows.len() == 0 {
        Map::empty()
    } else {
        let m = active_process_names(active_pids, rows.drop_last());
        let (name, pid) = rows.last();
        if active_pids.contains(pid) && !m.contains_key(pid) {
            m.insert(pid, name@)
        } else {
            m
        }
    }
}

/// Which processes the audio process list names, and how: a pid is listed exactly when
/// it has an active audio session and some table row has it, and it is listed under the
/// name of the first such row.
pub proof fn law_active_process_names(active_pids: Set<u32>, rows: Seq<(String, u32)>)
    ensures
        forall|k: u32| #[trigger] active_process_names(active_pids, rows).contains_key(k) <==> active_pids.contains(k)
            && exists|j: int| 0 <= j < rows.len() && (#[trigger] rows[j]).1 == k,
        forall|j: int|
            0 <= j < rows.len() && active_pids.contains((#[trigger] rows[j]).1) && (forall|i: int|
                0 <= i < j ==> (#[trigger] rows[i]).1 != rows[j].1) ==> active_process_names(active_pids, rows)[rows[j].1]
                == rows[j].0@,
    decreases rows.len(),
{
    if rows.len() > 0 {
        let p = rows.drop_last();
        law_active_process_names(active_pids, p);
        let m = active_process_names(active_pids, p);
        let n = rows.len() - 1;
        assert(rows[n] == rows.last());
        assert forall|k: u32| #[trigger] active_process_names(active_pids, rows).contains_key(k) <==> active_pids.contains(k)
            && exists|j: int| 0 <= j < rows.len() && (#[trigger] rows[j]).1 == k by {
            if exists|j: int| 0 <= j < rows.len() && (#[trigger] rows[j]).1 == k {
                let j = choose|j: int| 0 <= j < rows.len() && (#[trigger] rows[j]).1 == k;
                if j < n {
                    assert(p[j] == rows[j]);
                }
            }
            if exists|j: int| 0 <= j < p.len() && (#[trigger] p[j]).1 == k {
                let j = choose|j: int| 0 <= j < p.len() && (#[trigger] p[j]).1 == k;
                assert(rows[j] == p[j]);
            }
        }
        assert forall|j: int|
            0 <= j < rows.len() && active_pids.contains((#[trigger] rows[j]).1) && (forall|i: int|
                0 <= i < j ==> (#[trigger] rows[i]).1 != rows[j].1) implies active_process_names(active_pids, rows)[rows[j].1]
            == rows[j].0@ by {
            if j < n {
                assert(p[j] == rows[j]);
                assert forall|i: int| 0 <= i < j implies (#[trigger] p[i]).1 != p[j].1 by {
                    assert(p[i] == rows[i]);
                    assert(rows[i].1 != rows[j].1);
                }
                assert(m.contains_key(rows[j].1));
            } else {
                assert(!m.contains_key(rows[j].1)) by {
                    if m.contains_key(rows[j].1) {
                        let i = choose|i: int| 0 <= i < p.len() && (#[trigger] p[i]).1 == rows[j].1;
                        assert(rows[i] == p[i]);
                        assert(rows[i].1 != rows[j].1);
                    }
                }
            }
        }
    }
}

/// The pids of `(pid, name)` pairs and the processes built from them agree.
pub open spec fn process_infos_match(infos: Seq<ActiveAudioProcessInfo>, pairs: Seq<(u32, String)>) -> bool {
    &&& infos.len() == pairs.len()
    &&& forall|i: int| 0 <= i < infos.len() ==> (#[trigger] infos[i]).pid == pairs[i].0 && infos[i].name@ == pairs[i].1@
}

/// Lists the processes with an active audio session, sorted by pid, named from the
/// process table; `active_pids` are the pids of the sessions found.
pub fn active_audio_processes(active_pids: &[u32], rows: &[(String, u32)]) -> (r: Vec<ActiveAudioProcessInfo>)
    ensures
        exists|pairs: Seq<(u32, String)>| {
            &&& represents(pairs, active_process_names(active_pids@.to_set(), rows@))
            &&& process_infos_match(r@, pairs)
        },
{
    let ghost active = active_pids@.to_set();
    let mut map = empty_text_map();
    let mut i: usize = 0;
    while i < rows.len()
        invariant
            i <= rows@.len(),
            active == active_pids@.to_set(),
            text_values(map@) == active_process_names(active, rows@.take(i as int)),
        decreases rows.len() - i,
    {
        let ghost t = rows@.take(i + 1);
        assert(t.drop_last() =~= rows@.take(i as int));
        let pid = rows[i].1;
        let mut is_active = false;
        let mut j: usize = 0;
        while j < active_pids.len()
            invariant
                j <= active_pids@.len(),
                is_active == exists|a: int| 0 <= a < j && active_pids@[a] == pid,
            decreases active_pids.len() - j,
        {
            if active_pids[j] == pid {
                is_active = true;
            }
            j = j + 1;
        }
        proof {
            if active.contains(pid) {
                let a = choose|a: int| 0 <= a < active_pids@.len() && active_pids@[a] == pid;
                assert(active_pids@[a] == pid);
            }
            assert(is_active == active.contains(pid));
        }
        if is_active && !contains_pid(&map, pid) {
            insert_text(&mut map, pid, rows[i].0.clone());
        }
        i = i + 1;
    }
    assert(rows@.take(rows@.len() as int) =~= rows@);
    let map = sorted_entries(&map);
    let mut out: Vec<ActiveAudioProcessInfo> = Vec::new();
    let mut k: usize = 0;
    while k < map.len()
        invariant
            k <= map@.len(),
            represents(map@, active_process_names(active_pids@.to_set(), rows@)),
            out@.len() == k,
            forall|a: int| 0 <= a < k ==> (#[trigger] out@[a]).pid == map@[a].0 && out@[a].name@ == map@[a].1@,
        decreases map.len() - k,
    {
        out.push(ActiveAudioProcessInfo { pid: map[k].0, name: map[k].1.clone() });
        k = k + 1;
    }
    assert(process_infos_match(out@, map@));
    out
}

// ---------------------------------------------------------------------------
// Checks and report around a capture.
// ---------------------------------------------------------------------------

/// The settings of a Windows process capture that passed its checks.
pub struct WindowsCaptureSettings {
    pub out_path: String,
    pub sample_rate: u32,
    pub channels: u16,
}

/// The settings of a capture of `request`: its file, and its rate and channel count,
/// 48000 Hz and 2 channels when it gives none.
pub open spec fn settings_for(request: CaptureRequest, settings: WindowsCaptureSettings) -> bool {
    &&& request.target matches CaptureTarget::File(path)
    &&& settings.out_path == path
    &&& settings.sample_rate == match request.sample_rate {
        Some(v) => v,
        None => 48000,
    }
    &&& settings.channels == match request.channels {
        Some(v) => v,
        None => 2,
    }
}

/// The refusal for a non-file target on Windows.
pub open spec fn windows_file_only() -> Seq<char> {
    "windows process capture currently supports file target only"@
}

/// The refusal for a non-WAV format on Windows.
pub open spec fn windows_wav_only() -> Seq<char> {
    "windows process capture currently supports WAV output only"@
}

/// Checks a process-capture request: it needs at least one selector, a process scope, a
/// file target and WAV format; the sample rate defaults to 48000 and the channel count
/// to 2.
pub fn check_capture_request(request: &CaptureRequest) -> (r: Result<WindowsCaptureSettings, AudioError>)
    ensures
        match process_request_rejection(*request, windows_file_only(), windows_wav_only()) {
            Some(m) => r matches Err(AudioError::Message(x)) && x@ == m,
            None => r matches Ok(settings) && settings_for(*request, settings),
        },
{
    match &request.scope {
        CaptureScope::System => {
            return Err(AudioError::Message(to_owned_string("internal error: process capture called with system scope")));
        },
        CaptureScope::Processes(items) => {
            if items.len() == 0 {
                return Err(AudioError::Message(to_owned_string("process capture requires at least one selector")));
            }
        },
    }
    let out_path = match &request.target {
        CaptureTarget::File(path) => path.clone(),
        CaptureTarget::StdoutPcm => {
            return Err(AudioError::Message(to_owned_string("windows process capture currently supports file target only")));
        },
    };
    if request.format != CaptureFormat::Wav {
        return Err(AudioError::Message(to_owned_string("windows process capture currently supports WAV output only")));
    }
    let sample_rate = match request.sample_rate {
        Some(v) => v,
        None => 48000,
    };
    let channels = match request.channels {
        Some(v) => v,
        None => 2,
    };
    Ok(WindowsCaptureSettings { out_path, sample_rate, channels })
}

/// The error reported when capture workers failed: their messages joined with `; `.
pub fn capture_failure(errors: &Vec<String>) -> (r: AudioError)
    ensures
        r matches AudioError::Message(m) && m@ == "windows process capture failed: "@ + joined(
            views(errors@),
            "; "@,
        ),
{
    let mut m = to_owned_string("windows process capture failed: ");
    let j = join_strings(errors, "; ");
    push_str(&mut m, j.as_str());
    AudioError::Message(m)
}

/// The matched-process text for a pid: `pid=<pid>`.
pub open spec fn pid_text(pid: u32) -> Seq<char> {
    "pid="@ + decimal(pid as nat)
}

/// The report of a finished Windows process capture: the mixed sample count, the
/// settings, the times, the WASAPI process-loopback pseudo device, and one `pid=<pid>`
/// entry per captured process.
pub fn capture_report(
    pids: &Vec<u32>,
    captured_samples: usize,
    settings: &WindowsCaptureSettings,
    started_at_ms: u64,
    ended_at_ms: u64,
) -> (r: CaptureReport)
    ensures
        r.captured_samples == captured_samples,
        r.sample_rate == settings.sample_rate,
        r.channels == settings.channels,
        r.started_at_ms == started_at_ms,
        r.ended_at_ms == ended_at_ms,
        r.selected_input_device.id@ == "wasapi-process-loopback"@,
        r.selected_input_device.name@ == "WASAPI Process Loopback"@,
        !r.selected_input_device.is_default,
        r.selected_input_device.loopback_score == 100,
        r.selected_input_device.is_loopback_candidate,
        r.selection_reason@ == "selected Windows native WASAPI process loopback"@,
        r.matched_processes@.len() == pids@.len(),
        forall|i: int| 0 <= i < pids@.len() ==> (#[trigger] r.matched_processes@[i])@ == pid_text(pids@[i]),
{
    let mut matched: Vec<String> = Vec::new();
    let mut i: usize = 0;
    while i < pids.len()
        invariant
            i <= pids@.len(),
            matched@.len() == i,
            forall|j: int| 0 <= j < i ==> (#[trigger] matched@[j])@ == pid_text(pids@[j]),
        decreases pids.len() - i,
    {
        let mut t = to_owned_string("pid=");
        push_decimal(&mut t, pids[i] as u64);
        matched.push(t);
        i = i + 1;
    }
    CaptureReport {
        captured_samples,
        sample_rate: settings.sample_rate,
        channels: settings.channels,
        started_at_ms,
        ended_at_ms,
        selected_input_device: InputDeviceInfo {
            id: to_owned_string("wasapi-process-loopback"),
            name: to_owned_string("WASAPI Process Loopback"),
            is_default: false,
            loopback_score: 100,
            is_loopback_candidate: true,
        },
        selection_reason: to_owned_string("selected Windows native WASAPI process loopback"),
        matched_processes: matched,
    }
}

/// The longest a capture without a duration runs: one day, in milliseconds.
pub const MAX_MANUAL_CAPTURE_MS: u64 = 86_400_000;

/// Whether a capture without a duration stops now: when the capture's own stop signal or
/// the request's stop flag is raised, or once it has run for more than a day.
pub fn manual_capture_over(stop_raised: bool, request_flag_raised: Option<bool>, elapsed_ms: u64) -> (r: bool)
    ensures
        r == (stop_raised || request_flag_raised == Some(true) || elapsed_ms > MAX_MANUAL_CAPTURE_MS),
{
    if stop_raised {
        return true;
    }
    match request_flag_raised {
        Some(true) => {
            return true;
        },
        _ => {},
    }
    elapsed_ms > MAX_MANUAL_CAPTURE_MS
}

/// Refuses a capture whose selectors resolved to no process.
pub fn require_target_pids(pids: &Vec<u32>) -> (r: Result<(), AudioError>)
    ensures
        pids@.len() == 0 <==> (r matches Err(AudioError::Message(m)) && m@ == "no processes matched selectors"@),
        r is Err ==> pids@.len() == 0,
{
    if pids.len() == 0 {
        return Err(AudioError::Message(to_owned_string("no processes matched selectors")));
    }
    Ok(())
}

/// The name of the temporary raw file that process `pid` is captured to, started at `ms`
/// milliseconds since the Unix epoch.
pub fn raw_capture_file_name(pid: u32, ms: u64) -> (r: String)
    ensures
        r@ == "lyricwave-win-pid-"@ + decimal(pid as nat) + "-"@ + decimal(ms as nat) + ".raw"@,
{
    let mut r = to_owned_string("lyricwave-win-pid-");
    push_decimal(&mut r, pid as u64);
    push_str(&mut r, "-");
    push_decimal(&mut r, ms);
    push_str(&mut r, ".raw");
    r
}

/// The failure texts of the capture workers, in order: nothing for a worker that
/// finished, its error's text for one that failed, and `capture thread panicked` for one
/// that panicked.
pub open spec fn worker_failure_texts(outcomes: Seq<Joined<(), AudioError>>) -> Seq<Seq<char>>
    decreases outcomes.len(),
{
    if outcomes.len() == 0 {
        Seq::empty()
    } else {
        let rest = worker_failure_texts(outcomes.drop_last());
        match outcomes.last() {
            Joined::Returned(Ok(_)) => rest,
            Joined::Returned(Err(e)) => rest.push(e.message_text()),
            Joined::Panicked => rest.push("capture thread panicked"@),
        }
    }
}

/// A capture fails exactly when some worker did not finish cleanly: there is no failure
/// text when every worker returned success, and one text per worker that failed or
/// panicked otherwise.
pub proof fn law_worker_failures_only_from_failed_workers(outcomes: Seq<Joined<(), AudioError>>)
    ensures
        worker_failure_texts(outcomes).len() == 0 <==> forall|i: int|
            0 <= i < outcomes.len() ==> #[trigger] outcomes[i] matches Joined::Returned(Ok(_)),
        worker_failure_texts(outcomes).len() <= outcomes.len(),
        outcomes.len() > 0 && !(outcomes.last() matches Joined::Returned(Ok(_))) ==> worker_failure_texts(
            outcomes,
        ).last() == match outcomes.last() {
            Joined::Returned(Err(e)) => e.message_text(),
            _ => "capture thread panicked"@,
        },
    decreases outcomes.len(),
{
    if outcomes.len() > 0 {
        let p = outcomes.drop_last();
        law_worker_failures_only_from_failed_workers(p);
        let n = outcomes.len() - 1;
        assert(outcomes[n] == outcomes.last());
        if forall|i: int| 0 <= i < outcomes.len() ==> #[trigger] outcomes[i] matches Joined::Returned(Ok(_)) {
            assert forall|i: int| 0 <= i < p.len() implies #[trigger] p[i] matches Joined::Returned(Ok(_)) by {
                assert(p[i] == outcomes[i]);
            }
        }
        if worker_failure_texts(outcomes).len() == 0 {
            assert forall|i: int| 0 <= i < outcomes.len() implies #[trigger] outcomes[i] matches Joined::Returned(Ok(_)) by {
                if i < n {
                    assert(p[i] == outcomes[i]);
                }
            }
        }
    }
}

/// Collects the failure texts of the capture workers.
pub fn worker_failures(outcomes: &Vec<Joined<(), AudioError>>) -> (r: Vec<String>)
    ensures
        views(r@) == worker_failure_texts(outcomes@),
{
    let mut out: Vec<String> = Vec::new();
    let mut i: usize = 0;
    while i < outcomes.len()
        invariant
            i <= outcomes@.len(),
            views(out@) == worker_failure_texts(outcomes@.take(i as int)),
        decreases outcomes.len() - i,
    {
        let ghost t = outcomes@.take(i + 1);
        assert(t.drop_last() =~= outcomes@.take(i as int));
        let ghost before = out@;
        match &outcomes[i] {
            Joined::Returned(Ok(_)) => {},
            Joined::Returned(Err(e)) => {
                out.push(e.message());
                assert(views(out@) =~= views(before).push(e.message_text()));
            },
            Joined::Panicked => {
                out.push(to_owned_string("capture thread panicked"));
                assert(views(out@) =~= views(before).push("capture thread panicked"@));
            },
        }
        i = i + 1;
    }
    assert(outcomes@.take(outcomes@.len() as int) =~= outcomes@);
    out
}

} // verus!
