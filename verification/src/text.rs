//! Character-level helpers on strings, with their meaning stated over `Seq<char>`.
use vstd::prelude::*;

verus! {

// ---------------------------------------------------------------------------
// Calls into std that vstd leaves unspecified.
// ---------------------------------------------------------------------------

/// What `str::to_lowercase` returns for a string: Unicode's full lowercase mapping,
/// applied character by character.
pub uninterp spec fn lowercase(s: Seq<char>) -> Seq<char>;

/// Calls `str::to_lowercase`. Claimed: the result is the lowercase mapping of the
/// characters of `s` and depends on them alone.
#[verifier::external_body]
pub(crate) fn to_lower(s: &str) -> (r: String)
    ensures
        r@ == lowercase(s@),
{
    s.to_lowercase()
}

/// Calls `String::push`. Claimed: the character is appended at the end.
#[verifier::external_body]
pub(crate) fn push_char(s: &mut String, c: char)
    ensures
        final(s)@ == old(s)@.push(c),
{
    s.push(c)
}

/// Calls `String::push_str`. Claimed: the characters of `t` are appended at the end.
#[verifier::external_body]
pub(crate) fn push_str(s: &mut String, t: &str)
    ensures
        final(s)@ == old(s)@ + t@,
{
    s.push_str(t)
}

/// A new string with the characters of `s`.
pub fn to_owned_string(s: &str) -> (r: String)
    ensures
        r@ == s@,
{
    s.to_owned()
}

/// `std::string::FromUtf8Error`, the error of `String::from_utf8`.
#[verifier::external_type_specification]
#[verifier::external_body]
pub struct ExFromUtf8Error(std::string::FromUtf8Error);

/// Calls `String::from_utf8`. Claimed: it succeeds exactly on valid UTF-8, and then
/// holds the decoded characters.
#[verifier::external_body]
pub(crate) fn string_from_utf8(bytes: Vec<u8>) -> (r: Result<String, std::string::FromUtf8Error>)
    ensures
        r is Ok <==> vstd::utf8::valid_utf8(bytes@),
        r matches Ok(s) ==> s@ == vstd::utf8::decode_utf8(bytes@),
{
    String::from_utf8(bytes)
}

/// Calls `to_string` on a `FromUtf8Error` (its `Display` text). Nothing is claimed of the
/// text.
#[verifier::external_body]
pub(crate) fn utf8_error_text(e: &std::string::FromUtf8Error) -> String {
    e.to_string()
}

/// What `String::from_utf8_lossy` makes of a byte sequence: its UTF-8 decoding, with
/// U+FFFD in place of each invalid sequence.
pub uninterp spec fn utf8_lossy(bytes: Seq<u8>) -> Seq<char>;

/// Calls `String::from_utf8_lossy` and takes the result as an owned `String`. Claimed: the
/// result depends on the bytes alone, and valid UTF-8 is decoded without replacement.
#[verifier::external_body]
pub(crate) fn decode_utf8_lossy(bytes: &[u8]) -> (r: String)
    ensures
        r@ == utf8_lossy(bytes@),
        vstd::utf8::valid_utf8(bytes@) ==> r@ == vstd::utf8::decode_utf8(bytes@),
{
    String::from_utf8_lossy(bytes).into_owned()
}

// ---------------------------------------------------------------------------
// Specifications.
// ---------------------------------------------------------------------------

/// `needle` occurs in `hay` as a contiguous run of characters.
pub open spec fn contains_seq(hay: Seq<char>, needle: Seq<char>) -> bool {
    exists|i: int| 0 <= i && i + needle.len() <= hay.len() && #[trigger] hay.subrange(i, i + needle.len()) == needle
}

/// Unicode `White_Space`, the property that `char::is_whitespace` tests.
pub open spec fn is_white_space(c: char) -> bool {
    ||| ('\u{9}' <= c && c <= '\u{d}')
    ||| c == ' '
    ||| c == '\u{85}'
    ||| c == '\u{a0}'
    ||| c == '\u{1680}'
    ||| ('\u{2000}' <= c && c <= '\u{200a}')
    ||| c == '\u{2028}'
    ||| c == '\u{2029}'
    ||| c == '\u{202f}'
    ||| c == '\u{205f}'
    ||| c == '\u{3000}'
}

/// ASCII letters and digits, as `char::is_ascii_alphanumeric` tests.
pub open spec fn is_ascii_alnum(c: char) -> bool {
    ||| ('a' <= c && c <= 'z')
    ||| ('A' <= c && c <= 'Z')
    ||| ('0' <= c && c <= '9')
}

/// `s` with every leading character that satisfies `f` removed.
pub open spec fn trim_start_by(s: Seq<char>, f: spec_fn(char) -> bool) -> Seq<char>
    decreases s.len(),
{
    if s.len() > 0 && f(s[0]) {
        trim_start_by(s.drop_first(), f)
    } else {
        s
    }
}

/// `s` with every trailing character that satisfies `f` removed.
pub open spec fn trim_end_by(s: Seq<char>, f: spec_fn(char) -> bool) -> Seq<char>
    decreases s.len(),
{
    if s.len() > 0 && f(s.last()) {
        trim_end_by(s.drop_last(), f)
    } else {
        s
    }
}

/// `s` with leading and trailing characters that satisfy `f` removed.
pub open spec fn trim_by(s: Seq<char>, f: spec_fn(char) -> bool) -> Seq<char> {
    trim_end_by(trim_start_by(s, f), f)
}

/// What `str::trim` returns.
pub open spec fn trim_ws(s: Seq<char>) -> Seq<char> {
    trim_by(s, |c: char| is_white_space(c))
}

/// The decimal digit for `d < 10`.
pub open spec fn digit_char(d: nat) -> char {
    if d == 0 { '0' }
    else if d == 1 { '1' }
    else if d == 2 { '2' }
    else if d == 3 { '3' }
    else if d == 4 { '4' }
    else if d == 5 { '5' }
    else if d == 6 { '6' }
    else if d == 7 { '7' }
    else if d == 8 { '8' }
    else { '9' }
}

/// The decimal representation of `n`, without leading zeros, as `to_string` gives it.
pub open spec fn decimal(n: nat) -> Seq<char>
    decreases n,
{
    if n < 10 {
        seq![digit_char(n)]
    } else {
        decimal(n / 10).push(digit_char(n % 10))
    }
}

// ---------------------------------------------------------------------------
// Lemmas.
// ---------------------------------------------------------------------------

/// A digit below ten is written as an ASCII digit of that value.
pub proof fn lemma_digit_char(d: nat)
    requires
        d < 10,
    ensures
        is_digit(digit_char(d)),
        digit_value(digit_char(d)) == d,
{
}

/// The decimal text of a number is a non-empty run of digits that reads back as the
/// number.
pub proof fn lemma_decimal_digits(n: nat)
    ensures
        decimal(n).len() >= 1,
        all_digits(decimal(n)),
        digits_value(decimal(n)) == n,
    decreases n,
{
    lemma_digit_char(n % 10);
    if n < 10 {
        lemma_digit_char(n);
        assert(decimal(n).drop_last() =~= Seq::<char>::empty());
        assert(decimal(n).last() == digit_char(n));
        assert(digits_value(decimal(n)) == digits_value(Seq::<char>::empty()) * 10 + digit_value(digit_char(n)));
    } else {
        lemma_decimal_digits(n / 10);
        let s = decimal(n / 10);
        assert(decimal(n).drop_last() =~= s);
        assert(decimal(n).last() == digit_char(n % 10));
        assert((n / 10) * 10 + n % 10 == n) by (nonlinear_arith);
        assert(digits_value(decimal(n)) == digits_value(s) * 10 + digit_value(digit_char(n % 10)));
        assert forall|i: int| 0 <= i < decimal(n).len() implies is_digit(#[trigger] decimal(n)[i]) by {
            if i < s.len() {
                assert(decimal(n)[i] == s[i]);
            }
        }
    }
}

/// Different numbers have different decimal texts.
pub proof fn lemma_decimal_injective(a: nat, b: nat)
    requires
        decimal(a) == decimal(b),
    ensures
        a == b,
{
    lemma_decimal_digits(a);
    lemma_decimal_digits(b);
}

/// Removing the leading run of `f`-characters gives the suffix that starts at the first
/// character outside `f`.
pub proof fn lemma_trim_start_at(s: Seq<char>, f: spec_fn(char) -> bool, k: int)
    requires
        0 <= k <= s.len(),
        forall|i: int| 0 <= i < k ==> f(#[trigger] s[i]),
        k < s.len() ==> !f(s[k]),
    ensures
        trim_start_by(s, f) == s.subrange(k, s.len() as int),
    decreases k,
{
    if k == 0 {
        assert(s.subrange(0, s.len() as int) =~= s);
    } else {
        let t = s.drop_first();
        assert forall|i: int| 0 <= i < k - 1 implies f(#[trigger] t[i]) by {
            assert(t[i] == s[i + 1]);
        }
        if k - 1 < t.len() {
            assert(t[k - 1] == s[k]);
        }
        lemma_trim_start_at(t, f, k - 1);
        assert(t.subrange(k - 1, t.len() as int) =~= s.subrange(k, s.len() as int));
    }
}

/// Removing the trailing run of `f`-characters gives the prefix that ends after the last
/// character outside `f`.
pub proof fn lemma_trim_end_at(s: Seq<char>, f: spec_fn(char) -> bool, k: int)
    requires
        0 <= k <= s.len(),
        forall|i: int| k <= i < s.len() ==> f(#[trigger] s[i]),
        k > 0 ==> !f(s[k - 1]),
    ensures
        trim_end_by(s, f) == s.subrange(0, k),
    decreases s.len() - k,
{
    if k == s.len() {
        assert(s.subrange(0, k) =~= s);
    } else {
        let t = s.drop_last();
        assert forall|i: int| k <= i < t.len() implies f(#[trigger] t[i]) by {
            assert(t[i] == s[i]);
        }
        if k > 0 {
            assert(t[k - 1] == s[k - 1]);
        }
        assert(f(s.last()));
        lemma_trim_end_at(t, f, k);
        assert(t.subrange(0, k) =~= s.subrange(0, k));
    }
}

/// A trimmed sequence starts and ends outside `f`.
pub proof fn lemma_trim_by_bounds(s: Seq<char>, f: spec_fn(char) -> bool)
    ensures
        trim_by(s, f).len() > 0 ==> !f(trim_by(s, f)[0]) && !f(trim_by(s, f).last()),
        trim_by(s, f).len() <= s.len(),
    decreases s.len(),
{
    lemma_trim_start_shape(s, f);
    lemma_trim_end_shape(trim_start_by(s, f), f);
}

/// A sequence that neither starts nor ends with an `f`-character is its own trim.
pub proof fn lemma_trim_by_unchanged(s: Seq<char>, f: spec_fn(char) -> bool)
    requires
        s.len() > 0 ==> !f(s[0]) && !f(s.last()),
    ensures
        trim_by(s, f) == s,
{
    lemma_trim_start_at(s, f, 0);
    assert(s.subrange(0, s.len() as int) =~= s);
    lemma_trim_end_at(s, f, s.len() as int);
}

/// Trimming keeps a sequence whose first character is outside `f` non-empty.
pub proof fn lemma_trim_by_nonempty(s: Seq<char>, f: spec_fn(char) -> bool)
    requires
        s.len() > 0,
        !f(s[0]),
    ensures
        trim_by(s, f).len() > 0,
{
    lemma_trim_start_at(s, f, 0);
    assert(s.subrange(0, s.len() as int) =~= s);
    lemma_trim_end_nonempty(s, f);
}

proof fn lemma_trim_end_nonempty(s: Seq<char>, f: spec_fn(char) -> bool)
    requires
        s.len() > 0,
        !f(s[0]),
    ensures
        trim_end_by(s, f).len() > 0,
    decreases s.len(),
{
    if f(s.last()) {
        assert(s.len() > 1);
        assert(s.drop_last()[0] == s[0]);
        lemma_trim_end_nonempty(s.drop_last(), f);
    }
}

/// Removing a character that does not occur changes nothing.
pub proof fn lemma_remove_absent_char(s: Seq<char>, ch: char)
    requires
        forall|i: int| 0 <= i < s.len() ==> s[i] != ch,
    ensures
        remove_char(s, ch) == s,
    decreases s.len(),
{
    if s.len() > 0 {
        lemma_remove_absent_char(s.drop_last(), ch);
        assert(s.drop_last().push(s.last()) =~= s);
    }
}

/// The decimal text of a number that fits in 32 bits parses back to it, with or without
/// a leading `+`.
pub proof fn law_parse_reads_decimal(n: u32)
    ensures
        parsed_u32(decimal(n as nat)) == Some(n),
        parsed_u32(seq!['+'] + decimal(n as nat)) == Some(n),
{
    lemma_decimal_digits(n as nat);
    let d = decimal(n as nat);
    assert(is_digit(d[0]));
    let p = seq!['+'] + d;
    assert(p.drop_first() =~= d);
}

/// Text with a character that is not a digit, other than a leading `+`, is no number;
/// neither is empty text.
pub proof fn law_parse_rejects_non_digits(s: Seq<char>, i: int)
    requires
        0 <= i < s.len(),
        !is_digit(s[i]),
        !(i == 0 && s[0] == '+'),
    ensures
        parsed_u32(s) is None,
        parsed_u32(Seq::<char>::empty()) is None,
{
    if s[0] == '+' {
        assert(s.drop_first()[i - 1] == s[i]);
    }
}

proof fn lemma_trim_start_shape(s: Seq<char>, f: spec_fn(char) -> bool)
    ensures
        trim_start_by(s, f).len() <= s.len(),
        trim_start_by(s, f).len() > 0 ==> !f(trim_start_by(s, f)[0]),
    decreases s.len(),
{
    if s.len() > 0 && f(s[0]) {
        lemma_trim_start_shape(s.drop_first(), f);
    }
}

proof fn lemma_trim_end_shape(s: Seq<char>, f: spec_fn(char) -> bool)
    ensures
        trim_end_by(s, f).len() <= s.len(),
        trim_end_by(s, f).len() > 0 ==> !f(trim_end_by(s, f).last()) && trim_end_by(s, f)[0]
            == s[0],
    decreases s.len(),
{
    if s.len() > 0 && f(s.last()) {
        lemma_trim_end_shape(s.drop_last(), f);
    }
}

// ---------------------------------------------------------------------------
// Executable helpers.
// ---------------------------------------------------------------------------

/// The characters of a string, in order.
pub fn chars_of(s: &str) -> (v: Vec<char>)
    ensures
        v@ == s@,
{
    let mut v: Vec<char> = Vec::new();
    for c in it: s.chars()
        invariant
            v@ == it.seq().take(it.index() as int),
            it.seq() == s@,
    {
        v.push(c);
    }
    v
}

/// A string that holds the characters `v[lo..hi]`.
pub fn string_from_range(v: &Vec<char>, lo: usize, hi: usize) -> (r: String)
    requires
        lo <= hi <= v.len(),
    ensures
        r@ == v@.subrange(lo as int, hi as int),
{
    let mut r = String::new();
    let mut i = lo;
    while i < hi
        invariant
            lo <= i <= hi <= v.len(),
            r@ == v@.subrange(lo as int, i as int),
        decreases hi - i,
    {
        push_char(&mut r, v[i]);
        assert(v@.subrange(lo as int, i + 1) =~= v@.subrange(lo as int, i as int).push(v@[i as int]));
        i = i + 1;
    }
    r
}

/// A string that holds the characters of `v`.
pub fn string_from_chars(v: &Vec<char>) -> (r: String)
    ensures
        r@ == v@,
{
    let r = string_from_range(v, 0, v.len());
    assert(v@.subrange(0, v@.len() as int) =~= v@);
    r
}

/// Whether `v[start..start + n.len()]` equals `n`.
fn matches_at(h: &Vec<char>, n: &Vec<char>, start: usize) -> (r: bool)
    requires
        start + n.len() <= h.len(),
    ensures
        r == (h@.subrange(start as int, start + n.len()) == n@),
{
    let mut j: usize = 0;
    while j < n.len()
        invariant
            start + n.len() <= h.len(),
            j <= n.len(),
            forall|k: int| 0 <= k < j ==> h@[start + k] == n@[k],
        decreases n.len() - j,
    {
        if h[start + j] != n[j] {
            assert(h@.subrange(start as int, start + n.len())[j as int] != n@[j as int]);
            return false;
        }
        j = j + 1;
    }
    assert(h@.subrange(start as int, start + n.len()) =~= n@);
    true
}

/// Whether `n` occurs in `h`.
pub fn seq_contains(h: &Vec<char>, n: &Vec<char>) -> (r: bool)
    ensures
        r == contains_seq(h@, n@),
{
    if n.len() > h.len() {
        return false;
    }
    if n.len() == 0 {
        assert(h@.subrange(0, 0 + n@.len() as int) =~= n@);
        return true;
    }
    let last = h.len() - n.len();
    let mut i: usize = 0;
    while i <= last
        invariant
            last == h.len() - n.len(),
            1 <= n.len() <= h.len(),
            i <= last + 1,
            forall|k: int| 0 <= k < i ==> #[trigger] h@.subrange(k, k + n.len()) != n@,
        decreases last + 1 - i,
    {
        if matches_at(h, n, i) {
            return true;
        }
        i = i + 1;
    }
    false
}

/// Whether the characters of `n` occur in `h`, as `str::contains` tests.
pub fn str_contains(h: &str, n: &str) -> (r: bool)
    ensures
        r == contains_seq(h@, n@),
{
    let hv = chars_of(h);
    let nv = chars_of(n);
    seq_contains(&hv, &nv)
}

/// Whether two strings hold the same characters.
pub fn str_eq(a: &str, b: &str) -> (r: bool)
    ensures
        r == (a@ == b@),
{
    let av = chars_of(a);
    let bv = chars_of(b);
    if av.len() != bv.len() {
        return false;
    }
    let mut i: usize = 0;
    while i < av.len()
        invariant
            av.len() == bv.len(),
            av@ == a@,
            bv@ == b@,
            i <= av.len(),
            forall|k: int| 0 <= k < i ==> av@[k] == bv@[k],
        decreases av.len() - i,
    {
        if av[i] != bv[i] {
            assert(av@[i as int] != bv@[i as int]);
            assert(av@ != bv@);
            assert(a@ != b@);
            return false;
        }
        i = i + 1;
    }
    assert(av@ =~= bv@);
    true
}

/// Whether `c` is Unicode white space, as `char::is_whitespace` tests.
pub fn is_whitespace(c: char) -> (r: bool)
    ensures
        r == is_white_space(c),
{
    ('\u{9}' <= c && c <= '\u{d}') || c == ' ' || c == '\u{85}' || c == '\u{a0}' || c
        == '\u{1680}' || ('\u{2000}' <= c && c <= '\u{200a}') || c == '\u{2028}' || c
        == '\u{2029}' || c == '\u{202f}' || c == '\u{205f}' || c == '\u{3000}'
}

/// Whether `c` is an ASCII letter or digit.
pub fn is_ascii_alphanumeric(c: char) -> (r: bool)
    ensures
        r == is_ascii_alnum(c),
{
    ('a' <= c && c <= 'z') || ('A' <= c && c <= 'Z') || ('0' <= c && c <= '9')
}

/// `s` without leading and trailing white space, as `str::trim` gives it.
pub fn trim(s: &str) -> (r: String)
    ensures
        r@ == trim_ws(s@),
{
    let v = chars_of(s);
    let ghost f = |c: char| is_white_space(c);
    let mut lo: usize = 0;
    while lo < v.len() && is_whitespace(v[lo])
        invariant
            lo <= v.len(),
            forall|i: int| 0 <= i < lo ==> is_white_space(#[trigger] v@[i]),
        decreases v.len() - lo,
    {
        lo = lo + 1;
    }
    proof {
        lemma_trim_start_at(v@, f, lo as int);
    }
    let ghost t = v@.subrange(lo as int, v@.len() as int);
    let mut hi: usize = v.len();
    while hi > lo && is_whitespace(v[hi - 1])
        invariant
            lo <= hi <= v.len(),
            t == v@.subrange(lo as int, v@.len() as int),
            forall|i: int| hi <= i < v.len() ==> is_white_space(#[trigger] v@[i]),
        decreases hi - lo,
    {
        hi = hi - 1;
    }
    proof {
        assert forall|i: int| hi - lo <= i < t.len() implies f(#[trigger] t[i]) by {
            assert(t[i] == v@[lo + i]);
        }
        if hi > lo {
            assert(t[hi - lo - 1] == v@[hi - 1]);
        }
        lemma_trim_end_at(t, f, hi - lo);
        assert(t.subrange(0, hi - lo) =~= v@.subrange(lo as int, hi as int));
    }
    string_from_range(&v, lo, hi)
}

/// `s` without leading and trailing copies of `ch`, as `str::trim_matches(ch)` gives it.
pub fn trim_char(s: &str, ch: char) -> (r: String)
    ensures
        r@ == trim_by(s@, |c: char| c == ch),
{
    let v = chars_of(s);
    let ghost f = |c: char| c == ch;
    let mut lo: usize = 0;
    while lo < v.len() && v[lo] == ch
        invariant
            lo <= v.len(),
            forall|i: int| 0 <= i < lo ==> #[trigger] v@[i] == ch,
        decreases v.len() - lo,
    {
        lo = lo + 1;
    }
    proof {
        lemma_trim_start_at(v@, f, lo as int);
    }
    let ghost t = v@.subrange(lo as int, v@.len() as int);
    let mut hi: usize = v.len();
    while hi > lo && v[hi - 1] == ch
        invariant
            lo <= hi <= v.len(),
            t == v@.subrange(lo as int, v@.len() as int),
            forall|i: int| hi <= i < v.len() ==> #[trigger] v@[i] == ch,
        decreases hi - lo,
    {
        hi = hi - 1;
    }
    proof {
        assert forall|i: int| hi - lo <= i < t.len() implies f(#[trigger] t[i]) by {
            assert(t[i] == v@[lo + i]);
        }
        if hi > lo {
            assert(t[hi - lo - 1] == v@[hi - 1]);
        }
        lemma_trim_end_at(t, f, hi - lo);
        assert(t.subrange(0, hi - lo) =~= v@.subrange(lo as int, hi as int));
    }
    string_from_range(&v, lo, hi)
}

/// `s` without trailing copies of `ch`, as `str::trim_end_matches(ch)` gives it.
pub fn trim_end_char(s: &str, ch: char) -> (r: String)
    ensures
        r@ == trim_end_by(s@, |c: char| c == ch),
{
    let v = chars_of(s);
    let ghost f = |c: char| c == ch;
    let mut hi: usize = v.len();
    while hi > 0 && v[hi - 1] == ch
        invariant
            hi <= v.len(),
            forall|i: int| hi <= i < v.len() ==> #[trigger] v@[i] == ch,
        decreases hi,
    {
        hi = hi - 1;
    }
    proof {
        lemma_trim_end_at(v@, f, hi as int);
    }
    string_from_range(&v, 0, hi)
}

/// The digit character for `d < 10`.
fn digit(d: u64) -> (c: char)
    requires
        d < 10,
    ensures
        c == digit_char(d as nat),
{
    if d == 0 { '0' }
    else if d == 1 { '1' }
    else if d == 2 { '2' }
    else if d == 3 { '3' }
    else if d == 4 { '4' }
    else if d == 5 { '5' }
    else if d == 6 { '6' }
    else if d == 7 { '7' }
    else if d == 8 { '8' }
    else { '9' }
}

/// Appends the decimal representation of `n`.
pub fn push_decimal(s: &mut String, n: u64)
    ensures
        final(s)@ == old(s)@ + decimal(n as nat),
    decreases n,
{
    if n >= 10 {
        push_decimal(s, n / 10);
    }
    push_char(s, digit(n % 10));
    proof {
        if n >= 10 {
            assert(decimal(n as nat) == decimal((n / 10) as nat).push(digit_char((n % 10) as nat)));
        }
    }
    assert(final(s)@ =~= old(s)@ + decimal(n as nat)) by {
        if n < 10 {
            assert(decimal(n as nat) =~= seq![digit_char(n as nat)]);
        }
    }
}

/// The decimal representation of `n`, as `n.to_string()` gives it.
pub fn decimal_string(n: u64) -> (r: String)
    ensures
        r@ == decimal(n as nat),
{
    let mut r = String::new();
    push_decimal(&mut r, n);
    assert(r@ =~= decimal(n as nat));
    r
}

/// `a` followed by `b`.
pub fn concat2(a: &str, b: &str) -> (r: String)
    ensures
        r@ == a@ + b@,
{
    let mut r = to_owned_string(a);
    push_str(&mut r, b);
    r
}

/// `a`, `b` and `c` one after the other.
pub fn concat3(a: &str, b: &str, c: &str) -> (r: String)
    ensures
        r@ == a@ + b@ + c@,
{
    let mut r = to_owned_string(a);
    push_str(&mut r, b);
    push_str(&mut r, c);
    r
}

// ---------------------------------------------------------------------------
// Parsing numbers and lines.
// ---------------------------------------------------------------------------

/// An ASCII decimal digit.
pub open spec fn is_digit(c: char) -> bool {
    '0' <= c && c <= '9'
}

/// The value of an ASCII decimal digit.
pub open spec fn digit_value(c: char) -> nat {
    (c as int - '0' as int) as nat
}

/// The value of a run of decimal digits.
pub open spec fn digits_value(s: Seq<char>) -> nat
    decreases s.len(),
{
    if s.len() == 0 {
        0
    } else {
        digits_value(s.drop_last()) * 10 + digit_value(s.last())
    }
}

/// Every character is a decimal digit.
pub open spec fn all_digits(s: Seq<char>) -> bool {
    forall|i: int| 0 <= i < s.len() ==> is_digit(#[trigger] s[i])
}

/// What `str::parse::<u32>` gives: an optional `+`, then one or more decimal digits whose
/// value fits in a `u32`; anything else fails.
pub open spec fn parsed_u32(s: Seq<char>) -> Option<u32> {
    let body = if s.len() > 0 && s[0] == '+' {
        s.drop_first()
    } else {
        s
    };
    if body.len() > 0 && all_digits(body) && digits_value(body) <= u32::MAX {
        Some(digits_value(body) as u32)
    } else {
        None
    }
}

proof fn lemma_digits_value_grows(s: Seq<char>, c: char)
    requires
        is_digit(c),
    ensures
        digits_value(s.push(c)) >= digits_value(s),
        digits_value(s.push(c)) == digits_value(s) * 10 + digit_value(c),
{
    assert(s.push(c).drop_last() =~= s);
}

proof fn lemma_digits_prefix_bound(s: Seq<char>, k: int)
    requires
        0 <= k <= s.len(),
        forall|i: int| 0 <= i < s.len() ==> is_digit(#[trigger] s[i]),
    ensures
        digits_value(s) >= digits_value(s.take(k)),
    decreases s.len(),
{
    if k < s.len() {
        let t = s.drop_last();
        assert forall|i: int| 0 <= i < t.len() implies is_digit(#[trigger] t[i]) by {
            assert(t[i] == s[i]);
        }
        lemma_digits_prefix_bound(t, k);
        assert(t.take(k) =~= s.take(k));
    } else {
        assert(s.take(k) =~= s);
    }
}

/// Parses a decimal `u32` the way `str::parse::<u32>` does.
pub fn parse_u32(s: &str) -> (r: Option<u32>)
    ensures
        r == parsed_u32(s@),
{
    let v = chars_of(s);
    let mut start: usize = 0;
    if v.len() > 0 && v[0] == '+' {
        start = 1;
    }
    let ghost body = if v@.len() > 0 && v@[0] == '+' {
        v@.drop_first()
    } else {
        v@
    };
    assert(body =~= v@.subrange(start as int, v@.len() as int));
    if start >= v.len() {
        return None;
    }
    let mut value: u64 = 0;
    let mut i: usize = start;
    while i < v.len()
        invariant
            start <= i <= v.len(),
            v@ == s@,
            body == v@.subrange(start as int, v@.len() as int),
            body == (if s@.len() > 0 && s@[0] == '+' {
                s@.drop_first()
            } else {
                s@
            }),
            forall|k: int| start <= k < i ==> is_digit(#[trigger] v@[k]),
            value == digits_value(v@.subrange(start as int, i as int)),
            value <= u32::MAX,
        decreases v.len() - i,
    {
        let c = v[i];
        if !('0' <= c && c <= '9') {
            assert(body[i - start] == c);
            assert(!is_digit(body[i - start]));
            assert(!all_digits(body));
            return None;
        }
        let ghost pre = v@.subrange(start as int, i as int);
        assert(v@.subrange(start as int, i + 1) =~= pre.push(c));
        proof {
            lemma_digits_value_grows(pre, c);
        }
        let d = (c as u32 - '0' as u32) as u64;
        value = value * 10 + d;
        if value > 4294967295u64 {
            proof {
                if all_digits(body) {
                    lemma_digits_prefix_bound(body, i + 1 - start);
                    assert(body.take(i + 1 - start) =~= v@.subrange(start as int, i + 1));
                }
            }
            return None;
        }
        i = i + 1;
    }
    assert(v@.subrange(start as int, v@.len() as int) == body);
    assert(all_digits(body)) by {
        assert forall|k: int| 0 <= k < body.len() implies is_digit(#[trigger] body[k]) by {
            assert(body[k] == v@[start + k]);
        }
    }
    Some(value as u32)
}

/// A line without the `\r` of a `\r\n` ending.
pub open spec fn strip_cr(c: Seq<char>) -> Seq<char> {
    if c.len() > 0 && c.last() == '\r' {
        c.drop_last()
    } else {
        c
    }
}

/// The finished lines and the unfinished last line after reading `s`.
pub open spec fn lines_state(s: Seq<char>) -> (Seq<Seq<char>>, Seq<char>)
    decreases s.len(),
{
    if s.len() == 0 {
        (Seq::empty(), Seq::empty())
    } else {
        let (done, cur) = lines_state(s.drop_last());
        if s.last() == '\n' {
            (done.push(strip_cr(cur)), Seq::empty())
        } else {
            (done, cur.push(s.last()))
        }
    }
}

/// The lines of `s` as `str::lines` yields them: split at `\n`, a `\r` before the `\n`
/// dropped, and no empty line after a final `\n`.
pub open spec fn lines_of(s: Seq<char>) -> Seq<Seq<char>> {
    let (done, cur) = lines_state(s);
    if cur.len() > 0 {
        done.push(cur)
    } else {
        done
    }
}

proof fn lemma_lines_state_push(s: Seq<char>, c: char)
    ensures
        lines_state(s.push(c)) == (if c == '\n' {
            (lines_state(s).0.push(strip_cr(lines_state(s).1)), Seq::<char>::empty())
        } else {
            (lines_state(s).0, lines_state(s).1.push(c))
        }),
{
    assert(s.push(c).drop_last() =~= s);
}

proof fn lemma_lines_state_no_newline(a: Seq<char>)
    requires
        forall|i: int| 0 <= i < a.len() ==> a[i] != '\n',
    ensures
        lines_state(a) == (Seq::<Seq<char>>::empty(), a),
    decreases a.len(),
{
    if a.len() > 0 {
        lemma_lines_state_no_newline(a.drop_last());
        lemma_lines_state_push(a.drop_last(), a.last());
        assert(a.drop_last().push(a.last()) =~= a);
    }
}

proof fn lemma_lines_state_after_line(x: Seq<char>, b: Seq<char>)
    requires
        lines_state(x).1.len() == 0,
    ensures
        lines_state(x + b) == (lines_state(x).0 + lines_state(b).0, lines_state(b).1),
    decreases b.len(),
{
    if b.len() == 0 {
        assert(x + b =~= x);
        assert(lines_state(x).0 + Seq::<Seq<char>>::empty() =~= lines_state(x).0);
        assert(lines_state(x).1 =~= Seq::<char>::empty());
    } else {
        let p = b.drop_last();
        lemma_lines_state_after_line(x, p);
        assert(x + b =~= (x + p).push(b.last()));
        lemma_lines_state_push(x + p, b.last());
        lemma_lines_state_push(p, b.last());
        assert(p.push(b.last()) =~= b);
        assert((lines_state(x).0 + lines_state(p).0).push(strip_cr(lines_state(p).1)) =~= lines_state(x).0 + lines_state(
            p,
        ).0.push(strip_cr(lines_state(p).1)));
    }
}

/// Text splits into lines at each `\n`: a first line `a` (holding no `\n`) ended by `\n`
/// or `\r\n` comes first, and the lines of the rest follow; the text without a final
/// newline still yields its last line, and empty text yields none.
pub proof fn law_lines_split_at_newline(a: Seq<char>, b: Seq<char>)
    requires
        forall|i: int| 0 <= i < a.len() ==> a[i] != '\n',
    ensures
        (a.len() == 0 || a.last() != '\r') ==> lines_of(a + seq!['\n'] + b) == seq![a] + lines_of(b),
        lines_of(a + seq!['\r', '\n'] + b) == seq![a] + lines_of(b),
        a.len() > 0 ==> lines_of(a) == seq![a],
        lines_of(Seq::<char>::empty()).len() == 0,
{
    lemma_lines_state_no_newline(a);
    lemma_lines_state_push(a, '\n');
    let x = a.push('\n');
    assert(a + seq!['\n'] + b =~= x + b);
    lemma_lines_state_after_line(x, b);
    if a.len() == 0 || a.last() != '\r' {
        assert(strip_cr(a) == a);
    }
    assert(lines_state(x).0 =~= seq![strip_cr(a)]);
    let ls = lines_state(b);
    if ls.1.len() > 0 {
        assert(seq![strip_cr(a)] + ls.0.push(ls.1) =~= (seq![strip_cr(a)] + ls.0).push(ls.1));
    }
    let a2 = a.push('\r');
    assert forall|i: int| 0 <= i < a2.len() implies a2[i] != '\n' by {
        if i < a.len() {
            assert(a2[i] == a[i]);
        }
    }
    lemma_lines_state_no_newline(a2);
    lemma_lines_state_push(a2, '\n');
    let y = a2.push('\n');
    assert(a + seq!['\r', '\n'] + b =~= y + b);
    lemma_lines_state_after_line(y, b);
    assert(strip_cr(a2) =~= a);
    assert(lines_state(y).0 =~= seq![a]);
    if ls.1.len() > 0 {
        assert(seq![a] + ls.0.push(ls.1) =~= (seq![a] + ls.0).push(ls.1));
    }
}

/// The views of a vector of strings.
pub open spec fn views(v: Seq<String>) -> Seq<Seq<char>> {
    v.map_values(|x: String| x@)
}

/// Splits `s` into lines, as `str::lines` does.
pub fn split_lines(s: &str) -> (r: Vec<String>)
    ensures
        views(r@) == lines_of(s@),
{
    let v = chars_of(s);
    let mut done: Vec<String> = Vec::new();
    let mut cur: Vec<char> = Vec::new();
    let mut i: usize = 0;
    while i < v.len()
        invariant
            i <= v@.len(),
            v@ == s@,
            views(done@) == lines_state(v@.take(i as int)).0,
            cur@ == lines_state(v@.take(i as int)).1,
        decreases v.len() - i,
    {
        let ghost t = v@.take(i + 1);
        assert(t.drop_last() =~= v@.take(i as int));
        let c = v[i];
        if c == '\n' {
            let mut end = cur.len();
            if end > 0 && cur[end - 1] == '\r' {
                end = end - 1;
            }
            let line = string_from_range(&cur, 0, end);
            proof {
                let sc = strip_cr(cur@);
                if cur@.len() > 0 && cur@.last() == '\r' {
                    assert(sc =~= cur@.subrange(0, end as int));
                } else {
                    assert(sc =~= cur@.subrange(0, end as int));
                }
            }
            let ghost old_done = done@;
            done.push(line);
            assert(views(done@) =~= views(old_done).push(line@));
            cur = Vec::new();
        } else {
            cur.push(c);
        }
        i = i + 1;
    }
    assert(v@.take(v@.len() as int) =~= v@);
    if cur.len() > 0 {
        let line = string_from_chars(&cur);
        let ghost old_done = done@;
        done.push(line);
        assert(views(done@) =~= views(old_done).push(line@));
    }
    done
}

/// `s` without any `ch`.
pub open spec fn remove_char(s: Seq<char>, ch: char) -> Seq<char>
    decreases s.len(),
{
    if s.len() == 0 {
        Seq::empty()
    } else if s.last() == ch {
        remove_char(s.drop_last(), ch)
    } else {
        remove_char(s.drop_last(), ch).push(s.last())
    }
}

/// `s` without any `ch`, as `str::replace(ch, "")` gives it.
pub fn without_char(s: &str, ch: char) -> (r: String)
    ensures
        r@ == remove_char(s@, ch),
{
    let v = chars_of(s);
    let mut r = String::new();
    let mut i: usize = 0;
    while i < v.len()
        invariant
            i <= v@.len(),
            v@ == s@,
            r@ == remove_char(v@.take(i as int), ch),
        decreases v.len() - i,
    {
        let ghost t = v@.take(i + 1);
        assert(t.drop_last() =~= v@.take(i as int));
        if v[i] != ch {
            push_char(&mut r, v[i]);
        }
        i = i + 1;
    }
    assert(v@.take(v@.len() as int) =~= v@);
    r
}

/// The texts of `items` with `sep` between each two.
pub open spec fn joined(items: Seq<Seq<char>>, sep: Seq<char>) -> Seq<char>
    decreases items.len(),
{
    if items.len() == 0 {
        Seq::empty()
    } else if items.len() == 1 {
        items[0]
    } else {
        joined(items.drop_last(), sep) + sep + items.last()
    }
}

/// Joins strings with a separator, as `join` does.
pub fn join_strings(items: &Vec<String>, sep: &str) -> (r: String)
    ensures
        r@ == joined(views(items@), sep@),
{
    let mut r = String::new();
    let mut i: usize = 0;
    while i < items.len()
        invariant
            i <= items@.len(),
            r@ == joined(views(items@).take(i as int), sep@),
        decreases items.len() - i,
    {
        let ghost t = views(items@).take(i + 1);
        assert(t.drop_last() =~= views(items@).take(i as int));
        if i > 0 {
            push_str(&mut r, sep);
        }
        push_str(&mut r, items[i].as_str());
        proof {
            if i == 0 {
                assert(t.len() == 1);
                assert(r@ =~= t[0]);
            }
        }
        i = i + 1;
    }
    assert(views(items@).take(items@.len() as int) =~= views(items@));
    r
}

} // verus!
