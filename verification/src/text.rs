//! Verified helpers over character sequences: scanning for a character,
//! equality of string slices, and building owned strings.

use vstd::prelude::*;
use vstd::string::StrSliceExecFns;
use vstd::string::StringExecFns;

verus! {

/// The first index at or after `i` where `c` occurs in `s`, or `s.len()`
/// when `c` does not occur there.
pub open spec fn scan_to(s: Seq<char>, i: int, c: char) -> int
    decreases s.len() - i when i <= s.len()
{
    if i >= s.len() {
        s.len() as int
    } else if s[i] == c {
        i
    } else {
        scan_to(s, i + 1, c)
    }
}

pub proof fn lemma_scan_to(s: Seq<char>, i: int, c: char)
    requires
        0 <= i <= s.len(),
    ensures
        i <= scan_to(s, i, c) <= s.len(),
        forall|j: int| i <= j < scan_to(s, i, c) ==> s[j] != c,
        scan_to(s, i, c) < s.len() ==> s[scan_to(s, i, c)] == c,
    decreases s.len() - i,
{
    if i < s.len() && s[i] != c {
        lemma_scan_to(s, i + 1, c);
    }
}

/// `scan_to` is pinned down by its characterization: it returns `k`
/// exactly when nothing in `[i, k)` is `c` and `k` is the end or holds
/// `c`.
pub proof fn lemma_scan_to_from(s: Seq<char>, i: int, k: int, c: char)
    requires
        0 <= i <= k <= s.len(),
        forall|j: int| i <= j < k ==> s[j] != c,
        k < s.len() ==> s[k] == c,
    ensures
        scan_to(s, i, c) == k,
{
    lemma_scan_to(s, i, c);
    let r = scan_to(s, i, c);
    if r < k {
        assert(s[r] == c);
        assert(false);
    }
    if r > k {
        assert(s[k] != c);
        assert(false);
    }
}

/// The first occurrence of `c` in `s` at or after `from`, or the character
/// length of `s` when there is none.
pub fn find_char(s: &str, from: usize, c: char) -> (r: usize)
    requires
        from <= s@.len(),
    ensures
        r == scan_to(s@, from as int, c),
{
    let n = s.unicode_len();
    let mut i = from;
    while i < n
        invariant
            from <= i <= n,
            n == s@.len(),
            scan_to(s@, from as int, c) == scan_to(s@, i as int, c),
        decreases n - i,
    {
        if s.get_char(i) == c {
            return i;
        }
        i = i + 1;
    }
    i
}

/// Character-wise equality of two string slices.
pub fn str_eq_str(a: &str, b: &str) -> (r: bool)
    ensures
        r == (a@ == b@),
{
    let na = a.unicode_len();
    let nb = b.unicode_len();
    if na != nb {
        assert(a@ != b@) by {
            assert(a@.len() != b@.len());
        }
        return false;
    }
    let mut i: usize = 0;
    while i < na
        invariant
            0 <= i <= na,
            na == a@.len(),
            na == b@.len(),
            forall|j: int| 0 <= j < i ==> a@[j] == b@[j],
        decreases na - i,
    {
        if a.get_char(i) != b.get_char(i) {
            return false;
        }
        i = i + 1;
    }
    assert(a@ =~= b@);
    true
}

/// An owned copy of the characters of `s` from `from` (inclusive) to `to`
/// (exclusive).
pub fn substring_owned(s: &str, from: usize, to: usize) -> (r: String)
    requires
        from <= to <= s@.len(),
    ensures
        r@ == s@.subrange(from as int, to as int),
{
    let piece = s.substring_char(from, to);
    String::from_str(piece)
}

pub open spec fn spec_starts_with(s: Seq<char>, p: Seq<char>) -> bool {
    s.len() >= p.len() && s.subrange(0, p.len() as int) == p
}

/// Whether `s` begins with the characters of `p`.
pub fn str_starts_with(s: &str, p: &str) -> (r: bool)
    ensures
        r == spec_starts_with(s@, p@),
{
    let n = s.unicode_len();
    let m = p.unicode_len();
    if m > n {
        return false;
    }
    let head = s.substring_char(0, m);
    str_eq_str(head, p)
}

/// Relies on `String::push`: appends one character at the end.
#[verifier::external_body]
pub(crate) fn push_char(s: &mut String, c: char)
    ensures
        final(s)@ == old(s)@.push(c),
{
    s.push(c);
}

/// `s` with every carriage-return/line-feed pair removed, scanning left
/// to right.
pub open spec fn spec_strip_crlf(s: Seq<char>) -> Seq<char>
    decreases s.len(),
{
    if s.len() == 0 {
        s
    } else if s.len() >= 2 && s[0] == '\r' && s[1] == '\n' {
        spec_strip_crlf(s.skip(2))
    } else {
        seq![s[0]] + spec_strip_crlf(s.skip(1))
    }
}

/// Removes every carriage-return/line-feed pair, exactly as
/// `spec_strip_crlf` says. A line handed over by a line-based reader ends
/// with at most one such pair, which this removes.
pub fn strip_crlf(s: &str) -> (r: String)
    ensures
        r@ == spec_strip_crlf(s@),
{
    let n = s.unicode_len();
    let mut out = String::new();
    let mut i: usize = 0;
    proof {
        assert(s@.skip(0) =~= s@);
        assert(out@ + spec_strip_crlf(s@) =~= spec_strip_crlf(s@));
    }
    while i < n
        invariant
            0 <= i <= n,
            n == s@.len(),
            spec_strip_crlf(s@) == out@ + spec_strip_crlf(s@.skip(i as int)),
        decreases n - i,
    {
        let c = s.get_char(i);
        if c == '\r' && i + 1 < n && s.get_char(i + 1) == '\n' {
            proof {
                assert(s@.skip(i as int).skip(2) =~= s@.skip(i + 2));
                assert(spec_strip_crlf(s@.skip(i as int)) == spec_strip_crlf(s@.skip(i + 2)));
            }
            i = i + 2;
        } else {
            let ghost pre = out@;
            push_char(&mut out, c);
            proof {
                assert(s@.skip(i as int).skip(1) =~= s@.skip(i + 1));
                assert(spec_strip_crlf(s@.skip(i as int)) == seq![s@[i as int]] + spec_strip_crlf(
                    s@.skip(i + 1),
                ));
                assert(out@ =~= pre + seq![s@[i as int]]);
                assert((pre + seq![s@[i as int]]) + spec_strip_crlf(s@.skip(i + 1)) =~= pre + (
                seq![s@[i as int]] + spec_strip_crlf(s@.skip(i + 1))));
            }
            i = i + 1;
        }
    }
    proof {
        assert(s@.skip(n as int) =~= Seq::<char>::empty());
        assert(out@ + spec_strip_crlf(Seq::<char>::empty()) =~= out@);
    }
    out
}

pub open spec fn is_wsp_char(c: char) -> bool {
    c == ' ' || c == '\t' || c == '\r' || c == '\n'
}

/// The first index at or after `i` holding a non-whitespace character, or
/// `s.len()` when there is none.
pub open spec fn first_non_wsp(s: Seq<char>, i: int) -> int
    decreases s.len() - i when i <= s.len()
{
    if i >= s.len() {
        s.len() as int
    } else if !is_wsp_char(s[i]) {
        i
    } else {
        first_non_wsp(s, i + 1)
    }
}

/// The length of `s` without its trailing whitespace.
pub open spec fn trim_end_len(s: Seq<char>) -> int
    decreases s.len(),
{
    if s.len() == 0 {
        0
    } else if is_wsp_char(s.last()) {
        trim_end_len(s.drop_last())
    } else {
        s.len() as int
    }
}

pub proof fn lemma_trim_end_len(s: Seq<char>)
    ensures
        0 <= trim_end_len(s) <= s.len(),
    decreases s.len(),
{
    if s.len() > 0 && is_wsp_char(s.last()) {
        lemma_trim_end_len(s.drop_last());
    }
}

/// `s` without its trailing whitespace.
pub open spec fn spec_trim_end(s: Seq<char>) -> Seq<char> {
    s.subrange(0, trim_end_len(s))
}

/// `s` without its leading and trailing whitespace.
pub open spec fn spec_trim(s: Seq<char>) -> Seq<char> {
    let t = spec_trim_end(s);
    t.subrange(first_non_wsp(t, 0), t.len() as int)
}

/// The character length of `s` without its trailing whitespace.
fn trim_end_index(s: &str) -> (r: usize)
    ensures
        r == trim_end_len(s@),
{
    let n = s.unicode_len();
    proof {
        assert(s@.subrange(0, n as int) =~= s@);
    }
    let mut j = n;
    while j > 0
        invariant
            0 <= j <= n,
            n == s@.len(),
            trim_end_len(s@) == trim_end_len(s@.subrange(0, j as int)),
        decreases j,
    {
        if is_wsp(s.get_char(j - 1)) {
            proof {
                assert(s@.subrange(0, j as int).drop_last() =~= s@.subrange(0, j - 1));
            }
            j = j - 1;
        } else {
            proof {
                assert(s@.subrange(0, j as int).last() == s@[j - 1]);
            }
            return j;
        }
    }
    proof {
        assert(s@.subrange(0, 0) =~= Seq::<char>::empty());
    }
    0
}

/// Whether `c` is one of the whitespace characters trimming removes.
fn is_wsp(c: char) -> (r: bool)
    ensures
        r == is_wsp_char(c),
{
    c == ' ' || c == '\t' || c == '\r' || c == '\n'
}

/// An owned copy of `s` without its trailing whitespace.
pub fn trim_end_owned(s: &str) -> (r: String)
    ensures
        r@ == spec_trim_end(s@),
{
    let j = trim_end_index(s);
    proof {
        lemma_trim_end_len(s@);
    }
    substring_owned(s, 0, j)
}

/// An owned copy of `s` without its leading and trailing whitespace.
pub fn trim_owned(s: &str) -> (r: String)
    ensures
        r@ == spec_trim(s@),
{
    let j = trim_end_index(s);
    proof {
        lemma_trim_end_len(s@);
    }
    let ghost t = spec_trim_end(s@);
    let mut i: usize = 0;
    loop
        invariant_except_break
            0 <= i <= j <= s@.len(),
            j == trim_end_len(s@),
            t == spec_trim_end(s@),
            first_non_wsp(t, 0) == first_non_wsp(t, i as int),
        ensures
            0 <= i <= j <= s@.len(),
            j == trim_end_len(s@),
            t == spec_trim_end(s@),
            i == first_non_wsp(t, 0),
        decreases j - i,
    {
        if i >= j {
            proof {
                assert(first_non_wsp(t, i as int) == i);
            }
            break;
        }
        if !is_wsp(s.get_char(i)) {
            proof {
                assert(t[i as int] == s@[i as int]);
                assert(first_non_wsp(t, i as int) == i);
            }
            break;
        }
        proof {
            assert(t[i as int] == s@[i as int]);
        }
        i = i + 1;
    }
    proof {
        assert(t.subrange(i as int, t.len() as int) =~= s@.subrange(i as int, j as int));
    }
    substring_owned(s, i, j)
}

/// The largest index where `c` occurs in `s`, or `-1` when it does not
/// occur.
pub open spec fn last_idx_of(s: Seq<char>, c: char) -> int
    decreases s.len(),
{
    if s.len() == 0 {
        -1
    } else if s.last() == c {
        s.len() - 1
    } else {
        last_idx_of(s.drop_last(), c)
    }
}

pub proof fn lemma_last_idx_of(s: Seq<char>, c: char)
    ensures
        -1 <= last_idx_of(s, c) < s.len(),
        last_idx_of(s, c) >= 0 ==> s[last_idx_of(s, c)] == c,
        forall|k: int| last_idx_of(s, c) < k < s.len() ==> s[k] != c,
    decreases s.len(),
{
    if s.len() > 0 && s.last() != c {
        lemma_last_idx_of(s.drop_last(), c);
        assert forall|k: int| last_idx_of(s, c) < k < s.len() implies s[k] != c by {
            if k < s.len() - 1 {
                assert(s.drop_last()[k] == s[k]);
            }
        }
    }
}

/// The input with its last word removed: trailing whitespace dropped,
/// then everything after the last remaining space, or everything when
/// no space remains.
pub open spec fn spec_word_deleted(s: Seq<char>) -> Seq<char> {
    let t = spec_trim_end(s);
    let k = last_idx_of(t, ' ');
    if k < 0 {
        Seq::empty()
    } else {
        t.subrange(0, k + 1)
    }
}

/// Deletes the last word of the input, exactly as `spec_word_deleted`
/// says.
pub fn word_deleted(s: &str) -> (r: String)
    ensures
        r@ == spec_word_deleted(s@),
{
    let t = trim_end_owned(s);
    let ts = t.as_str();
    let n = ts.unicode_len();
    proof {
        lemma_last_idx_of(t@, ' ');
    }
    let mut j = n;
    while j > 0
        invariant
            0 <= j <= n,
            n == t@.len(),
            ts@ == t@,
            t@ == spec_trim_end(s@),
            forall|k: int| j <= k < t@.len() ==> t@[k] != ' ',
        decreases j,
    {
        if ts.get_char(j - 1) == ' ' {
            proof {
                lemma_last_idx_of(t@, ' ');
                assert(last_idx_of(t@, ' ') == j - 1);
            }
            return substring_owned(ts, 0, j);
        }
        j = j - 1;
    }
    proof {
        lemma_last_idx_of(t@, ' ');
        assert(last_idx_of(t@, ' ') == -1);
        assert(spec_word_deleted(s@) =~= Seq::<char>::empty());
    }
    String::new()
}

pub open spec fn is_digit_char(c: char) -> bool {
    48 <= c as u32 <= 57
}

/// The value of a sequence of decimal digits, most significant first.
pub open spec fn digits_val(s: Seq<char>) -> int
    decreases s.len(),
{
    if s.len() == 0 {
        0
    } else {
        digits_val(s.drop_last()) * 10 + (s.last() as u32 - 48)
    }
}

pub open spec fn all_digits(s: Seq<char>) -> bool {
    forall|j: int| 0 <= j < s.len() ==> is_digit_char(s[j])
}

/// The number denoted by `s` in the syntax `u16` values are read with: an
/// optional leading `+`, then one or more decimal digits, denoting a value
/// of at most `u16::MAX`.
pub open spec fn spec_parse_u16(s: Seq<char>) -> Option<u16> {
    let body = if s.len() > 0 && s[0] == '+' {
        s.skip(1)
    } else {
        s
    };
    if body.len() > 0 && all_digits(body) && digits_val(body) <= u16::MAX {
        Some(digits_val(body) as u16)
    } else {
        None
    }
}

pub proof fn lemma_digits_val_nonneg(s: Seq<char>)
    requires
        all_digits(s),
    ensures
        0 <= digits_val(s),
    decreases s.len(),
{
    if s.len() > 0 {
        assert(all_digits(s.drop_last()));
        lemma_digits_val_nonneg(s.drop_last());
    }
}

pub proof fn lemma_digits_val_prefix_le(s: Seq<char>, k: int)
    requires
        all_digits(s),
        0 <= k <= s.len(),
    ensures
        digits_val(s.subrange(0, k)) <= digits_val(s),
    decreases s.len(),
{
    if k == s.len() {
        assert(s.subrange(0, k) =~= s);
    } else {
        assert(all_digits(s.drop_last()));
        assert(s.subrange(0, k) =~= s.drop_last().subrange(0, k));
        lemma_digits_val_prefix_le(s.drop_last(), k);
        lemma_digits_val_nonneg(s.drop_last());
        assert(is_digit_char(s.last()));
    }
}

/// Reads `s` as a `u16`: an optional leading `+`, then decimal digits.
/// Returns `None` on an empty body, a non-digit, or a value above
/// `u16::MAX`, exactly as `spec_parse_u16` says.
pub fn parse_u16(s: &str) -> (r: Option<u16>)
    ensures
        r == spec_parse_u16(s@),
{
    let n = s.unicode_len();
    let mut i: usize = 0;
    if n > 0 && s.get_char(0) == '+' {
        i = 1;
    }
    let ghost start = i as int;
    let ghost body = s@.subrange(start, n as int);
    proof {
        if s@.len() > 0 && s@[0] == '+' {
            assert(body =~= s@.skip(1));
        } else {
            assert(body =~= s@);
        }
    }
    if i >= n {
        return None;
    }
    let mut val: u32 = 0;
    while i < n
        invariant
            start <= i <= n,
            n == s@.len(),
            start == if s@.len() > 0 && s@[0] == '+' { 1int } else { 0int },
            body == s@.subrange(start, n as int),
            0 <= start <= i,
            val <= 65535,
            val == digits_val(s@.subrange(start, i as int)),
            all_digits(s@.subrange(start, i as int)),
        decreases n - i,
    {
        proof {
            if s@.len() > 0 && s@[0] == '+' {
                assert(body =~= s@.skip(1));
            } else {
                assert(body =~= s@);
            }
        }
        let c = s.get_char(i);
        let cu = c as u32;
        if !(48 <= cu && cu <= 57) {
            proof {
                assert(body[i - start] == s@[i as int]);
                assert(!is_digit_char(body[i - start]));
                assert(!all_digits(body));
                assert(spec_parse_u16(s@) is None);
            }
            return None;
        }
        let d: u32 = cu - 48;
        let next: u32 = val * 10 + d;
        proof {
            let grown = s@.subrange(start, i + 1);
            assert(grown.drop_last() =~= s@.subrange(start, i as int));
            assert(grown.last() == s@[i as int]);
            assert(digits_val(grown) == val * 10 + d);
        }
        if next > 65535 {
            proof {
                let grown = s@.subrange(start, i + 1);
                if all_digits(body) {
                    assert(grown =~= body.subrange(0, i + 1 - start));
                    lemma_digits_val_prefix_le(body, i + 1 - start);
                    assert(digits_val(body) >= digits_val(grown));
                    assert(digits_val(body) > u16::MAX);
                }
                assert(spec_parse_u16(s@) is None);
            }
            return None;
        }
        val = next;
        i = i + 1;
        proof {
            assert(forall|j: int|
                start <= j < i ==> is_digit_char(#[trigger] s@.subrange(start, i as int)[j - start]));
        }
    }
    proof {
        assert(s@.subrange(start, i as int) =~= body);
    }
    Some(val as u16)
}

} // verus!
