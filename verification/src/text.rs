//! Byte-level helpers for the text the service handles.
//!
//! Symbols and upstream replies are looked at as UTF-8 bytes: every delimiter
//! the service knows is ASCII, so cutting at one never cuts a character.

use vstd::prelude::*;
use vstd::slice::slice_subrange;
use vstd::string::*;
use vstd::utf8::*;

verus! {

/// Two strings have the same characters exactly when their UTF-8 encodings agree.
pub proof fn lemma_same_bytes_same_chars(a: Seq<char>, b: Seq<char>)
    ensures
        (encode_utf8(a) == encode_utf8(b)) <==> (a == b),
{
    encode_utf8_decode_utf8(a);
    encode_utf8_decode_utf8(b);
}

/// The encoding of two texts joined is the two encodings joined.
pub proof fn lemma_encode_concat(a: Seq<char>, b: Seq<char>)
    ensures
        encode_utf8(a + b) == encode_utf8(a) + encode_utf8(b),
    decreases a.len(),
{
    if a.len() == 0 {
        assert(a + b =~= b);
        assert(encode_utf8(a) + encode_utf8(b) =~= encode_utf8(b));
    } else {
        assert((a + b).drop_first() =~= a.drop_first() + b);
        assert((a + b)[0] == a[0]);
        lemma_encode_concat(a.drop_first(), b);
        assert(encode_utf8(a + b) =~= encode_utf8(a) + encode_utf8(b));
    }
}

/// Whether `s` ends with `suffix`.
pub open spec fn has_suffix(s: Seq<u8>, suffix: Seq<u8>) -> bool {
    s.len() >= suffix.len() && s.skip(s.len() - suffix.len()) == suffix
}

/// Whether `s` starts with `prefix`.
pub open spec fn has_prefix(s: Seq<u8>, prefix: Seq<u8>) -> bool {
    s.len() >= prefix.len() && s.take(prefix.len() as int) == prefix
}

/// Whether `pattern` occurs in `s` at position `at`.
pub open spec fn occurs_at(s: Seq<u8>, pattern: Seq<u8>, at: int) -> bool {
    0 <= at && at + pattern.len() <= s.len() && s.subrange(at, at + pattern.len()) == pattern
}

/// Whether `pattern` occurs somewhere in `s`.
pub open spec fn has_infix(s: Seq<u8>, pattern: Seq<u8>) -> bool {
    exists|at: int| occurs_at(s, pattern, at)
}

/// Position of the first `b` in `s`, or `s.len()` where there is none.
pub open spec fn first_index_of(s: Seq<u8>, b: u8) -> int
    decreases s.len(),
{
    if s.len() == 0 {
        0
    } else if s[0] == b {
        0
    } else {
        1 + first_index_of(s.drop_first(), b)
    }
}

/// Position of the last `b` in `s`, or -1 where there is none.
pub open spec fn last_index_of(s: Seq<u8>, b: u8) -> int
    decreases s.len(),
{
    if s.len() == 0 {
        -1
    } else if s.last() == b {
        s.len() - 1
    } else {
        last_index_of(s.drop_last(), b)
    }
}

/// The pieces of `s` between occurrences of `sep`: one more than there are
/// separators, empty pieces included.
pub open spec fn split_on(s: Seq<u8>, sep: u8) -> Seq<Seq<u8>>
    decreases s.len(),
{
    let k = first_index_of(s, sep);
    if 0 <= k < s.len() {
        seq![s.take(k)] + split_on(s.skip(k + 1), sep)
    } else {
        seq![s]
    }
}

/// What stands between the first and the last `quote` of `text`; nothing where
/// `text` holds fewer than two of them.
pub open spec fn between_quotes(text: Seq<u8>, quote: u8) -> Option<Seq<u8>> {
    let open = first_index_of(text, quote);
    let close = last_index_of(text, quote);
    if open < close {
        Some(text.subrange(open + 1, close))
    } else {
        None
    }
}

/// The first `b` of `s` is in range or at the end, and nothing before it is `b`.
pub proof fn lemma_first_index_of(s: Seq<u8>, b: u8)
    ensures
        0 <= first_index_of(s, b) <= s.len(),
        first_index_of(s, b) < s.len() ==> s[first_index_of(s, b)] == b,
        forall|i: int| 0 <= i < first_index_of(s, b) ==> s[i] != b,
    decreases s.len(),
{
    if s.len() > 0 && s[0] != b {
        let rest = s.drop_first();
        lemma_first_index_of(rest, b);
        assert forall|i: int| 0 <= i < first_index_of(s, b) implies s[i] != b by {
            if i > 0 {
                assert(s[i] == rest[i - 1]);
            }
        }
    }
}

/// The last `b` of `s` is in range or -1, and nothing after it is `b`.
pub proof fn lemma_last_index_of(s: Seq<u8>, b: u8)
    ensures
        -1 <= last_index_of(s, b) < s.len(),
        last_index_of(s, b) >= 0 ==> s[last_index_of(s, b)] == b,
        forall|i: int| last_index_of(s, b) < i < s.len() ==> s[i] != b,
    decreases s.len(),
{
    if s.len() > 0 && s.last() != b {
        let rest = s.drop_last();
        lemma_last_index_of(rest, b);
        assert forall|i: int| last_index_of(s, b) < i < s.len() implies s[i] != b by {
            if i < s.len() - 1 {
                assert(s[i] == rest[i]);
            }
        }
    }
}

/// What stands between two ASCII bytes of a text, or between one of them and
/// an end of the text, is text itself: cutting valid UTF-8 there cuts no
/// character.
pub proof fn lemma_cut_at_ascii(s: Seq<u8>, from: int, to: int)
    requires
        valid_utf8(s),
        0 <= from <= to <= s.len(),
        from == 0 || s[from - 1] < 0x80,
        to == s.len() || s[to] < 0x80,
    ensures
        valid_utf8(s.subrange(from, to)),
{
    let tail = s.subrange(from, s.len() as int);
    assert(valid_utf8(tail)) by {
        if from == 0 {
            assert(tail =~= s);
        } else {
            let before = from - 1;
            is_char_boundary_iff_not_is_continuation_byte(s, before);
            valid_utf8_split(s, before);
            let with_mark = s.subrange(before, s.len() as int);
            assert(with_mark[0] == s[before]);
            assert(pop_first_scalar(with_mark) =~= tail);
        }
    }
    assert(is_char_boundary(tail, to - from)) by {
        if to == s.len() {
            is_char_boundary_start_end_of_seq(tail);
        } else {
            assert(tail[to - from] == s[to]);
            is_char_boundary_iff_not_is_continuation_byte(tail, to - from);
        }
    }
    valid_utf8_split(tail, to - from);
    assert(tail.subrange(0, to - from) =~= s.subrange(from, to));
}

/// The pieces of a text between occurrences of an ASCII separator are texts.
pub proof fn lemma_pieces_are_text(s: Seq<u8>, sep: u8, i: int)
    requires
        valid_utf8(s),
        sep < 0x80,
        0 <= i < split_on(s, sep).len(),
    ensures
        valid_utf8(split_on(s, sep)[i]),
    decreases s.len(),
{
    let k = first_index_of(s, sep);
    lemma_first_index_of(s, sep);
    if k < s.len() {
        if i == 0 {
            lemma_cut_at_ascii(s, 0, k);
        } else {
            lemma_cut_at_ascii(s, k + 1, s.len() as int);
            assert(s.skip(k + 1) =~= s.subrange(k + 1, s.len() as int));
            lemma_pieces_are_text(s.skip(k + 1), sep, i - 1);
        }
    }
}

/// What stands between the outermost ASCII quotes of a text is a text.
pub proof fn lemma_payload_is_text(text: Seq<u8>, quote: u8)
    requires
        valid_utf8(text),
        quote < 0x80,
        between_quotes(text, quote) is Some,
    ensures
        valid_utf8(between_quotes(text, quote).unwrap()),
{
    lemma_first_index_of(text, quote);
    lemma_last_index_of(text, quote);
    lemma_cut_at_ascii(text, first_index_of(text, quote) + 1, last_index_of(text, quote));
}

/// Whether two byte slices hold the same bytes.
pub fn bytes_eq(a: &[u8], b: &[u8]) -> (same: bool)
    ensures
        same == (a@ == b@),
{
    if a.len() != b.len() {
        return false;
    }
    let mut i: usize = 0;
    while i < a.len()
        invariant
            a@.len() == b@.len(),
            i <= a@.len(),
            forall|j: int| 0 <= j < i ==> a@[j] == b@[j],
        decreases a@.len() - i,
    {
        if a[i] != b[i] {
            return false;
        }
        i += 1;
    }
    assert(a@ =~= b@);
    true
}

/// Whether two strings hold the same characters.
pub fn str_eq(a: &str, b: &str) -> (same: bool)
    ensures
        same == (a@ == b@),
{
    proof {
        lemma_same_bytes_same_chars(a@, b@);
    }
    bytes_eq(a.as_bytes(), b.as_bytes())
}

/// Whether `pattern` stands in `s` at position `at`.
pub fn matches_at(s: &[u8], pattern: &[u8], at: usize) -> (r: bool)
    ensures
        r == occurs_at(s@, pattern@, at as int),
{
    if pattern.len() > s.len() || at > s.len() - pattern.len() {
        return false;
    }
    bytes_eq(slice_subrange(s, at, at + pattern.len()), pattern)
}

/// Whether `s` ends with `suffix`.
pub fn ends_with(s: &[u8], suffix: &[u8]) -> (r: bool)
    ensures
        r == has_suffix(s@, suffix@),
{
    if suffix.len() > s.len() {
        return false;
    }
    let at: usize = s.len() - suffix.len();
    assert(s@.subrange(at as int, at + suffix@.len()) =~= s@.skip(s@.len() - suffix@.len()));
    matches_at(s, suffix, at)
}

/// Whether `s` starts with `prefix`.
pub fn starts_with(s: &[u8], prefix: &[u8]) -> (r: bool)
    ensures
        r == has_prefix(s@, prefix@),
{
    if prefix.len() > s.len() {
        return false;
    }
    assert(s@.subrange(0, 0 + prefix@.len() as int) =~= s@.take(prefix@.len() as int));
    matches_at(s, prefix, 0)
}

/// Whether `pattern` occurs somewhere in `s`.
pub fn contains(s: &[u8], pattern: &[u8]) -> (r: bool)
    ensures
        r == has_infix(s@, pattern@),
{
    if pattern.len() > s.len() {
        return false;
    }
    let last: usize = s.len() - pattern.len();
    let mut at: usize = 0;
    loop
        invariant
            last == s@.len() - pattern@.len(),
            at <= last,
            forall|k: int| 0 <= k < at ==> !occurs_at(s@, pattern@, k),
        decreases last - at,
    {
        if matches_at(s, pattern, at) {
            return true;
        }
        if at == last {
            return false;
        }
        at += 1;
    }
}

/// Position of the first `b` at or after `from`, or the length of `s`.
pub fn find_byte(s: &[u8], from: usize, b: u8) -> (at: usize)
    requires
        from <= s@.len(),
    ensures
        at == from + first_index_of(s@.skip(from as int), b),
        from <= at <= s@.len(),
{
    let mut at: usize = from;
    proof {
        lemma_first_index_of(s@.skip(from as int), b);
    }
    while at < s.len() && s[at] != b
        invariant
            from <= at <= s@.len(),
            first_index_of(s@.skip(from as int), b) == (at - from) + first_index_of(
                s@.skip(at as int),
                b,
            ),
        decreases s@.len() - at,
    {
        assert(s@.skip(at as int).drop_first() =~= s@.skip(at + 1));
        at += 1;
    }
    at
}

/// Position of the last `b` in `s`, if there is one.
pub fn rfind_byte(s: &[u8], b: u8) -> (r: Option<usize>)
    ensures
        match r {
            Some(at) => at == last_index_of(s@, b),
            None => last_index_of(s@, b) == -1,
        },
{
    let mut end: usize = s.len();
    assert(s@.take(end as int) =~= s@);
    while end > 0
        invariant
            end <= s@.len(),
            last_index_of(s@, b) == last_index_of(s@.take(end as int), b),
        decreases end,
    {
        if s[end - 1] == b {
            return Some(end - 1);
        }
        assert(s@.take(end as int).drop_last() =~= s@.take(end - 1));
        end -= 1;
    }
    None
}

/// The pieces of `text` between occurrences of `sep`.
pub fn split_fields<'a>(text: &'a [u8], sep: u8) -> (fields: Vec<&'a [u8]>)
    ensures
        fields@.len() == split_on(text@, sep).len(),
        forall|i: int| 0 <= i < fields@.len() ==> (#[trigger] fields@[i])@ == split_on(text@, sep)[i],
{
    let mut fields: Vec<&'a [u8]> = Vec::new();
    let mut start: usize = 0;
    let ghost mut done: Seq<Seq<u8>> = Seq::empty();
    assert(text@.skip(0) =~= text@);
    loop
        invariant_except_break
            start <= text@.len(),
            fields@.len() == done.len(),
            forall|i: int| 0 <= i < fields@.len() ==> (#[trigger] fields@[i])@ == done[i],
            split_on(text@, sep) == done + split_on(text@.skip(start as int), sep),
        ensures
            fields@.len() == split_on(text@, sep).len(),
            forall|i: int|
                0 <= i < fields@.len() ==> (#[trigger] fields@[i])@ == split_on(text@, sep)[i],
        decreases text@.len() - start,
    {
        let at = find_byte(text, start, sep);
        let piece = slice_subrange(text, start, at);
        let ghost rest = text@.skip(start as int);
        proof {
            lemma_first_index_of(rest, sep);
            assert(piece@ =~= rest.take(at - start));
        }
        fields.push(piece);
        if at == text.len() {
            proof {
                assert(rest.take(at - start) =~= rest);
                assert(split_on(rest, sep) == seq![rest]);
                done = done.push(piece@);
                assert(split_on(text@, sep) =~= done);
            }
            break;
        }
        proof {
            assert(rest.skip(at - start + 1) =~= text@.skip(at + 1));
            assert(split_on(rest, sep) == seq![piece@] + split_on(text@.skip(at + 1), sep));
            assert(done + (seq![piece@] + split_on(text@.skip(at + 1), sep)) =~= done.push(piece@)
                + split_on(text@.skip(at + 1), sep));
            done = done.push(piece@);
        }
        start = at + 1;
    }
    fields
}

/// The bytes between the first and the last `quote` of `text`.
pub fn quoted_payload<'a>(text: &'a [u8], quote: u8) -> (r: Option<&'a [u8]>)
    ensures
        match r {
            Some(payload) => between_quotes(text@, quote) == Some(payload@),
            None => between_quotes(text@, quote) is None,
        },
{
    assert(text@.skip(0) =~= text@);
    let open = find_byte(text, 0, quote);
    match rfind_byte(text, quote) {
        Some(close) => {
            proof {
                lemma_last_index_of(text@, quote);
            }
            if open < close {
                Some(slice_subrange(text, open + 1, close))
            } else {
                None
            }
        },
        None => {
            proof {
                lemma_first_index_of(text@, quote);
            }
            None
        },
    }
}

/// The characters of an optional text.
pub open spec fn text_of(t: Option<String>) -> Option<Seq<char>> {
    match t {
        Some(s) => Some(s@),
        None => None,
    }
}

/// The characters that a lossy reading of `bytes` as UTF-8 gives.
pub uninterp spec fn lossy_text(bytes: Seq<u8>) -> Seq<char>;

/// Reads bytes as text with `String::from_utf8_lossy`.
///
/// Trusted: the result is a function of the bytes, and for valid UTF-8 it is
/// the text that the bytes encode. What stands in for invalid sequences is
/// left to the standard library.
#[verifier::external_body]
pub(crate) fn text_from_bytes(bytes: &[u8]) -> (text: String)
    ensures
        text@ == lossy_text(bytes@),
        valid_utf8(bytes@) ==> text@ == decode_utf8(bytes@),
{
    String::from_utf8_lossy(bytes).into_owned()
}

} // verus!
