//! Character and string primitives that the protocol rules are written in:
//! whitespace trimming, ASCII case-insensitive comparison, substring search,
//! splitting at a delimiter and lossy decoding of payload bytes.

use vstd::prelude::*;
use vstd::string::*;
use vstd::utf8::*;

verus! {

/// Whether `c` has the Unicode property `White_Space`.
pub open spec fn is_whitespace(c: char) -> bool {
    let n = c as u32;
    ||| 0x09 <= n <= 0x0D
    ||| n == 0x20
    ||| n == 0x85
    ||| n == 0xA0
    ||| n == 0x1680
    ||| 0x2000 <= n <= 0x200A
    ||| n == 0x2028
    ||| n == 0x2029
    ||| n == 0x202F
    ||| n == 0x205F
    ||| n == 0x3000
}

/// `s` without its leading whitespace.
pub open spec fn trim_start(s: Seq<char>) -> Seq<char>
    decreases s.len(),
{
    if s.len() > 0 && is_whitespace(s.first()) {
        trim_start(s.drop_first())
    } else {
        s
    }
}

/// `s` without its trailing whitespace.
pub open spec fn trim_end(s: Seq<char>) -> Seq<char>
    decreases s.len(),
{
    if s.len() > 0 && is_whitespace(s.last()) {
        trim_end(s.drop_last())
    } else {
        s
    }
}

/// `s` without its surrounding whitespace.
pub open spec fn trimmed(s: Seq<char>) -> Seq<char> {
    trim_end(trim_start(s))
}

/// What `trim_start` removes is whitespace at the start, and what it leaves does not
/// start with whitespace.
pub proof fn lemma_trim_start(s: Seq<char>)
    ensures
        trim_start(s).len() <= s.len(),
        trim_start(s) == s.skip(s.len() - trim_start(s).len()),
        forall|i: int| 0 <= i < s.len() - trim_start(s).len() ==> is_whitespace(#[trigger] s[i]),
        trim_start(s).len() > 0 ==> !is_whitespace(trim_start(s).first()),
    decreases s.len(),
{
    if s.len() > 0 && is_whitespace(s.first()) {
        let rest = s.drop_first();
        lemma_trim_start(rest);
        let removed = rest.len() - trim_start(rest).len();
        assert(rest.skip(removed) =~= s.skip(removed + 1));
        assert forall|i: int| 0 <= i < removed + 1 implies is_whitespace(#[trigger] s[i]) by {
            if i > 0 {
                assert(s[i] == rest[i - 1]);
            }
        }
    } else {
        assert(s.skip(0) =~= s);
    }
}

/// What `trim_end` removes is whitespace at the end, and what it leaves does not end
/// with whitespace.
pub proof fn lemma_trim_end(s: Seq<char>)
    ensures
        trim_end(s).len() <= s.len(),
        trim_end(s) == s.take(trim_end(s).len() as int),
        forall|i: int| trim_end(s).len() <= i < s.len() ==> is_whitespace(#[trigger] s[i]),
        trim_end(s).len() > 0 ==> !is_whitespace(trim_end(s).last()),
    decreases s.len(),
{
    if s.len() > 0 && is_whitespace(s.last()) {
        let rest = s.drop_last();
        lemma_trim_end(rest);
        let kept = trim_end(rest).len() as int;
        assert(rest.take(kept) =~= s.take(kept));
        assert forall|i: int| kept <= i < s.len() implies is_whitespace(#[trigger] s[i]) by {
            if i < rest.len() {
                assert(s[i] == rest[i]);
            }
        }
    } else {
        assert(s.take(s.len() as int) =~= s);
    }
}

/// A trimmed string is a piece of the string it was made from, with nothing but
/// whitespace before it and after it, and it neither starts nor ends with
/// whitespace.
pub proof fn lemma_trimmed(s: Seq<char>)
    ensures
        ({
            let from = s.len() - trim_start(s).len();
            let to = from + trimmed(s).len();
            &&& 0 <= from <= to <= s.len()
            &&& trimmed(s) == s.subrange(from, to)
            &&& forall|i: int| 0 <= i < from ==> is_whitespace(#[trigger] s[i])
            &&& forall|i: int| to <= i < s.len() ==> is_whitespace(#[trigger] s[i])
        }),
        trimmed(s).len() > 0 ==> !is_whitespace(trimmed(s).first()) && !is_whitespace(
            trimmed(s).last(),
        ),
{
    let inner = trim_start(s);
    lemma_trim_start(s);
    lemma_trim_end(inner);
    let from = s.len() - inner.len();
    let to = from + trimmed(s).len();
    assert(trimmed(s) =~= s.subrange(from, to));
    assert forall|i: int| to <= i < s.len() implies is_whitespace(#[trigger] s[i]) by {
        assert(s[i] == inner[i - from]);
    }
    if trimmed(s).len() > 0 {
        assert(trimmed(s).first() == inner.first());
    }
}

/// Whether `c` is one of `A` to `Z`.
pub open spec fn is_ascii_uppercase(c: char) -> bool {
    'A' <= c && c <= 'Z'
}

/// Whether two characters are the same once ASCII letters are taken without their case.
pub open spec fn same_ignoring_ascii_case(a: char, b: char) -> bool {
    ||| a == b
    ||| is_ascii_uppercase(a) && a as u32 + 32 == b as u32
    ||| is_ascii_uppercase(b) && b as u32 + 32 == a as u32
}

/// Whether two strings have the same length and match character by character
/// once ASCII letters are taken without their case.
pub open spec fn eq_ignoring_ascii_case(a: Seq<char>, b: Seq<char>) -> bool {
    &&& a.len() == b.len()
    &&& forall|i: int| 0 <= i < a.len() ==> same_ignoring_ascii_case(#[trigger] a[i], b[i])
}

/// Whether `pattern` stands in `text` at position `at`.
pub open spec fn occurs_at(pattern: Seq<char>, text: Seq<char>, at: int) -> bool {
    &&& 0 <= at
    &&& at + pattern.len() <= text.len()
    &&& text.subrange(at, at + pattern.len()) == pattern
}

/// Whether `pattern` stands somewhere in `text`.
pub open spec fn occurs_in(pattern: Seq<char>, text: Seq<char>) -> bool {
    exists|at: int| occurs_at(pattern, text, at)
}

/// The position of the first `c` in `s`, or the length of `s` where it holds none.
pub open spec fn first_index(s: Seq<char>, c: char) -> int
    decreases s.len(),
{
    if s.len() == 0 || s.first() == c {
        0
    } else {
        1 + first_index(s.drop_first(), c)
    }
}

/// What stands before the first `c` in `s`; all of `s` where it holds none.
pub open spec fn until_first(s: Seq<char>, c: char) -> Seq<char> {
    s.take(first_index(s, c))
}

/// What stands after the first `c` in `s`, where it holds one.
pub open spec fn after_first(s: Seq<char>, c: char) -> Option<Seq<char>> {
    if first_index(s, c) < s.len() {
        Some(s.skip(first_index(s, c) + 1))
    } else {
        None
    }
}

/// `first_index` is a position in `s` or its length; no `c` stands before it, and
/// where it is a position, `c` stands there.
pub proof fn lemma_first_index(s: Seq<char>, c: char)
    ensures
        0 <= first_index(s, c) <= s.len(),
        !until_first(s, c).contains(c),
        first_index(s, c) < s.len() ==> s[first_index(s, c)] == c,
        first_index(s, c) < s.len() <==> s.contains(c),
    decreases s.len(),
{
    if s.len() == 0 || s.first() == c {
        if s.len() > 0 {
            assert(s[0] == c);
        }
    } else {
        let rest = s.drop_first();
        lemma_first_index(rest, c);
        let k = first_index(rest, c);
        assert forall|j: int| 0 <= j < k + 1 implies s[j] != c by {
            if j > 0 {
                assert(rest.take(k)[j - 1] == s[j]);
            }
        }
        if rest.contains(c) {
            assert(s[k + 1] == rest[k]);
        }
        if s.contains(c) {
            let j = choose|j: int| 0 <= j < s.len() && s[j] == c;
            assert(rest[j - 1] == c);
        }
    }
}

/// A string that holds no `c` before a `c` has its first `c` right there.
pub proof fn lemma_first_index_of_concat(head: Seq<char>, c: char, tail: Seq<char>)
    requires
        !head.contains(c),
    ensures
        first_index(head + seq![c] + tail, c) == head.len(),
        until_first(head + seq![c] + tail, c) == head,
        after_first(head + seq![c] + tail, c) == Some(tail),
    decreases head.len(),
{
    let s = head + seq![c] + tail;
    if head.len() == 0 {
        assert(s.first() == c);
    } else {
        assert(head[0] != c);
        assert(s.first() == head[0]);
        let rest = head.drop_first();
        assert forall|j: int| 0 <= j < rest.len() implies rest[j] != c by {
            assert(head[j + 1] == rest[j]);
        }
        lemma_first_index_of_concat(rest, c, tail);
        assert(s.drop_first() =~= rest + seq![c] + tail);
    }
    assert(s.take(head.len() as int) =~= head);
    assert(s.skip(head.len() as int + 1) =~= tail);
}

/// What lossy UTF-8 decoding makes of `bytes`: valid sequences are decoded, each
/// invalid one is replaced by U+FFFD.
pub uninterp spec fn lossy_text(bytes: Seq<u8>) -> Seq<char>;

/// Decodes a payload as UTF-8 without ever failing. Calls `String::from_utf8_lossy`
/// of the standard library and takes ownership of what it returns; nothing of this
/// contract is proved. The result is a function of the bytes alone, named
/// `lossy_text`. For bytes that are valid UTF-8 the call changes nothing, so the
/// result is the text that they encode.
#[verifier::external_body]
pub(crate) fn decode_lossy(bytes: &[u8]) -> (text: String)
    ensures
        text@ == lossy_text(bytes@),
        valid_utf8(bytes@) ==> text@ == decode_utf8(bytes@),
{
    String::from_utf8_lossy(bytes).into_owned()
}

/// Whether `c` has the Unicode property `White_Space`.
pub fn char_is_whitespace(c: char) -> (b: bool)
    ensures
        b == is_whitespace(c),
{
    let n: u32 = c as u32;
    (0x09 <= n && n <= 0x0D) || n == 0x20 || n == 0x85 || n == 0xA0 || n == 0x1680 || (0x2000 <= n
        && n <= 0x200A) || n == 0x2028 || n == 0x2029 || n == 0x202F || n == 0x205F || n
        == 0x3000
}

/// The characters of `s`, in order.
pub fn chars_of(s: &str) -> (chars: Vec<char>)
    ensures
        chars@ == s@,
{
    let mut chars: Vec<char> = Vec::new();
    for c in it: s.chars()
        invariant
            chars@ == it.seq().take(it.index() as int),
            it.seq() == s@,
    {
        chars.push(c);
    }
    chars
}

/// Removes the whitespace that surrounds `s`.
pub fn trim(s: &str) -> (t: &str)
    ensures
        t@ == trimmed(s@),
{
    let chars = chars_of(s);
    let n: usize = chars.len();
    let mut start: usize = 0;
    assert(s@.skip(0) =~= s@);
    while start < n && char_is_whitespace(chars[start])
        invariant
            chars@ == s@,
            n == s@.len(),
            start <= n,
            trim_start(s@) == trim_start(s@.skip(start as int)),
        decreases n - start,
    {
        assert(s@.skip(start as int).drop_first() =~= s@.skip(start as int + 1));
        start += 1;
    }
    assert(trim_start(s@) == s@.subrange(start as int, n as int)) by {
        assert(s@.skip(start as int) =~= s@.subrange(start as int, n as int));
    }
    let mut end: usize = n;
    while end > start && char_is_whitespace(chars[end - 1])
        invariant
            chars@ == s@,
            n == s@.len(),
            start <= end <= n,
            trimmed(s@) == trim_end(s@.subrange(start as int, end as int)),
        decreases end,
    {
        assert(s@.subrange(start as int, end as int).drop_last() =~= s@.subrange(
            start as int,
            end as int - 1,
        ));
        end -= 1;
    }
    s.substring_char(start, end)
}

/// Whether `a` and `b` are the same character once ASCII letters are taken without
/// their case.
pub fn char_eq_ignore_ascii_case(a: char, b: char) -> (same: bool)
    ensures
        same == same_ignoring_ascii_case(a, b),
{
    let x: u32 = a as u32;
    let y: u32 = b as u32;
    x == y || ('A' <= a && a <= 'Z' && x + 32 == y) || ('A' <= b && b <= 'Z' && y + 32 == x)
}

/// Whether `a` and `b` match once ASCII letters are taken without their case.
pub fn eq_ignore_ascii_case(a: &str, b: &str) -> (same: bool)
    ensures
        same == eq_ignoring_ascii_case(a@, b@),
{
    let xs = chars_of(a);
    let ys = chars_of(b);
    if xs.len() != ys.len() {
        return false;
    }
    let n: usize = xs.len();
    let mut i: usize = 0;
    while i < n
        invariant
            xs@ == a@,
            ys@ == b@,
            n == xs@.len(),
            n == ys@.len(),
            i <= n,
            forall|k: int| 0 <= k < i ==> same_ignoring_ascii_case(#[trigger] a@[k], b@[k]),
        decreases n - i,
    {
        if !char_eq_ignore_ascii_case(xs[i], ys[i]) {
            assert(!same_ignoring_ascii_case(a@[i as int], b@[i as int]));
            return false;
        }
        i += 1;
    }
    true
}

/// Whether `pattern` stands in `text` at position `at`.
fn matches_at(pattern: &Vec<char>, text: &Vec<char>, at: usize) -> (found: bool)
    requires
        at + pattern@.len() <= text@.len(),
    ensures
        found == occurs_at(pattern@, text@, at as int),
{
    let m: usize = pattern.len();
    let n: usize = text.len();
    let mut k: usize = 0;
    while k < m
        invariant
            m == pattern@.len(),
            n == text@.len(),
            at + m <= n,
            k <= m,
            forall|j: int| 0 <= j < k ==> text@[at + j] == pattern@[j],
        decreases m - k,
    {
        if text[at + k] != pattern[k] {
            assert(text@.subrange(at as int, at + m)[k as int] != pattern@[k as int]);
            return false;
        }
        k += 1;
    }
    assert(text@.subrange(at as int, at + m) =~= pattern@);
    true
}

/// Whether `pattern` stands somewhere in `text`.
pub fn contains(text: &str, pattern: &str) -> (found: bool)
    ensures
        found == occurs_in(pattern@, text@),
{
    let t = chars_of(text);
    let p = chars_of(pattern);
    if p.len() > t.len() {
        return false;
    }
    let last: usize = t.len() - p.len();
    let mut at: usize = 0;
    while at < last
        invariant
            t@ == text@,
            p@ == pattern@,
            last + p@.len() == t@.len(),
            at <= last,
            forall|j: int| 0 <= j < at ==> !occurs_at(pattern@, text@, j),
        decreases last - at,
    {
        if matches_at(&p, &t, at) {
            return true;
        }
        at += 1;
    }
    matches_at(&p, &t, last)
}

/// Splits `text` at the first `delimiter`: what stands before it and what stands
/// after it. `None` where `text` holds no `delimiter`.
pub fn split_once(text: &str, delimiter: char) -> (parts: Option<(&str, &str)>)
    ensures
        (match parts {
            Some((head, tail)) => {
                &&& !head@.contains(delimiter)
                &&& text@ == head@ + seq![delimiter] + tail@
                &&& head@ == until_first(text@, delimiter)
                &&& after_first(text@, delimiter) == Some(tail@)
            },
            None => {
                &&& !text@.contains(delimiter)
                &&& after_first(text@, delimiter) is None
            },
        }),
{
    let chars = chars_of(text);
    let n: usize = chars.len();
    let mut i: usize = 0;
    while i < n
        invariant
            chars@ == text@,
            n == text@.len(),
            i <= n,
            forall|j: int| 0 <= j < i ==> text@[j] != delimiter,
        decreases n - i,
    {
        if chars[i] == delimiter {
            let head = text.substring_char(0, i);
            let tail = text.substring_char(i + 1, n);
            assert(text@ =~= head@ + seq![delimiter] + tail@);
            proof {
                lemma_first_index_of_concat(head@, delimiter, tail@);
            }
            return Some((head, tail));
        }
        i += 1;
    }
    proof {
        lemma_first_index(text@, delimiter);
    }
    None
}

} // verus!
