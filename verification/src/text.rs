//! Questions about text that the relay asks: whether two strings hold the same
//! characters, and whether a string is blank.
use vstd::prelude::*;
use vstd::utf8::{encode_utf8, encode_utf8_decode_utf8};

verus! {

/// Whether `a` and `b` hold the same characters, decided on their bytes.
pub fn same_text(a: &str, b: &str) -> (same: bool)
    ensures
        same == (a@ == b@),
{
    let x = a.as_bytes();
    let y = b.as_bytes();
    if x.len() != y.len() {
        return false;
    }
    let mut i: usize = 0;
    while i < x.len()
        invariant
            i <= x.len(),
            x.len() == y.len(),
            x@ == encode_utf8(a@),
            y@ == encode_utf8(b@),
            forall|j: int| 0 <= j < i ==> x@[j] == y@[j],
        decreases x.len() - i,
    {
        if x[i] != y[i] {
            assert(x@[i as int] != y@[i as int]);
            assert(a@ == b@ ==> x@ == y@);
            return false;
        }
        i += 1;
    }
    proof {
        // The encoding can be undone, so equal bytes come from equal characters.
        assert(x@ =~= y@);
        encode_utf8_decode_utf8(a@);
        encode_utf8_decode_utf8(b@);
    }
    true
}

/// Whether `c` is white space: one of the 25 characters that carry the Unicode
/// property `White_Space`.
pub open spec fn is_white_space(c: char) -> bool {
    let n = c as u32;
    ||| 0x09 <= n <= 0x0d
    ||| n == 0x20
    ||| n == 0x85
    ||| n == 0xa0
    ||| n == 0x1680
    ||| 0x2000 <= n <= 0x200a
    ||| n == 0x2028
    ||| n == 0x2029
    ||| n == 0x202f
    ||| n == 0x205f
    ||| n == 0x3000
}

/// Whether `s` is blank: empty, or white space throughout. These are the
/// strings of which nothing is left once white space is trimmed from both ends.
pub open spec fn is_blank(s: Seq<char>) -> bool {
    forall|i: int| 0 <= i < s.len() ==> is_white_space(#[trigger] s[i])
}

/// Whether `c` is white space.
pub fn is_space(c: char) -> (res: bool)
    ensures
        res == is_white_space(c),
{
    let n: u32 = c as u32;
    (0x09 <= n && n <= 0x0d) || n == 0x20 || n == 0x85 || n == 0xa0 || n == 0x1680 || (0x2000 <= n
        && n <= 0x200a) || n == 0x2028 || n == 0x2029 || n == 0x202f || n == 0x205f || n == 0x3000
}

/// Whether `s` is blank.
pub fn blank(s: &str) -> (res: bool)
    ensures
        res == is_blank(s@),
{
    for c in it: s.chars()
        invariant
            it.seq() == s@,
            forall|i: int| 0 <= i < it.index() ==> is_white_space(#[trigger] s@[i]),
    {
        if !is_space(c) {
            return false;
        }
    }
    true
}

/// The parts of `s` that `sep` separates, from `start` on, when no
/// separator begins between `start` and `at`.
pub open spec fn split_from(s: Seq<char>, sep: Seq<char>, start: int, at: int) -> Seq<Seq<char>>
    decreases s.len() - at,
{
    if sep.len() == 0 || at < 0 || at + sep.len() > s.len() {
        seq![s.subrange(start, s.len() as int)]
    } else if s.subrange(at, at + sep.len()) == sep {
        seq![s.subrange(start, at)] + split_from(s, sep, at + sep.len(), at + sep.len())
    } else {
        split_from(s, sep, start, at + 1)
    }
}

/// The parts of `s` that `sep` separates, in order. Separators are found from
/// left to right and do not overlap; a text without one is its own single
/// part, and so is any text where `sep` is empty.
pub open spec fn split(s: Seq<char>, sep: Seq<char>) -> Seq<Seq<char>> {
    split_from(s, sep, 0, 0)
}

/// `String::push` of the standard library: appends one character.
pub assume_specification[ String::push ](s: &mut String, c: char)
    ensures
        final(s)@ == old(s)@.push(c),
;

/// The characters of `s`, in order.
pub fn chars_of(s: &str) -> (chars: Vec<char>)
    ensures
        chars@ == s@,
{
    let mut chars: Vec<char> = Vec::new();
    for c in it: s.chars()
        invariant
            it.seq() == s@,
            chars@ == s@.take(it.index() as int),
    {
        chars.push(c);
        assert(chars@ =~= s@.take(it.index() + 1));
    }
    assert(chars@ =~= s@);
    chars
}

/// The text made of the characters of `chars` from `from` up to `to`.
fn text_of(chars: &Vec<char>, from: usize, to: usize) -> (text: String)
    requires
        from <= to <= chars@.len(),
    ensures
        text@ == chars@.subrange(from as int, to as int),
{
    let mut text = String::new();
    let mut i: usize = from;
    while i < to
        invariant
            from <= i <= to <= chars@.len(),
            text@ == chars@.subrange(from as int, i as int),
        decreases to - i,
    {
        text.push(chars[i]);
        assert(text@ =~= chars@.subrange(from as int, i + 1));
        i += 1;
    }
    text
}

/// Whether `pattern` stands in `chars` at `at`.
fn stands_at(chars: &Vec<char>, at: usize, pattern: &Vec<char>) -> (stands: bool)
    requires
        at + pattern@.len() <= chars@.len(),
    ensures
        stands == (chars@.subrange(at as int, at + pattern@.len()) == pattern@),
{
    let n = chars.len();
    let mut i: usize = 0;
    while i < pattern.len()
        invariant
            i <= pattern@.len(),
            n == chars@.len(),
            at + pattern@.len() <= chars@.len(),
            forall|j: int| 0 <= j < i ==> chars@[at + j] == pattern@[j],
        decreases pattern@.len() - i,
    {
        if chars[at + i] != pattern[i] {
            assert(chars@.subrange(at as int, at + pattern@.len())[i as int] != pattern@[i as int]);
            return false;
        }
        i += 1;
    }
    assert(chars@.subrange(at as int, at + pattern@.len()) =~= pattern@);
    true
}

/// The parts of `s` that `sep` separates, in order. An empty separator
/// separates nothing.
pub fn split_text(s: &str, sep: &str) -> (parts: Vec<String>)
    ensures
        parts@.len() == split(s@, sep@).len(),
        forall|i: int| 0 <= i < parts@.len() ==> (#[trigger] parts@[i])@ == split(s@, sep@)[i],
{
    let chars = chars_of(s);
    let pattern = chars_of(sep);
    let n = chars.len();
    let m = pattern.len();
    let mut parts: Vec<String> = Vec::new();
    if m == 0 {
        parts.push(text_of(&chars, 0, n));
        assert(parts@[0]@ =~= s@);
        return parts;
    }
    let mut start: usize = 0;
    let mut at: usize = 0;
    while m <= n - at
        invariant
            chars@ == s@,
            pattern@ == sep@,
            n == s@.len(),
            m == sep@.len(),
            m > 0,
            start <= at <= n,
            split(s@, sep@) == parts@.map_values(|part: String| part@) + split_from(
                s@,
                sep@,
                start as int,
                at as int,
            ),
        decreases n - at,
    {
        if stands_at(&chars, at, &pattern) {
            let part = text_of(&chars, start, at);
            let ghost before = parts@.map_values(|part: String| part@);
            parts.push(part);
            assert(parts@.map_values(|part: String| part@) =~= before + seq![part@]);
            at = at + m;
            start = at;
        } else {
            at = at + 1;
        }
    }
    let part = text_of(&chars, start, n);
    let ghost before = parts@.map_values(|part: String| part@);
    parts.push(part);
    assert(parts@.map_values(|part: String| part@) =~= before + seq![part@]);
    assert forall|i: int| 0 <= i < parts@.len() implies (#[trigger] parts@[i])@ == split(s@, sep@)[i] by {
        assert(parts@.map_values(|part: String| part@)[i] == parts@[i]@);
    }
    parts
}

/// The character of the decimal digit `d`.
pub open spec fn digit(d: nat) -> char {
    ((48 + d) as u8) as char
}

/// `n` in decimal, without a sign or leading zeros.
pub open spec fn decimal(n: nat) -> Seq<char>
    decreases n,
{
    if n < 10 {
        seq![digit(n)]
    } else {
        decimal(n / 10).push(digit(n % 10))
    }
}

/// Appends `n` in decimal to `text`.
pub fn push_decimal(text: &mut String, n: u64)
    ensures
        final(text)@ == old(text)@ + decimal(n as nat),
    decreases n,
{
    if n >= 10 {
        push_decimal(text, n / 10);
    }
    let d: u8 = (n % 10) as u8;
    text.push((48 + d) as char);
    assert(text@ =~= old(text)@ + decimal(n as nat));
}

} // verus!
