//! Byte offsets into text. A text is a sequence of characters; its length and
//! the positions in it that others speak of are counted in the bytes of UTF-8.

use crate::text::to_chars;
use vstd::prelude::*;

verus! {

/// The bytes that a character takes in UTF-8.
pub open spec fn char_bytes(c: char) -> nat {
    if c <= '\u{7f}' {
        1
    } else if c <= '\u{7ff}' {
        2
    } else if c <= '\u{ffff}' {
        3
    } else {
        4
    }
}

pub fn char_len(c: char) -> (res: usize)
    ensures
        res == char_bytes(c),
{
    if c <= '\u{7f}' {
        1
    } else if c <= '\u{7ff}' {
        2
    } else if c <= '\u{ffff}' {
        3
    } else {
        4
    }
}

/// The bytes that the first `n` characters of `s` take.
pub open spec fn bytes_before(s: Seq<char>, n: int) -> nat
    decreases n,
{
    if 0 < n {
        bytes_before(s, n - 1) + char_bytes(s[n - 1])
    } else {
        0
    }
}

/// The length of `s` in bytes.
pub open spec fn byte_len(s: Seq<char>) -> nat {
    bytes_before(s, s.len() as int)
}

/// Whether `offset` is where a character of `s` starts, or its end.
pub open spec fn is_boundary(s: Seq<char>, offset: int) -> bool {
    exists|k: int| 0 <= k <= s.len() && #[trigger] bytes_before(s, k) == offset
}

/// The characters of `s` that stand before a byte offset.
pub open spec fn chars_before(s: Seq<char>, offset: int) -> int
    recommends
        is_boundary(s, offset),
{
    choose|k: int| 0 <= k <= s.len() && #[trigger] bytes_before(s, k) == offset
}

proof fn lemma_bytes_after_first(s: Seq<char>, n: int)
    requires
        0 < n <= s.len(),
    ensures
        bytes_before(s, n) == char_bytes(s[0]) + bytes_before(s.drop_first(), n - 1),
    decreases n,
{
    if n > 1 {
        lemma_bytes_after_first(s, n - 1);
        assert(s.drop_first()[n - 2] == s[n - 1]);
    } else {
        assert(bytes_before(s, 0) == 0);
        assert(bytes_before(s.drop_first(), 0) == 0);
    }
}

proof fn lemma_encoded_char(c: char)
    ensures
        vstd::utf8::encode_scalar(c as u32).len() == char_bytes(c),
{
}

/// The offsets agree with the encoding of the text.
pub proof fn lemma_byte_len(s: Seq<char>)
    ensures
        byte_len(s) == vstd::utf8::encode_utf8(s).len(),
    decreases s.len(),
{
    if s.len() > 0 {
        lemma_bytes_after_first(s, s.len() as int);
        lemma_byte_len(s.drop_first());
        lemma_encoded_char(s[0]);
    }
}

/// Later characters start at later bytes.
pub proof fn lemma_bytes_increase(s: Seq<char>, i: int, j: int)
    requires
        0 <= i <= j,
    ensures
        bytes_before(s, i) + (j - i) <= bytes_before(s, j),
    decreases j - i,
{
    if i < j {
        lemma_bytes_increase(s, i, j - 1);
    }
}

/// A byte offset belongs to one character only.
pub proof fn lemma_chars_before(s: Seq<char>, k: int)
    requires
        0 <= k <= s.len(),
    ensures
        is_boundary(s, bytes_before(s, k) as int),
        chars_before(s, bytes_before(s, k) as int) == k,
{
    let offset = bytes_before(s, k) as int;
    assert(is_boundary(s, offset));
    let other = chars_before(s, offset);
    assert(0 <= other <= s.len() && bytes_before(s, other) == offset);
    if other < k {
        lemma_bytes_increase(s, other, k);
    } else if other > k {
        lemma_bytes_increase(s, k, other);
    }
}

/// Texts that start alike have their characters at the same bytes.
pub proof fn lemma_bytes_of_prefix(a: Seq<char>, b: Seq<char>, n: int)
    requires
        0 <= n <= a.len(),
        n <= b.len(),
        forall|i: int| 0 <= i < n ==> char_bytes(#[trigger] a[i]) == char_bytes(b[i]),
    ensures
        bytes_before(a, n) == bytes_before(b, n),
    decreases n,
{
    if n > 0 {
        lemma_bytes_of_prefix(a, b, n - 1);
    }
}

/// Offsets within a part of a text, counted from where the part starts.
pub proof fn lemma_bytes_of_part(s: Seq<char>, from: int, to: int, n: int)
    requires
        0 <= from <= to <= s.len(),
        0 <= n <= to - from,
    ensures
        bytes_before(s.subrange(from, to), n) == bytes_before(s, from + n) - bytes_before(s, from),
    decreases n,
{
    if n > 0 {
        lemma_bytes_of_part(s, from, to, n - 1);
        assert(s.subrange(from, to)[n - 1] == s[from + n - 1]);
    }
}

/// The length of a text in bytes.
pub fn byte_length(s: &str) -> (res: usize)
    ensures
        res == byte_len(s@),
{
    proof {
        lemma_byte_len(s@);
    }
    let bytes: &[u8] = s.as_bytes();
    bytes.len()
}

/// Where each character of a text starts, and its end.
pub fn byte_offsets(s: &str) -> (res: Vec<usize>)
    ensures
        res@.len() == s@.len() + 1,
        forall|i: int| 0 <= i <= s@.len() ==> #[trigger] res@[i] == bytes_before(s@, i),
{
    let total: usize = byte_length(s);
    let chars: Vec<char> = to_chars(s);
    let mut out: Vec<usize> = Vec::new();
    out.push(0);
    let mut at: usize = 0;
    let mut i: usize = 0;
    while i < chars.len()
        invariant
            i <= chars@.len(),
            chars@ == s@,
            total == byte_len(s@),
            at == bytes_before(s@, i as int),
            out@.len() == i + 1,
            forall|k: int| 0 <= k <= i ==> #[trigger] out@[k] == bytes_before(s@, k),
        decreases chars@.len() - i,
    {
        proof {
            lemma_bytes_increase(s@, i + 1, s@.len() as int);
        }
        at += char_len(chars[i]);
        out.push(at);
        i += 1;
    }
    out
}

/// How many characters of `s` start before a byte offset: those up to the `k`th,
/// and of the others as many as do.
pub open spec fn chars_until(s: Seq<char>, k: int, offset: int) -> int
    decreases s.len() - k,
{
    if 0 <= k < s.len() && bytes_before(s, k) < offset {
        chars_until(s, k + 1, offset)
    } else {
        k
    }
}

/// The characters that start before a byte offset; all of them where it lies
/// beyond the end.
pub fn char_at_offset(s: &str, offsets: &Vec<usize>, offset: usize) -> (res: usize)
    requires
        offsets@.len() == s@.len() + 1,
        forall|i: int| 0 <= i <= s@.len() ==> #[trigger] offsets@[i] == bytes_before(s@, i),
    ensures
        res == chars_until(s@, 0, offset as int),
        res <= s@.len(),
{
    let count: usize = offsets.len() - 1;
    let mut k: usize = 0;
    while k < count && offsets[k] < offset
        invariant
            k <= count,
            count == s@.len(),
            chars_until(s@, k as int, offset as int) == chars_until(s@, 0, offset as int),
            offsets@.len() == s@.len() + 1,
            forall|i: int| 0 <= i <= s@.len() ==> #[trigger] offsets@[i] == bytes_before(s@, i),
        decreases count - k,
    {
        k += 1;
    }
    k
}

/// Where a character starts, those before it and no others start earlier. No
/// more characters than there are start before an offset beyond the end.
pub proof fn law_offsets_count_the_characters_before_them(s: Seq<char>, k: int, offset: int)
    requires
        0 <= k <= s.len(),
    ensures
        k <= chars_until(s, k, offset) <= s.len(),
        forall|j: int|
            k <= j <= s.len() && #[trigger] bytes_before(s, j) == offset ==> chars_until(
                s,
                k,
                offset,
            ) == j,
        bytes_before(s, s.len() as int) <= offset ==> chars_until(s, k, offset) == s.len(),
    decreases s.len() - k,
{
    if k < s.len() {
        lemma_bytes_increase(s, k, s.len() as int);
        if bytes_before(s, k) < offset {
            law_offsets_count_the_characters_before_them(s, k + 1, offset);
        } else {
            assert forall|j: int|
                k <= j <= s.len() && #[trigger] bytes_before(s, j) == offset implies k == j by {
                lemma_bytes_increase(s, k, j);
            }
        }
    }
}

} // verus!
