//! Places in a line of text, counted in the bytes of its UTF-8 form.

use vstd::prelude::*;
use crate::text::push_char;

verus! {

/// The number of bytes a character takes in UTF-8.
pub open spec fn utf8_width(c: char) -> nat {
    let n = c as int;
    if n < 0x80 {
        1
    } else if n < 0x800 {
        2
    } else if n < 0x10000 {
        3
    } else {
        4
    }
}

/// The number of bytes a text takes in UTF-8.
pub open spec fn byte_len(s: Seq<char>) -> nat
    decreases s.len(),
{
    if s.len() == 0 {
        0
    } else {
        byte_len(s.drop_last()) + utf8_width(s.last())
    }
}

/// The number of bytes the first `n` characters take.
pub open spec fn offset_of(s: Seq<char>, n: int) -> nat {
    byte_len(s.take(n))
}

/// Whether `pos` is a place between two characters of `s`, at its
/// start or at its end.
pub open spec fn on_boundary(s: Seq<char>, pos: int) -> bool {
    exists|n: int| 0 <= n <= s.len() && #[trigger] offset_of(s, n) == pos
}

/// The number of characters before the place `pos`.
pub open spec fn index_at(s: Seq<char>, pos: int) -> int {
    choose|n: int| 0 <= n <= s.len() && #[trigger] offset_of(s, n) == pos
}

/// One more character is that character's bytes more.
pub proof fn lemma_offset_step(s: Seq<char>, n: int)
    requires
        0 <= n < s.len(),
    ensures
        offset_of(s, n + 1) == offset_of(s, n) + utf8_width(s[n]),
        offset_of(s, 0) == 0,
{
    assert(s.take(n + 1).drop_last() =~= s.take(n));
    assert(s.take(n + 1).last() == s[n]);
    assert(s.take(0).len() == 0);
}

/// More characters take more bytes.
pub proof fn lemma_offset_grows(s: Seq<char>, a: int, b: int)
    requires
        0 <= a < b <= s.len(),
    ensures
        offset_of(s, a) < offset_of(s, b),
    decreases b - a,
{
    lemma_offset_step(s, b - 1);
    if a < b - 1 {
        lemma_offset_grows(s, a, b - 1);
    }
}

/// A place has one number of characters before it.
pub proof fn lemma_index_unique(s: Seq<char>, n: int)
    requires
        0 <= n <= s.len(),
    ensures
        on_boundary(s, offset_of(s, n) as int),
        index_at(s, offset_of(s, n) as int) == n,
{
    let m = index_at(s, offset_of(s, n) as int);
    if m < n {
        lemma_offset_grows(s, m, n);
    }
    if n < m {
        lemma_offset_grows(s, n, m);
    }
}

/// The bytes of a text are the bytes of its parts.
pub proof fn lemma_byte_len_concat(a: Seq<char>, b: Seq<char>)
    ensures
        byte_len(a + b) == byte_len(a) + byte_len(b),
    decreases b.len(),
{
    if b.len() == 0 {
        assert(a + b =~= a);
    } else {
        lemma_byte_len_concat(a, b.drop_last());
        assert((a + b).drop_last() =~= a + b.drop_last());
        assert((a + b).last() == b.last());
    }
}

/// A character takes as many bytes as its UTF-8 encoding has.
pub proof fn lemma_width_is_encoded_len(c: char)
    ensures
        utf8_width(c) == vstd::utf8::encode_scalar(c as u32).len(),
{
    vstd::utf8::char_is_scalar(c);
}

/// The encoding of a text with one more character is the encoding of
/// the text and then that of the character.
pub proof fn lemma_encode_push(s: Seq<char>, c: char)
    ensures
        vstd::utf8::encode_utf8(s.push(c)) == vstd::utf8::encode_utf8(s)
            + vstd::utf8::encode_scalar(c as u32),
    decreases s.len(),
{
    let t = s.push(c);
    if s.len() == 0 {
        assert(t.drop_first() =~= Seq::<char>::empty());
        assert(vstd::utf8::encode_utf8(t.drop_first()) =~= Seq::<u8>::empty());
        assert(vstd::utf8::encode_utf8(s) =~= Seq::<u8>::empty());
        assert(vstd::utf8::encode_utf8(t) =~= vstd::utf8::encode_scalar(c as u32));
        assert(vstd::utf8::encode_utf8(s) + vstd::utf8::encode_scalar(c as u32)
            =~= vstd::utf8::encode_scalar(c as u32));
    } else {
        lemma_encode_push(s.drop_first(), c);
        assert(t.drop_first() =~= s.drop_first().push(c));
        assert(t[0] == s[0]);
        assert(vstd::utf8::encode_utf8(t) =~= vstd::utf8::encode_utf8(s)
            + vstd::utf8::encode_scalar(c as u32));
    }
}

/// A text takes as many bytes as its UTF-8 encoding has.
pub proof fn lemma_byte_len_is_encoded_len(s: Seq<char>)
    ensures
        byte_len(s) == vstd::utf8::encode_utf8(s).len(),
    decreases s.len(),
{
    if s.len() > 0 {
        lemma_byte_len_is_encoded_len(s.drop_last());
        lemma_encode_push(s.drop_last(), s.last());
        lemma_width_is_encoded_len(s.last());
        assert(s.drop_last().push(s.last()) =~= s);
    }
}

/// The number of bytes a character takes in UTF-8.
pub fn utf8_len(c: char) -> (width: usize)
    ensures
        width == utf8_width(c),
        1 <= width <= 4,
{
    let n: u32 = c as u32;
    if n < 0x80 {
        1
    } else if n < 0x800 {
        2
    } else if n < 0x10000 {
        3
    } else {
        4
    }
}

/// The number of bytes a text takes in UTF-8.
pub fn byte_count(s: &str) -> (n: usize)
    ensures
        n == byte_len(s@),
{
    proof {
        lemma_byte_len_is_encoded_len(s@);
    }
    s.as_bytes().len()
}

/// The characters of a text.
pub fn chars_of(s: &str) -> (chars: Vec<char>)
    ensures
        chars@ == s@,
{
    let n: usize = s.unicode_len();
    let mut chars: Vec<char> = Vec::new();
    let mut i: usize = 0;
    while i < n
        invariant
            n == s@.len(),
            i <= n,
            chars@ == s@.take(i as int),
        decreases n - i,
    {
        chars.push(s.get_char(i));
        assert(chars@ =~= s@.take(i as int + 1));
        i += 1;
    }
    assert(s@.take(n as int) =~= s@);
    chars
}

/// The text of the characters from `from` up to `to`.
pub fn text_of(chars: &Vec<char>, from: usize, to: usize) -> (s: String)
    requires
        from <= to <= chars.len(),
    ensures
        s@ == chars@.subrange(from as int, to as int),
{
    let mut s: String = String::new();
    let mut i: usize = from;
    while i < to
        invariant
            from <= i <= to <= chars.len(),
            s@ == chars@.subrange(from as int, i as int),
        decreases to - i,
    {
        push_char(&mut s, chars[i]);
        assert(s@ =~= chars@.subrange(from as int, i as int + 1));
        i += 1;
    }
    s
}

/// The number of characters before the place `pos`.
pub fn locate(chars: &Vec<char>, pos: usize) -> (n: usize)
    requires
        on_boundary(chars@, pos as int),
    ensures
        n <= chars.len(),
        offset_of(chars@, n as int) == pos,
        n == index_at(chars@, pos as int),
{
    let ghost m = index_at(chars@, pos as int);
    let mut n: usize = 0;
    let mut at: usize = 0;
    proof {
        assert(chars@.take(0).len() == 0);
    }
    while at < pos
        invariant
            0 <= m <= chars.len(),
            offset_of(chars@, m) == pos,
            n <= m,
            at == offset_of(chars@, n as int),
            at <= pos,
        decreases pos - at,
    {
        proof {
            if n == m {
                assert(false);
            }
            lemma_offset_step(chars@, n as int);
            if n + 1 < m {
                lemma_offset_grows(chars@, n as int + 1, m);
            }
        }
        at = at + utf8_len(chars[n]);
        n += 1;
    }
    proof {
        lemma_index_unique(chars@, n as int);
    }
    n
}

} // verus!
