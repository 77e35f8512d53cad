//! Single-line text fields edited in place, with a cursor kept as a byte
//! offset into the UTF-8 text.

use vstd::prelude::*;
use vstd::utf8::{encode_scalar, encode_utf8};

use crate::text::{chars_of, lemma_encode_utf8_concat, lemma_encode_utf8_single, string_of, utf8_len};

verus! {

/// Byte offset of character position `k` in `s`.
pub open spec fn byte_offset(s: Seq<char>, k: int) -> int {
    encode_utf8(s.take(k)).len() as int
}

/// `off` is the byte offset of some character position of `s`.
pub open spec fn is_boundary(s: Seq<char>, off: int) -> bool {
    exists|k: int| 0 <= k <= s.len() && #[trigger] byte_offset(s, k) == off
}

/// The character position whose byte offset in `s` is `off`.
pub open spec fn char_index(s: Seq<char>, off: int) -> int {
    choose|k: int| 0 <= k <= s.len() && #[trigger] byte_offset(s, k) == off
}

/// Text and cursor after typing `c` at byte offset `cur` of `v`.
pub open spec fn typed(v: Seq<char>, cur: int, c: char) -> (Seq<char>, int) {
    let k = char_index(v, cur);
    (v.take(k).push(c) + v.skip(k), cur + encode_scalar(c as u32).len())
}

/// Text and cursor after deleting the character before byte offset `cur`.
pub open spec fn erased(v: Seq<char>, cur: int) -> (Seq<char>, int) {
    if cur == 0 {
        (v, cur)
    } else {
        let k = char_index(v, cur);
        (v.take(k - 1) + v.skip(k), byte_offset(v, k - 1))
    }
}

/// One more character adds its encoded length to the offset.
pub proof fn lemma_byte_offset_step(s: Seq<char>, k: int)
    requires
        0 <= k < s.len(),
    ensures
        byte_offset(s, k + 1) == byte_offset(s, k) + encode_scalar(s[k] as u32).len(),
{
    assert(s.take(k + 1) =~= s.take(k) + seq![s[k]]);
    lemma_encode_utf8_concat(s.take(k), seq![s[k]]);
    lemma_encode_utf8_single(s[k]);
}

/// Byte offsets grow strictly with the character position.
pub proof fn lemma_byte_offset_strict(s: Seq<char>, j: int, k: int)
    requires
        0 <= j < k <= s.len(),
    ensures
        byte_offset(s, j) < byte_offset(s, k),
    decreases k - j,
{
    lemma_byte_offset_step(s, k - 1);
    if j < k - 1 {
        lemma_byte_offset_strict(s, j, k - 1);
    }
}

/// The character position of a boundary is unique.
pub proof fn lemma_char_index(s: Seq<char>, k: int)
    requires
        0 <= k <= s.len(),
    ensures
        is_boundary(s, byte_offset(s, k)),
        char_index(s, byte_offset(s, k)) == k,
{
    let off = byte_offset(s, k);
    assert(is_boundary(s, off));
    let j = char_index(s, off);
    if j < k {
        lemma_byte_offset_strict(s, j, k);
    } else if j > k {
        lemma_byte_offset_strict(s, k, j);
    }
}

/// A single-line editable text field.
#[derive(Debug, Clone)]
pub struct FormField {
    pub value: String,
    /// Cursor position (byte offset) within `value`.
    pub cursor: usize,
}

/// Finds the character position of byte offset `cursor` in `cs`.
fn index_of_offset(cs: &[char], cursor: usize) -> (res: usize)
    requires
        is_boundary(cs@, cursor as int),
    ensures
        res as int == char_index(cs@, cursor as int),
        res <= cs.len(),
        byte_offset(cs@, res as int) == cursor,
{
    let ghost k = char_index(cs@, cursor as int);
    let mut off: usize = 0;
    let mut i: usize = 0;
    assert(cs@.take(0) =~= Seq::<char>::empty());
    while off < cursor
        invariant
            0 <= k <= cs.len(),
            byte_offset(cs@, k) == cursor,
            k == char_index(cs@, cursor as int),
            i <= k,
            off as int == byte_offset(cs@, i as int),
        decreases cursor - off,
    {
        proof {
            if i == k {
                assert(false);
            }
            lemma_byte_offset_step(cs@, i as int);
            if i + 1 < k {
                lemma_byte_offset_strict(cs@, i + 1, k);
            }
        }
        off = off + utf8_len(cs[i]);
        i = i + 1;
    }
    proof {
        if i < k {
            lemma_byte_offset_strict(cs@, i as int, k);
        }
    }
    i
}

impl FormField {
    /// A field holding `s` with the cursor at its end.
    pub fn with_value(s: &str) -> (res: Self)
        ensures
            res.value@ == s@,
            res.cursor == byte_offset(s@, s@.len() as int),
    {
        let value = s.to_owned();
        assert(s@.take(s@.len() as int) =~= s@);
        let bytes = crate::text::utf8_bytes(&chars_of(s));
        let cursor = bytes.len();
        FormField { value, cursor }
    }

    /// Inserts `c` at the cursor and moves the cursor past it.
    pub fn insert_char(&mut self, c: char)
        requires
            is_boundary(old(self).value@, old(self).cursor as int),
            old(self).cursor + 4 <= usize::MAX,
        ensures
            (final(self).value@, final(self).cursor as int) == typed(
                old(self).value@,
                old(self).cursor as int,
                c,
            ),
    {
        let cs = chars_of(self.value.as_str());
        let k = index_of_offset(&cs, self.cursor);
        let mut out: Vec<char> = Vec::new();
        let mut i: usize = 0;
        while i < k
            invariant
                i <= k <= cs.len(),
                out@ == cs@.take(i as int),
            decreases k - i,
        {
            out.push(cs[i]);
            assert(cs@.take(i as int).push(cs@[i as int]) =~= cs@.take(i + 1));
            i = i + 1;
        }
        out.push(c);
        let mut j: usize = k;
        while j < cs.len()
            invariant
                k <= j <= cs.len(),
                out@ == cs@.take(k as int).push(c) + cs@.subrange(k as int, j as int),
            decreases cs.len() - j,
        {
            out.push(cs[j]);
            assert(cs@.take(k as int).push(c) + cs@.subrange(k as int, j + 1) =~= (cs@.take(
                k as int,
            ).push(c) + cs@.subrange(k as int, j as int)).push(cs@[j as int]));
            j = j + 1;
        }
        assert(cs@.subrange(k as int, cs.len() as int) =~= cs@.skip(k as int));
        self.value = string_of(&out);
        self.cursor = self.cursor + utf8_len(c);
    }

    /// Deletes the character immediately before the cursor (backspace);
    /// nothing happens at the start of the field.
    pub fn backspace(&mut self)
        requires
            old(self).cursor == 0 || is_boundary(old(self).value@, old(self).cursor as int),
        ensures
            (final(self).value@, final(self).cursor as int) == erased(
                old(self).value@,
                old(self).cursor as int,
            ),
    {
        if self.cursor == 0 {
            return;
        }
        let cs = chars_of(self.value.as_str());
        let k = index_of_offset(&cs, self.cursor);
        if k == 0 {
            assert(cs@.take(0) =~= Seq::<char>::empty());
            assert(false);
        }
        let mut out: Vec<char> = Vec::new();
        let mut off: usize = 0;
        let mut i: usize = 0;
        assert(cs@.take(0) =~= Seq::<char>::empty());
        while i < k - 1
            invariant
                0 < k <= cs.len(),
                i <= k - 1,
                out@ == cs@.take(i as int),
                off as int == byte_offset(cs@, i as int),
                byte_offset(cs@, k as int) == self.cursor,
            decreases k - 1 - i,
        {
            proof {
                lemma_byte_offset_step(cs@, i as int);
                lemma_byte_offset_strict(cs@, i + 1, k as int);
            }
            out.push(cs[i]);
            assert(cs@.take(i as int).push(cs@[i as int]) =~= cs@.take(i + 1));
            off = off + utf8_len(cs[i]);
            i = i + 1;
        }
        let mut j: usize = k;
        while j < cs.len()
            invariant
                0 < k <= j <= cs.len(),
                out@ == cs@.take(k - 1) + cs@.subrange(k as int, j as int),
            decreases cs.len() - j,
        {
            out.push(cs[j]);
            assert(cs@.take(k - 1) + cs@.subrange(k as int, j + 1) =~= (cs@.take(k - 1)
                + cs@.subrange(k as int, j as int)).push(cs@[j as int]));
            j = j + 1;
        }
        assert(cs@.subrange(k as int, cs.len() as int) =~= cs@.skip(k as int));
        self.value = string_of(&out);
        self.cursor = off;
    }
}

impl Default for FormField {
    /// An empty field with the cursor at the start.
    fn default() -> (res: Self)
        ensures
            res.value@.len() == 0,
            res.cursor == 0,
    {
        FormField { value: String::new(), cursor: 0 }
    }
}

/// Backspace right after typing a character restores the field.
pub proof fn lemma_backspace_undoes_insert(v: Seq<char>, cur: int, c: char)
    requires
        is_boundary(v, cur),
    ensures
        erased(typed(v, cur, c).0, typed(v, cur, c).1) == (v, cur),
        is_boundary(typed(v, cur, c).0, typed(v, cur, c).1),
{
    let k = char_index(v, cur);
    let w = typed(v, cur, c).0;
    let cur2 = typed(v, cur, c).1;
    assert(w.take(k) =~= v.take(k));
    assert(w[k] == c);
    lemma_byte_offset_step(w, k);
    assert(byte_offset(w, k) == byte_offset(v, k));
    assert(cur2 == byte_offset(w, k + 1));
    lemma_char_index(w, k + 1);
    assert(w.take(k) + w.skip(k + 1) =~= v);
}

} // verus!
