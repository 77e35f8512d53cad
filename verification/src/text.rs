//! Character-level string helpers with contracts over `Seq<char>`.
//!
//! Every operation here is stated over the character view `s@` of a string;
//! the executable functions build their results character by character.

use vstd::prelude::*;
use vstd::utf8::*;

verus! {

// ---------------------------------------------------------------------------
// Specifications
// ---------------------------------------------------------------------------

/// `pat` occurs in `s` starting at index `i`.
pub open spec fn occurs_at(s: Seq<char>, pat: Seq<char>, i: int) -> bool {
    0 <= i && i + pat.len() <= s.len() && s.subrange(i, i + pat.len()) =~= pat
}

/// `pat` occurs somewhere in `s` (the empty pattern occurs everywhere).
pub open spec fn contains_seq(s: Seq<char>, pat: Seq<char>) -> bool {
    exists|i: int| #[trigger] occurs_at(s, pat, i)
}

/// Left-to-right replacement of every non-overlapping occurrence of a
/// non-empty `pat` by `rep`; the replacement text is never rescanned.
pub open spec fn replace_all(s: Seq<char>, pat: Seq<char>, rep: Seq<char>) -> Seq<char>
    decreases s.len(),
{
    if pat.len() == 0 || s.len() == 0 {
        s
    } else if pat.len() <= s.len() && s.take(pat.len() as int) =~= pat {
        rep + replace_all(s.skip(pat.len() as int), pat, rep)
    } else {
        seq![s[0]] + replace_all(s.skip(1), pat, rep)
    }
}

/// The Unicode `White_Space` property, as `char::is_whitespace` documents it.
pub open spec fn is_ws(c: char) -> bool {
    ||| c == '\t'
    ||| c == '\n'
    ||| c == '\u{0B}'
    ||| c == '\u{0C}'
    ||| c == '\r'
    ||| c == ' '
    ||| c == '\u{85}'
    ||| c == '\u{A0}'
    ||| c == '\u{1680}'
    ||| ('\u{2000}' <= c && c <= '\u{200A}')
    ||| c == '\u{2028}'
    ||| c == '\u{2029}'
    ||| c == '\u{202F}'
    ||| c == '\u{205F}'
    ||| c == '\u{3000}'
}

/// `s` without its leading whitespace.
pub open spec fn trim_start(s: Seq<char>) -> Seq<char>
    decreases s.len(),
{
    if s.len() > 0 && is_ws(s[0]) {
        trim_start(s.drop_first())
    } else {
        s
    }
}

/// `s` without its trailing whitespace.
pub open spec fn trim_end(s: Seq<char>) -> Seq<char>
    decreases s.len(),
{
    if s.len() > 0 && is_ws(s.last()) {
        trim_end(s.drop_last())
    } else {
        s
    }
}

/// `s` without leading and trailing whitespace (`str::trim`).
pub open spec fn trim(s: Seq<char>) -> Seq<char> {
    trim_end(trim_start(s))
}

/// The pieces of `s` between occurrences of `sep` (`str::split` on a char):
/// an input with `k` separators yields `k + 1` pieces. Each character either
/// closes the current piece (a separator) or extends it.
pub open spec fn split_on(s: Seq<char>, sep: char) -> Seq<Seq<char>>
    decreases s.len(),
{
    if s.len() == 0 {
        seq![Seq::empty()]
    } else {
        let prev = split_on(s.drop_last(), sep);
        if s.last() == sep {
            prev.push(Seq::empty())
        } else {
            prev.update(prev.len() - 1, prev.last().push(s.last()))
        }
    }
}

/// The trimmed, non-empty pieces of a `sep`-separated list.
pub open spec fn list_items(s: Seq<char>, sep: char) -> Seq<Seq<char>> {
    split_on(s, sep).map_values(|p: Seq<char>| trim(p)).filter(|p: Seq<char>| p.len() > 0)
}

/// `parts` joined with `sep` between consecutive parts (`[T]::join`).
pub open spec fn join(parts: Seq<Seq<char>>, sep: Seq<char>) -> Seq<char>
    decreases parts.len(),
{
    if parts.len() == 0 {
        Seq::empty()
    } else if parts.len() == 1 {
        parts[0]
    } else {
        join(parts.drop_last(), sep) + sep + parts.last()
    }
}

/// The character view of every string in `v`.
pub open spec fn views(v: Seq<String>) -> Seq<Seq<char>> {
    v.map_values(|s: String| s@)
}

/// ASCII lower-casing of one character (`char::to_ascii_lowercase`).
pub open spec fn ascii_lower(c: char) -> char {
    if 'A' <= c && c <= 'Z' {
        ((c as u32) + 32) as char
    } else {
        c
    }
}

/// Full Unicode lower-casing of a string, as `str::to_lowercase` computes it.
pub uninterp spec fn lowercase(s: Seq<char>) -> Seq<char>;

// ---------------------------------------------------------------------------
// Conversions
// ---------------------------------------------------------------------------

/// The characters of `s`, in order.
pub fn chars_of(s: &str) -> (res: Vec<char>)
    ensures
        res@ == s@,
{
    let mut out: Vec<char> = Vec::new();
    let mut it = s.chars();
    for c in iter: it
        invariant
            out@ == iter.seq().take(iter.index() as int),
    {
        out.push(c);
    }
    out
}

/// `String::push`: the contract states that the text gains `c` at its end.
#[verifier::external_body]
pub(crate) fn push_char(s: &mut String, c: char)
    ensures
        final(s)@ == old(s)@.push(c),
{
    s.push(c);
}

/// A `String` holding the characters `cs`.
pub fn string_of(cs: &[char]) -> (res: String)
    ensures
        res@ == cs@,
{
    let mut out = String::new();
    let mut i: usize = 0;
    while i < cs.len()
        invariant
            i <= cs.len(),
            out@ == cs@.take(i as int),
        decreases cs.len() - i,
    {
        push_char(&mut out, cs[i]);
        assert(cs@.take(i as int).push(cs@[i as int]) =~= cs@.take(i + 1));
        i = i + 1;
    }
    assert(cs@.take(cs.len() as int) =~= cs@);
    out
}

/// An owned copy of `s` (`str::to_string`).
pub fn owned(s: &str) -> (res: String)
    ensures
        res@ == s@,
{
    s.to_owned()
}

/// Every character of `s` is ASCII.
pub open spec fn ascii_text(s: Seq<char>) -> bool {
    forall|i: int| 0 <= i < s.len() ==> (#[trigger] s[i] as u32) < 128
}

/// `str::to_lowercase`: Unicode lower-casing. The contract names the result
/// `lowercase` of the text; of ASCII text it states, as std documents for
/// ASCII letters, that each character is lower-cased on its own (`A`-`Z`
/// become `a`-`z`, everything else stays).
#[verifier::external_body]
pub(crate) fn to_lowercase(s: &str) -> (res: String)
    ensures
        res@ == lowercase(s@),
        ascii_text(s@) ==> res@ == s@.map_values(|c: char| ascii_lower(c)),
{
    s.to_lowercase()
}

// ---------------------------------------------------------------------------
// Queries
// ---------------------------------------------------------------------------

/// Whether two strings hold the same characters.
pub fn str_eq(a: &str, b: &str) -> (res: bool)
    ensures
        res == (a@ == b@),
{
    let x = chars_of(a);
    let y = chars_of(b);
    seq_eq(&x, &y)
}

/// Whether two character slices are equal.
pub fn seq_eq(x: &[char], y: &[char]) -> (res: bool)
    ensures
        res == (x@ == y@),
{
    if x.len() != y.len() {
        return false;
    }
    let mut i: usize = 0;
    while i < x.len()
        invariant
            x.len() == y.len(),
            i <= x.len(),
            forall|j: int| 0 <= j < i ==> x@[j] == y@[j],
        decreases x.len() - i,
    {
        if x[i] != y[i] {
            return false;
        }
        i = i + 1;
    }
    assert(x@ =~= y@);
    true
}

/// Whether `pat` occurs in `s` at index `i`.
pub fn matches_at(s: &[char], pat: &[char], i: usize) -> (res: bool)
    ensures
        res == occurs_at(s@, pat@, i as int),
{
    if i > s.len() || pat.len() > s.len() - i {
        return false;
    }
    let mut j: usize = 0;
    while j < pat.len()
        invariant
            i + pat.len() <= s.len(),
            j <= pat.len(),
            forall|k: int| 0 <= k < j ==> s@[i + k] == pat@[k],
        decreases pat.len() - j,
    {
        if s[i + j] != pat[j] {
            assert(s@.subrange(i as int, i + pat.len())[j as int] != pat@[j as int]);
            return false;
        }
        j = j + 1;
    }
    assert(s@.subrange(i as int, i + pat.len()) =~= pat@);
    true
}

/// Whether `pat` occurs anywhere in `s`.
pub fn contains_chars(s: &[char], pat: &[char]) -> (res: bool)
    ensures
        res == contains_seq(s@, pat@),
{
    if pat.len() > s.len() {
        assert forall|i: int| !#[trigger] occurs_at(s@, pat@, i) by {}
        return false;
    }
    let mut i: usize = 0;
    while i <= s.len() - pat.len()
        invariant
            pat.len() <= s.len(),
            i <= s.len() - pat.len() + 1,
            forall|k: int| 0 <= k < i ==> !#[trigger] occurs_at(s@, pat@, k),
        decreases s.len() - pat.len() + 1 - i,
    {
        if matches_at(s, pat, i) {
            return true;
        }
        i = i + 1;
    }
    assert forall|k: int| !#[trigger] occurs_at(s@, pat@, k) by {
        if 0 <= k < i {
        }
    }
    false
}

/// Whether `pat` occurs anywhere in `s` (`str::contains`).
pub fn contains(s: &str, pat: &str) -> (res: bool)
    ensures
        res == contains_seq(s@, pat@),
{
    let x = chars_of(s);
    let y = chars_of(pat);
    contains_chars(&x, &y)
}

/// Every split has at least one piece.
pub proof fn lemma_split_nonempty(s: Seq<char>, sep: char)
    ensures
        split_on(s, sep).len() >= 1,
    decreases s.len(),
{
    if s.len() > 0 {
        lemma_split_nonempty(s.drop_last(), sep);
    }
}

/// `trim_start` drops exactly the leading whitespace run of length `a`.
proof fn lemma_trim_start_at(s: Seq<char>, a: int)
    requires
        0 <= a <= s.len(),
        forall|i: int| 0 <= i < a ==> is_ws(#[trigger] s[i]),
        a == s.len() || !is_ws(s[a]),
    ensures
        trim_start(s) == s.skip(a),
    decreases a,
{
    if a == 0 {
        assert(s.skip(0) =~= s);
    } else {
        assert forall|i: int| 0 <= i < a - 1 implies is_ws(#[trigger] s.drop_first()[i]) by {
            assert(s.drop_first()[i] == s[i + 1]);
        }
        lemma_trim_start_at(s.drop_first(), a - 1);
        assert(s.drop_first().skip(a - 1) =~= s.skip(a));
    }
}

/// `trim_end` drops exactly the trailing whitespace run, keeping `s[..b]`.
proof fn lemma_trim_end_at(s: Seq<char>, b: int)
    requires
        0 <= b <= s.len(),
        forall|i: int| b <= i < s.len() ==> is_ws(#[trigger] s[i]),
        b == 0 || !is_ws(s[b - 1]),
    ensures
        trim_end(s) == s.take(b),
    decreases s.len() - b,
{
    if b == s.len() {
        assert(s.take(b) =~= s);
    } else {
        assert forall|i: int| b <= i < s.drop_last().len() implies is_ws(#[trigger] s.drop_last()[i]) by {
            assert(s.drop_last()[i] == s[i]);
        }
        lemma_trim_end_at(s.drop_last(), b);
        assert(s.drop_last().take(b) =~= s.take(b));
    }
}

/// Whether `c` has the Unicode `White_Space` property (`char::is_whitespace`).
pub fn is_whitespace(c: char) -> (res: bool)
    ensures
        res == is_ws(c),
{
    c == '\t' || c == '\n' || c == '\u{0B}' || c == '\u{0C}' || c == '\r' || c == ' '
        || c == '\u{85}' || c == '\u{A0}' || c == '\u{1680}' || ('\u{2000}' <= c && c
        <= '\u{200A}') || c == '\u{2028}' || c == '\u{2029}' || c == '\u{202F}' || c
        == '\u{205F}' || c == '\u{3000}'
}

/// The characters of `s` without leading and trailing whitespace.
pub fn trim_chars(s: &[char]) -> (res: Vec<char>)
    ensures
        res@ == trim(s@),
{
    let mut a: usize = 0;
    while a < s.len() && is_whitespace(s[a])
        invariant
            a <= s.len(),
            forall|i: int| 0 <= i < a ==> is_ws(#[trigger] s@[i]),
        decreases s.len() - a,
    {
        a = a + 1;
    }
    proof {
        lemma_trim_start_at(s@, a as int);
    }
    let ghost t = s@.skip(a as int);
    let mut b: usize = s.len();
    while b > a && is_whitespace(s[b - 1])
        invariant
            a <= b <= s.len(),
            forall|i: int| b <= i < s.len() ==> is_ws(#[trigger] s@[i]),
        decreases b,
    {
        b = b - 1;
    }
    proof {
        assert forall|i: int| b - a <= i < t.len() implies is_ws(#[trigger] t[i]) by {
            assert(t[i] == s@[i + a]);
        }
        if b > a {
            assert(t[b - a - 1] == s@[b - 1]);
        }
        lemma_trim_end_at(t, b - a);
    }
    let mut out: Vec<char> = Vec::new();
    let mut i: usize = a;
    while i < b
        invariant
            a <= i <= b <= s.len(),
            out@ == s@.subrange(a as int, i as int),
        decreases b - i,
    {
        out.push(s[i]);
        assert(s@.subrange(a as int, i as int).push(s@[i as int]) =~= s@.subrange(a as int, i + 1));
        i = i + 1;
    }
    assert(t.take(b - a) =~= s@.subrange(a as int, b as int));
    out
}

/// Replaces every non-overlapping occurrence of a non-empty `pat` in `s`
/// with `rep`, scanning left to right (`str::replace`).
pub fn replace_chars(s: &[char], pat: &[char], rep: &[char]) -> (res: Vec<char>)
    requires
        pat.len() > 0,
    ensures
        res@ == replace_all(s@, pat@, rep@),
{
    let mut out: Vec<char> = Vec::new();
    let mut i: usize = 0;
    assert(s@.skip(0) =~= s@);
    while i < s.len()
        invariant
            pat.len() > 0,
            i <= s.len(),
            replace_all(s@, pat@, rep@) == out@ + replace_all(s@.skip(i as int), pat@, rep@),
        decreases s.len() - i,
    {
        let ghost rest = s@.skip(i as int);
        if matches_at(s, pat, i) {
            assert(rest.take(pat.len() as int) =~= s@.subrange(i as int, i + pat.len()));
            assert(rest.skip(pat.len() as int) =~= s@.skip(i + pat.len()));
            let mut k: usize = 0;
            let ghost before = out@;
            while k < rep.len()
                invariant
                    k <= rep.len(),
                    out@ == before + rep@.take(k as int),
                decreases rep.len() - k,
            {
                out.push(rep[k]);
                assert(rep@.take(k as int).push(rep@[k as int]) =~= rep@.take(k + 1));
                k = k + 1;
            }
            assert(rep@.take(rep.len() as int) =~= rep@);
            assert(before + (rep@ + replace_all(rest.skip(pat.len() as int), pat@, rep@)) =~= out@
                + replace_all(s@.skip(i + pat.len()), pat@, rep@));
            i = i + pat.len();
        } else {
            proof {
                if pat@.len() <= rest.len() {
                    assert(rest.take(pat.len() as int) =~= s@.subrange(i as int, i + pat.len()));
                }
            }
            assert(rest.skip(1) =~= s@.skip(i + 1));
            assert(rest[0] == s@[i as int]);
            let ghost before = out@;
            out.push(s[i]);
            assert(before + (seq![s@[i as int]] + replace_all(s@.skip(i + 1), pat@, rep@)) =~= out@
                + replace_all(s@.skip(i + 1), pat@, rep@));
            i = i + 1;
        }
    }
    assert(s@.skip(s.len() as int) =~= Seq::<char>::empty());
    assert(out@ + Seq::<char>::empty() =~= out@);
    out
}

/// The pieces of `s` between occurrences of `sep`.
pub fn split_chars(s: &[char], sep: char) -> (res: Vec<Vec<char>>)
    ensures
        res@.map_values(|p: Vec<char>| p@) == split_on(s@, sep),
{
    let mut done: Vec<Vec<char>> = Vec::new();
    let mut cur: Vec<char> = Vec::new();
    let mut i: usize = 0;
    assert(s@.take(0) =~= Seq::<char>::empty());
    while i < s.len()
        invariant
            i <= s.len(),
            done@.map_values(|p: Vec<char>| p@).push(cur@) == split_on(s@.take(i as int), sep),
        decreases s.len() - i,
    {
        let ghost pre = s@.take(i as int);
        assert(s@.take(i + 1).drop_last() =~= pre);
        assert(s@.take(i + 1).last() == s@[i as int]);
        let ghost prev = split_on(pre, sep);
        if s[i] == sep {
            let finished = cur;
            done.push(finished);
            cur = Vec::new();
            assert(done@.map_values(|p: Vec<char>| p@) =~= prev);
            assert(done@.map_values(|p: Vec<char>| p@).push(cur@) =~= prev.push(Seq::empty()));
        } else {
            let ghost old_done = done@.map_values(|p: Vec<char>| p@);
            cur.push(s[i]);
            assert(done@.map_values(|p: Vec<char>| p@) == old_done);
            assert(old_done.push(cur@) =~= prev.update(prev.len() - 1, prev.last().push(s@[i as int])));
        }
        i = i + 1;
    }
    assert(s@.take(s.len() as int) =~= s@);
    done.push(cur);
    assert(done@.map_values(|p: Vec<char>| p@) =~= split_on(s@, sep));
    done
}

/// The trimmed, non-empty pieces of the `sep`-separated list `s`.
pub fn list_items_of(s: &str, sep: char) -> (res: Vec<String>)
    ensures
        views(res@) == list_items(s@, sep),
{
    let cs = chars_of(s);
    let pieces = split_chars(&cs, sep);
    let ghost pv = pieces@.map_values(|p: Vec<char>| p@);
    let ghost trimmed = pv.map_values(|p: Seq<char>| trim(p));
    let ghost keep = |p: Seq<char>| p.len() > 0;
    let mut out: Vec<String> = Vec::new();
    let mut i: usize = 0;
    assert(trimmed.take(0) =~= Seq::<Seq<char>>::empty());
    while i < pieces.len()
        invariant
            i <= pieces.len(),
            pv == pieces@.map_values(|p: Vec<char>| p@),
            trimmed == pv.map_values(|p: Seq<char>| trim(p)),
            keep == (|p: Seq<char>| p.len() > 0),
            views(out@) == trimmed.take(i as int).filter(keep),
        decreases pieces.len() - i,
    {
        let t = trim_chars(&pieces[i]);
        assert(t@ == trimmed[i as int]);
        assert(trimmed.take(i + 1) =~= trimmed.take(i as int).push(trimmed[i as int]));
        proof { trimmed.take(i as int).lemma_filter_push(trimmed[i as int], keep); }
        if t.len() > 0 {
            let st = string_of(&t);
            out.push(st);
            assert(views(out@) =~= views(out@.drop_last()).push(st@));
        }
        i = i + 1;
    }
    assert(trimmed.take(pieces.len() as int) =~= trimmed);
    out
}

/// Appends the characters `cs` to `out`.
pub fn append_chars(out: &mut Vec<char>, cs: &[char])
    ensures
        final(out)@ == old(out)@ + cs@,
{
    let ghost start = out@;
    let mut k: usize = 0;
    while k < cs.len()
        invariant
            k <= cs.len(),
            out@ == start + cs@.take(k as int),
        decreases cs.len() - k,
    {
        out.push(cs[k]);
        assert(cs@.take(k as int).push(cs@[k as int]) =~= cs@.take(k + 1));
        k = k + 1;
    }
    assert(cs@.take(cs.len() as int) =~= cs@);
}

/// Appends the characters of `s` to `out`.
pub fn append_str(out: &mut Vec<char>, s: &str)
    ensures
        final(out)@ == old(out)@ + s@,
{
    let cs = chars_of(s);
    append_chars(out, &cs);
}

/// The character sequences `parts` joined with `sep`.
pub fn join_chars(parts: &[Vec<char>], sep: &[char]) -> (res: Vec<char>)
    ensures
        res@ == join(parts@.map_values(|p: Vec<char>| p@), sep@),
{
    let ghost pv = parts@.map_values(|p: Vec<char>| p@);
    let mut out: Vec<char> = Vec::new();
    let mut i: usize = 0;
    while i < parts.len()
        invariant
            i <= parts.len(),
            pv == parts@.map_values(|p: Vec<char>| p@),
            out@ == join(pv.take(i as int), sep@),
        decreases parts.len() - i,
    {
        let ghost before = out@;
        if i > 0 {
            append_chars(&mut out, sep);
        }
        append_chars(&mut out, &parts[i]);
        assert(pv.take(i + 1).drop_last() =~= pv.take(i as int));
        assert(pv[i as int] == parts@[i as int]@);
        if i == 0 {
            assert(out@ =~= parts@[0]@);
        } else {
            assert(out@ =~= before + sep@ + parts@[i as int]@);
        }
        i = i + 1;
    }
    assert(pv.take(parts.len() as int) =~= pv);
    out
}

/// The strings of `parts` joined with `sep` (`[String]::join`).
pub fn join_strings(parts: &[String], sep: &str) -> (res: String)
    ensures
        res@ == join(views(parts@), sep@),
{
    let sepc = chars_of(sep);
    let mut pieces: Vec<Vec<char>> = Vec::new();
    let mut i: usize = 0;
    while i < parts.len()
        invariant
            i <= parts.len(),
            pieces@.map_values(|p: Vec<char>| p@) == views(parts@).take(i as int),
        decreases parts.len() - i,
    {
        let c = chars_of(parts[i].as_str());
        let ghost before = pieces@.map_values(|p: Vec<char>| p@);
        let ghost cv = c@;
        pieces.push(c);
        assert(pieces@.map_values(|p: Vec<char>| p@) =~= before.push(cv));
        assert(views(parts@).take(i + 1) =~= views(parts@).take(i as int).push(parts@[i as int]@));
        assert(pieces@.map_values(|p: Vec<char>| p@) =~= views(parts@).take(i + 1));
        i = i + 1;
    }
    assert(views(parts@).take(parts.len() as int) =~= views(parts@));
    let out = join_chars(&pieces, &sepc);
    string_of(&out)
}

/// ASCII lower-casing of one character (`char::to_ascii_lowercase`).
pub fn to_ascii_lower(c: char) -> (res: char)
    ensures
        res == ascii_lower(c),
{
    if 'A' <= c && c <= 'Z' {
        let b: u8 = (c as u8) + 32;
        assert(b as u32 == (c as u32) + 32);
        b as char
    } else {
        c
    }
}

// ---------------------------------------------------------------------------
// UTF-8
// ---------------------------------------------------------------------------

/// UTF-8 encoding distributes over concatenation.
pub proof fn lemma_encode_utf8_concat(a: Seq<char>, b: Seq<char>)
    ensures
        encode_utf8(a + b) == encode_utf8(a) + encode_utf8(b),
    decreases a.len(),
{
    if a.len() == 0 {
        assert(a + b =~= b);
    } else {
        assert((a + b).drop_first() =~= a.drop_first() + b);
        lemma_encode_utf8_concat(a.drop_first(), b);
        assert(encode_utf8(a + b) =~= encode_scalar(a[0] as u32) + encode_utf8(a.drop_first() + b));
    }
}

/// The encoding of a one-character sequence is the encoding of the character.
pub proof fn lemma_encode_utf8_single(c: char)
    ensures
        encode_utf8(seq![c]) == encode_scalar(c as u32),
{
    assert(seq![c].drop_first() =~= Seq::<char>::empty());
    assert(encode_utf8(Seq::<char>::empty()) == Seq::<u8>::empty());
    assert(encode_utf8(seq![c]) == encode_scalar(c as u32) + encode_utf8(seq![c].drop_first()));
    assert(encode_scalar(c as u32) + Seq::<u8>::empty() =~= encode_scalar(c as u32));
}

/// Byte length of the UTF-8 encoding of `c` (`char::len_utf8`).
pub fn utf8_len(c: char) -> (res: usize)
    ensures
        res == encode_scalar(c as u32).len(),
        1 <= res <= 4,
{
    let u = c as u32;
    if u <= 0x7F {
        1
    } else if u <= 0x7FF {
        2
    } else if u <= 0xFFFF {
        3
    } else {
        4
    }
}

/// The UTF-8 bytes of `c` (`char::encode_utf8`).
pub fn encode_char(c: char) -> (res: Vec<u8>)
    ensures
        res@ == encode_scalar(c as u32),
{
    let u = c as u32;
    if u <= 0x7F {
        vec![(u & 0x7F) as u8]
    } else if u <= 0x7FF {
        vec![0xC0u8 | ((u >> 6) & 0x1F) as u8, 0x80u8 | (u & 0x3F) as u8]
    } else if u <= 0xFFFF {
        vec![
            0xE0u8 | ((u >> 12) & 0x0F) as u8,
            0x80u8 | ((u >> 6) & 0x3F) as u8,
            0x80u8 | (u & 0x3F) as u8,
        ]
    } else {
        vec![
            0xF0u8 | ((u >> 18) & 0x7) as u8,
            0x80u8 | ((u >> 12) & 0x3F) as u8,
            0x80u8 | ((u >> 6) & 0x3F) as u8,
            0x80u8 | (u & 0x3F) as u8,
        ]
    }
}

/// Appends the UTF-8 bytes of `cs` to `out`.
pub fn push_utf8(out: &mut Vec<u8>, cs: &[char])
    ensures
        final(out)@ == old(out)@ + encode_utf8(cs@),
{
    let mut i: usize = 0;
    let ghost start = out@;
    while i < cs.len()
        invariant
            i <= cs.len(),
            out@ == start + encode_utf8(cs@.take(i as int)),
        decreases cs.len() - i,
    {
        let bytes = encode_char(cs[i]);
        let mut k: usize = 0;
        let ghost mid = out@;
        while k < bytes.len()
            invariant
                k <= bytes.len(),
                out@ == mid + bytes@.take(k as int),
            decreases bytes.len() - k,
        {
            out.push(bytes[k]);
            assert(bytes@.take(k as int).push(bytes@[k as int]) =~= bytes@.take(k + 1));
            k = k + 1;
        }
        proof {
            assert(bytes@.take(bytes.len() as int) =~= bytes@);
            assert(cs@.take(i + 1) =~= cs@.take(i as int) + seq![cs@[i as int]]);
            lemma_encode_utf8_concat(cs@.take(i as int), seq![cs@[i as int]]);
            lemma_encode_utf8_single(cs@[i as int]);
        }
        i = i + 1;
    }
    assert(cs@.take(cs.len() as int) =~= cs@);
}

/// The UTF-8 bytes of `s` (`str::as_bytes`, owned).
pub fn utf8_bytes(cs: &[char]) -> (res: Vec<u8>)
    ensures
        res@ == encode_utf8(cs@),
{
    let mut out: Vec<u8> = Vec::new();
    push_utf8(&mut out, cs);
    assert(Seq::<u8>::empty() + encode_utf8(cs@) =~= encode_utf8(cs@));
    out
}


/// Text that trimming leaves alone: non-empty, with no whitespace at
/// either end.
pub open spec fn trimmed_text(s: Seq<char>) -> bool {
    s.len() > 0 && !is_ws(s[0]) && !is_ws(s.last())
}

/// An item that a comma-separated list gives back as it is: trimmed text
/// without a comma.
pub open spec fn plain_item(s: Seq<char>) -> bool {
    trimmed_text(s) && !s.contains(',')
}

/// Trimming leaves trimmed text alone, and removes a space put before it.
pub proof fn lemma_trim_trimmed(s: Seq<char>)
    requires
        trimmed_text(s),
    ensures
        trim(s) == s,
        trim(seq![' '] + s) == s,
{
    assert(trim_start(s) == s);
    assert(trim_end(s) == s);
    let t = seq![' '] + s;
    assert(t.drop_first() =~= s);
    assert(is_ws(t[0]));
    assert(trim_start(t) == trim_start(s));
}

/// Splitting text without the separator gives the text alone.
pub proof fn lemma_split_without_sep(b: Seq<char>, sep: char)
    requires
        !b.contains(sep),
    ensures
        split_on(b, sep) == seq![b],
    decreases b.len(),
{
    if b.len() > 0 {
        assert(!b.drop_last().contains(sep)) by {
            if b.drop_last().contains(sep) {
                let i = choose|i: int| 0 <= i < b.drop_last().len() && b.drop_last()[i] == sep;
                assert(b[i] == sep);
            }
        }
        lemma_split_without_sep(b.drop_last(), sep);
        assert(b.last() != sep) by {
            assert(b[b.len() - 1] == b.last());
        }
        assert(b.drop_last().push(b.last()) =~= b);
        assert(seq![b.drop_last()].update(0, b.drop_last().push(b.last())) =~= seq![b]);
    } else {
        assert(b =~= Seq::<char>::empty());
    }
}

/// Text, a separator, then text without one: the split gains that text as
/// its last piece.
pub proof fn lemma_split_after_sep(a: Seq<char>, b: Seq<char>, sep: char)
    requires
        !b.contains(sep),
    ensures
        split_on(a.push(sep) + b, sep) == split_on(a, sep).push(b),
    decreases b.len(),
{
    let s = a.push(sep) + b;
    if b.len() == 0 {
        assert(s =~= a.push(sep));
        assert(s.drop_last() =~= a);
        assert(s.last() == sep);
        assert(b =~= Seq::<char>::empty());
        assert(split_on(s, sep) == split_on(s.drop_last(), sep).push(Seq::<char>::empty()));
    } else {
        assert(!b.drop_last().contains(sep)) by {
            if b.drop_last().contains(sep) {
                let i = choose|i: int| 0 <= i < b.drop_last().len() && b.drop_last()[i] == sep;
                assert(b[i] == sep);
            }
        }
        lemma_split_after_sep(a, b.drop_last(), sep);
        assert(s.drop_last() =~= a.push(sep) + b.drop_last());
        assert(s.last() == b.last());
        assert(b.last() != sep) by {
            assert(b[b.len() - 1] == b.last());
        }
        lemma_split_nonempty(a, sep);
        let prev = split_on(a, sep).push(b.drop_last());
        assert(split_on(s.drop_last(), sep) == prev);
        assert(prev.update(prev.len() - 1, prev.last().push(b.last())) =~= split_on(a, sep).push(b)) by {
            assert(b.drop_last().push(b.last()) =~= b);
        }
        assert(split_on(s, sep) == prev.update(prev.len() - 1, prev.last().push(s.last())));
    }
}

/// Joining plain items with `", "` and reading the text back as a comma
/// separated list gives the items back.
pub proof fn lemma_list_items_join(ts: Seq<Seq<char>>)
    requires
        forall|i: int| 0 <= i < ts.len() ==> plain_item(#[trigger] ts[i]),
    ensures
        list_items(join(ts, ", "@), ',') == ts,
    decreases ts.len(),
{
    reveal_strlit(", ");
    let keep = |p: Seq<char>| p.len() > 0;
    let tr = |p: Seq<char>| trim(p);
    if ts.len() == 0 {
        assert(split_on(Seq::<char>::empty(), ',') == seq![Seq::<char>::empty()]);
        let m = seq![Seq::<char>::empty()].map_values(tr);
        assert(m =~= seq![Seq::<char>::empty()]) by {
            assert(trim(Seq::<char>::empty()) =~= Seq::<char>::empty());
        }
        assert(m.filter(keep) =~= Seq::<Seq<char>>::empty()) by {
            Seq::<Seq<char>>::empty().lemma_filter_push(Seq::<char>::empty(), keep);
            assert(Seq::<Seq<char>>::empty().push(Seq::<char>::empty()) =~= m);
            assert(Seq::<Seq<char>>::empty().filter(keep) =~= Seq::<Seq<char>>::empty());
        }
    } else if ts.len() == 1 {
        assert(join(ts, ", "@) == ts[0]);
        assert(plain_item(ts[0]));
        lemma_split_without_sep(ts[0], ',');
        lemma_trim_trimmed(ts[0]);
        let m = seq![ts[0]].map_values(tr);
        assert(m =~= seq![ts[0]]);
        Seq::<Seq<char>>::empty().lemma_filter_push(ts[0], keep);
        assert(Seq::<Seq<char>>::empty().push(ts[0]) =~= m);
        assert(Seq::<Seq<char>>::empty().filter(keep) =~= Seq::<Seq<char>>::empty());
        assert(m.filter(keep) =~= ts);
    } else {
        let dl = ts.drop_last();
        let last = ts.last();
        assert forall|i: int| 0 <= i < dl.len() implies plain_item(#[trigger] dl[i]) by {
            assert(dl[i] == ts[i]);
        }
        lemma_list_items_join(dl);
        assert(plain_item(last)) by {
            assert(ts[ts.len() - 1] == last);
        }
        let b = seq![' '] + last;
        assert(!b.contains(',')) by {
            if b.contains(',') {
                let i = choose|i: int| 0 <= i < b.len() && b[i] == ',';
                if i > 0 {
                    assert(last[i - 1] == ',');
                }
            }
        }
        assert(join(ts, ", "@) =~= join(dl, ", "@).push(',') + b);
        lemma_split_after_sep(join(dl, ", "@), b, ',');
        let prev = split_on(join(dl, ", "@), ',');
        lemma_trim_trimmed(last);
        assert(prev.push(b).map_values(tr) =~= prev.map_values(tr).push(last));
        prev.map_values(tr).lemma_filter_push(last, keep);
    }
}

} // verus!
