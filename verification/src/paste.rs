//! Clipboard pastes for the embedded terminal: the byte payload sent to a
//! remote shell, and the key events a paste stands for in other widgets.

use vstd::prelude::*;
use vstd::utf8::{encode_scalar, encode_utf8, has_width_1_encoding};

use crate::keys::{KeyCode, KeyEvent, KeyModifiers};
use crate::snippets::lemma_replace_absent;
use crate::text::{chars_of, contains_seq, occurs_at, push_utf8, replace_all, replace_chars};

verus! {

/// Bracketed-paste start marker `ESC [ 2 0 0 ~`.
pub open spec fn paste_start() -> Seq<char> {
    seq!['\x1b', '[', '2', '0', '0', '~']
}

/// Bracketed-paste end marker `ESC [ 2 0 1 ~`.
pub open spec fn paste_end() -> Seq<char> {
    seq!['\x1b', '[', '2', '0', '1', '~']
}

/// One pass that removes every start marker and then every end marker.
pub open spec fn strip_once(s: Seq<char>) -> Seq<char> {
    replace_all(replace_all(s, paste_start(), Seq::empty()), paste_end(), Seq::empty())
}

/// `s` with marker-removing passes repeated until one removes nothing, so
/// that no marker is left (a pass can join the halves of a marker).
pub open spec fn strip_markers(s: Seq<char>) -> Seq<char>
    decreases s.len(),
{
    if strip_once(s).len() < s.len() {
        strip_markers(strip_once(s))
    } else {
        s
    }
}

/// The pasted text as sent inside the markers: CRLF and then bare LF become
/// CR, then bracketed-paste markers are removed until none is left.
pub open spec fn paste_payload(text: Seq<char>) -> Seq<char> {
    let crlf = replace_all(text, seq!['\r', '\n'], seq!['\r']);
    let cr = replace_all(crlf, seq!['\n'], seq!['\r']);
    strip_markers(cr)
}

/// The bytes sent to the shell for a paste of `text`.
pub open spec fn paste_bytes(text: Seq<char>, bracketed: bool) -> Seq<u8> {
    if bracketed {
        encode_utf8(paste_start()) + encode_utf8(paste_payload(text)) + encode_utf8(paste_end())
    } else {
        encode_utf8(paste_payload(text))
    }
}

fn start_marker() -> (res: Vec<char>)
    ensures
        res@ == paste_start(),
{
    let v = vec!['\x1b', '[', '2', '0', '0', '~'];
    assert(v@ =~= paste_start());
    v
}

fn end_marker() -> (res: Vec<char>)
    ensures
        res@ == paste_end(),
{
    let v = vec!['\x1b', '[', '2', '0', '1', '~'];
    assert(v@ =~= paste_end());
    v
}

/// Prepares clipboard text for delivery to the PTY.
///
/// Newlines are normalised to CR (a PTY's Enter), embedded bracketed-paste
/// markers are stripped until none is left (so the pasted text cannot close
/// the bracket early), and the payload is wrapped in `ESC[200~` /
/// `ESC[201~` when `bracketed` is set.
pub fn encode_paste(text: &str, bracketed: bool) -> (res: Vec<u8>)
    ensures
        res@ == paste_bytes(text@, bracketed),
{
    let t = chars_of(text);
    let crlf = vec!['\r', '\n'];
    let cr = vec!['\r'];
    let lf = vec!['\n'];
    let empty: Vec<char> = Vec::new();
    let start = start_marker();
    let end = end_marker();
    assert(crlf@ =~= seq!['\r', '\n']);
    assert(cr@ =~= seq!['\r']);
    assert(lf@ =~= seq!['\n']);
    assert(empty@ =~= Seq::<char>::empty());
    let a = replace_chars(&t, &crlf, &cr);
    let b = replace_chars(&a, &lf, &cr);
    let mut safe = b;
    let mut done = false;
    while !done
        invariant
            strip_markers(safe@) == strip_markers(b@),
            done ==> strip_markers(safe@) == safe@,
            start@ == paste_start(),
            end@ == paste_end(),
            empty@ == Seq::<char>::empty(),
        decreases safe@.len() * 2 + if done {
            0int
        } else {
            1int
        },
    {
        let c = replace_chars(&safe, &start, &empty);
        let next = replace_chars(&c, &end, &empty);
        if next.len() < safe.len() {
            safe = next;
        } else {
            done = true;
        }
    }
    let mut out: Vec<u8> = Vec::new();
    if bracketed {
        push_utf8(&mut out, &start);
    }
    push_utf8(&mut out, &safe);
    if bracketed {
        push_utf8(&mut out, &end);
    }
    assert(out@ =~= paste_bytes(text@, bracketed));
    out
}

/// The keys a typed `text` produces: CR, LF and CRLF each give one Enter,
/// tab gives Tab, every other character its own key.
pub open spec fn paste_codes(s: Seq<char>) -> Seq<KeyCode>
    decreases s.len(),
{
    if s.len() == 0 {
        Seq::empty()
    } else if s[0] == '\r' {
        if s.len() > 1 && s[1] == '\n' {
            seq![KeyCode::Enter] + paste_codes(s.skip(2))
        } else {
            seq![KeyCode::Enter] + paste_codes(s.skip(1))
        }
    } else if s[0] == '\n' {
        seq![KeyCode::Enter] + paste_codes(s.skip(1))
    } else if s[0] == '\t' {
        seq![KeyCode::Tab] + paste_codes(s.skip(1))
    } else {
        seq![KeyCode::Char(s[0])] + paste_codes(s.skip(1))
    }
}

/// Splits clipboard text into the key presses (without modifiers) it would
/// have produced if typed.
pub fn paste_to_keys(text: &str) -> (res: Vec<KeyEvent>)
    ensures
        res@.map_values(|k: KeyEvent| k.code) == paste_codes(text@),
        forall|i: int|
            0 <= i < res@.len() ==> (#[trigger] res@[i]).modifiers == KeyModifiers::spec_none()
                && res@[i].kind == crate::keys::KeyEventKind::Press,
{
    let s = chars_of(text);
    let mut keys: Vec<KeyEvent> = Vec::new();
    let mut i: usize = 0;
    assert(s@.skip(0) =~= s@);
    while i < s.len()
        invariant
            i <= s.len(),
            s@ == text@,
            keys@.map_values(|k: KeyEvent| k.code) + paste_codes(s@.skip(i as int)) == paste_codes(
                text@,
            ),
            forall|j: int|
                0 <= j < keys@.len() ==> (#[trigger] keys@[j]).modifiers
                    == KeyModifiers::spec_none() && keys@[j].kind
                    == crate::keys::KeyEventKind::Press,
        decreases s.len() - i,
    {
        let ghost rest = s@.skip(i as int);
        let c = s[i];
        assert(rest[0] == c);
        let mut step: usize = 1;
        let code = if c == '\r' {
            if i + 1 < s.len() && s[i + 1] == '\n' {
                assert(rest[1] == s@[i + 1]);
                step = 2;
            }
            KeyCode::Enter
        } else if c == '\n' {
            KeyCode::Enter
        } else if c == '\t' {
            KeyCode::Tab
        } else {
            KeyCode::Char(c)
        };
        assert(rest.skip(step as int) =~= s@.skip(i + step));
        let ghost before = keys@.map_values(|k: KeyEvent| k.code);
        keys.push(KeyEvent::new(code, KeyModifiers::none()));
        assert(keys@.map_values(|k: KeyEvent| k.code) =~= before.push(code));
        assert(before.push(code) + paste_codes(s@.skip(i + step)) =~= before + (seq![code]
            + paste_codes(rest.skip(step as int))));
        i = i + step;
    }
    assert(s@.skip(s.len() as int) =~= Seq::<char>::empty());
    assert(keys@.map_values(|k: KeyEvent| k.code) + Seq::<KeyCode>::empty() =~= keys@.map_values(
        |k: KeyEvent| k.code,
    ));
    keys
}


/// Every character of `replace_all(s, pat, rep)` comes from `s` or `rep`.
pub proof fn lemma_replace_chars_from(s: Seq<char>, pat: Seq<char>, rep: Seq<char>, c: char)
    requires
        replace_all(s, pat, rep).contains(c),
    ensures
        s.contains(c) || rep.contains(c),
    decreases s.len(),
{
    if pat.len() == 0 || s.len() == 0 {
    } else if pat.len() <= s.len() && s.take(pat.len() as int) =~= pat {
        let rest = replace_all(s.skip(pat.len() as int), pat, rep);
        let k = choose|k: int| 0 <= k < (rep + rest).len() && (rep + rest)[k] == c;
        if k < rep.len() {
            assert(rep[k] == c);
        } else {
            assert(rest[k - rep.len()] == c);
            lemma_replace_chars_from(s.skip(pat.len() as int), pat, rep, c);
            if s.skip(pat.len() as int).contains(c) {
                let j = choose|j: int| 0 <= j < s.skip(pat.len() as int).len() && s.skip(pat.len() as int)[j] == c;
                assert(s[j + pat.len()] == c);
            }
        }
    } else {
        let rest = replace_all(s.skip(1), pat, rep);
        let k = choose|k: int| 0 <= k < (seq![s[0]] + rest).len() && (seq![s[0]] + rest)[k] == c;
        if k == 0 {
            assert(s[0] == c);
        } else {
            assert(rest[k - 1] == c);
            lemma_replace_chars_from(s.skip(1), pat, rep, c);
            if s.skip(1).contains(c) {
                let j = choose|j: int| 0 <= j < s.skip(1).len() && s.skip(1)[j] == c;
                assert(s[j + 1] == c);
            }
        }
    }
}

/// Replacing every line feed by a carriage return leaves no line feed.
pub proof fn lemma_replace_lf(s: Seq<char>)
    ensures
        !replace_all(s, seq!['\n'], seq!['\r']).contains('\n'),
    decreases s.len(),
{
    if s.len() > 0 {
        let pat = seq!['\n'];
        if pat.len() <= s.len() && s.take(1) =~= pat {
            lemma_replace_lf(s.skip(1));
            let r = seq!['\r'] + replace_all(s.skip(1), pat, seq!['\r']);
            assert forall|k: int| 0 <= k < r.len() implies r[k] != '\n' by {
                if k > 0 {
                    assert(r[k] == replace_all(s.skip(1), pat, seq!['\r'])[k - 1]);
                }
            }
        } else {
            lemma_replace_lf(s.skip(1));
            assert(s[0] != '\n') by {
                if s[0] == '\n' {
                    assert(s.take(1) =~= pat);
                }
            }
            let r = seq![s[0]] + replace_all(s.skip(1), pat, seq!['\r']);
            assert forall|k: int| 0 <= k < r.len() implies r[k] != '\n' by {
                if k > 0 {
                    assert(r[k] == replace_all(s.skip(1), pat, seq!['\r'])[k - 1]);
                }
            }
        }
    }
}

/// Removing a non-empty pattern never lengthens the text, and leaves its
/// length unchanged only when the pattern does not occur.
pub proof fn lemma_remove_shortens(s: Seq<char>, pat: Seq<char>)
    requires
        pat.len() > 0,
    ensures
        replace_all(s, pat, Seq::empty()).len() <= s.len(),
        replace_all(s, pat, Seq::empty()).len() == s.len() ==> !contains_seq(s, pat),
    decreases s.len(),
{
    if s.len() > 0 {
        let t = s.skip(1);
        if pat.len() <= s.len() && s.take(pat.len() as int) =~= pat {
            lemma_remove_shortens(s.skip(pat.len() as int), pat);
            assert(Seq::<char>::empty() + replace_all(s.skip(pat.len() as int), pat, Seq::empty())
                =~= replace_all(s.skip(pat.len() as int), pat, Seq::empty()));
        } else {
            lemma_remove_shortens(t, pat);
            if replace_all(s, pat, Seq::empty()).len() == s.len() {
                assert(!contains_seq(s, pat)) by {
                    if contains_seq(s, pat) {
                        let i = choose|i: int| occurs_at(s, pat, i);
                        if i == 0 {
                            assert(s.take(pat.len() as int) =~= s.subrange(0, pat.len() as int));
                        } else {
                            assert(t.subrange(i - 1, i - 1 + pat.len()) =~= s.subrange(i, i + pat.len()));
                            assert(occurs_at(t, pat, i - 1));
                        }
                    }
                }
            }
        }
    }
}

/// A text with no escape character holds no marker.
proof fn lemma_no_escape_no_marker(s: Seq<char>, m: Seq<char>)
    requires
        !s.contains('\x1b'),
        m.len() > 0,
        m[0] == '\x1b',
    ensures
        !contains_seq(s, m),
{
    if contains_seq(s, m) {
        let i = choose|i: int| occurs_at(s, m, i);
        assert(s.subrange(i, i + m.len())[0] == s[i]);
    }
}

/// After repeated removal, neither marker occurs.
pub proof fn lemma_strip_markers_clean(s: Seq<char>)
    ensures
        !contains_seq(strip_markers(s), paste_start()),
        !contains_seq(strip_markers(s), paste_end()),
    decreases s.len(),
{
    let a = replace_all(s, paste_start(), Seq::empty());
    lemma_remove_shortens(s, paste_start());
    lemma_remove_shortens(a, paste_end());
    if strip_once(s).len() < s.len() {
        lemma_strip_markers_clean(strip_once(s));
    } else {
        assert(a.len() == s.len());
        assert(a =~= s) by {
            lemma_replace_absent(s, paste_start(), Seq::empty());
        }
    }
}

/// Repeated removal introduces no character.
proof fn lemma_strip_markers_chars(s: Seq<char>, c: char)
    requires
        !s.contains(c),
    ensures
        !strip_markers(s).contains(c),
    decreases s.len(),
{
    let a = replace_all(s, paste_start(), Seq::empty());
    if a.contains(c) {
        lemma_replace_chars_from(s, paste_start(), Seq::empty(), c);
    }
    if strip_once(s).contains(c) {
        lemma_replace_chars_from(a, paste_end(), Seq::empty(), c);
    }
    if strip_once(s).len() < s.len() {
        lemma_strip_markers_chars(strip_once(s), c);
    }
}

/// Text without escape characters has no marker to remove.
proof fn lemma_strip_markers_plain(s: Seq<char>)
    requires
        !s.contains('\x1b'),
    ensures
        strip_markers(s) == s,
{
    lemma_no_escape_no_marker(s, paste_start());
    lemma_no_escape_no_marker(s, paste_end());
    lemma_replace_absent(s, paste_start(), Seq::empty());
    lemma_replace_absent(s, paste_end(), Seq::empty());
}

/// Pasted content cannot break out of the bracket: the payload holds no
/// start marker and no end marker, so in a bracketed paste the only end
/// marker is the final one.
pub proof fn lemma_payload_has_no_marker(text: Seq<char>)
    ensures
        !contains_seq(paste_payload(text), paste_start()),
        !contains_seq(paste_payload(text), paste_end()),
{
    let crlf = replace_all(text, seq!['\r', '\n'], seq!['\r']);
    lemma_strip_markers_clean(replace_all(crlf, seq!['\n'], seq!['\r']));
}

/// Newlines are normalised: the payload of a paste never holds a line feed.
pub proof fn lemma_payload_has_no_line_feed(text: Seq<char>)
    ensures
        !paste_payload(text).contains('\n'),
{
    let crlf = replace_all(text, seq!['\r', '\n'], seq!['\r']);
    lemma_replace_lf(crlf);
    lemma_strip_markers_chars(replace_all(crlf, seq!['\n'], seq!['\r']), '\n');
}

/// The UTF-8 bytes of any character other than a line feed hold no 0x0A.
proof fn lemma_scalar_no_line_feed(c: char)
    requires
        c != '\n',
    ensures
        !encode_scalar(c as u32).contains(10u8),
{
    let v = c as u32;
    let e = encode_scalar(v);
    if has_width_1_encoding(v) {
        assert(v != 10u32);
        assert(v <= 0x7f && v != 10u32 ==> (v & 0x7f) as u8 != 10u8) by (bit_vector);
        assert(e[0] != 10u8);
    } else {
        assert(((0xC0u8 | ((v >> 6) & 0x1F) as u8) != 10u8)) by (bit_vector);
        assert(((0xE0u8 | ((v >> 12) & 0x0F) as u8) != 10u8)) by (bit_vector);
        assert(((0xF0u8 | ((v >> 18) & 0x7) as u8) != 10u8)) by (bit_vector);
        assert(((0x80u8 | (v & 0x3F) as u8) != 10u8)) by (bit_vector);
        assert(((0x80u8 | ((v >> 6) & 0x3F) as u8) != 10u8)) by (bit_vector);
        assert(((0x80u8 | ((v >> 12) & 0x3F) as u8) != 10u8)) by (bit_vector);
        assert forall|k: int| 0 <= k < e.len() implies e[k] != 10u8 by {}
    }
}

/// Text without a line feed encodes to bytes without 0x0A.
proof fn lemma_utf8_no_line_feed(s: Seq<char>)
    requires
        !s.contains('\n'),
    ensures
        !encode_utf8(s).contains(10u8),
    decreases s.len(),
{
    if s.len() > 0 {
        assert(s[0] != '\n') by {
            assert(s.contains(s[0]));
        }
        assert(!s.drop_first().contains('\n')) by {
            if s.drop_first().contains('\n') {
                let k = choose|k: int| 0 <= k < s.drop_first().len() && s.drop_first()[k] == '\n';
                assert(s[k + 1] == '\n');
            }
        }
        lemma_scalar_no_line_feed(s[0]);
        lemma_utf8_no_line_feed(s.drop_first());
        let a = encode_scalar(s[0] as u32);
        let b = encode_utf8(s.drop_first());
        assert(encode_utf8(s) == a + b);
        assert forall|k: int| 0 <= k < (a + b).len() implies (a + b)[k] != 10u8 by {
            if k < a.len() {
                assert(a.contains(a[k]));
            } else {
                assert(b.contains(b[k - a.len()]));
            }
        }
    }
}

/// The bytes of a paste payload hold no line feed (0x0A).
pub proof fn lemma_payload_bytes_have_no_line_feed(text: Seq<char>)
    ensures
        !paste_bytes(text, false).contains(10u8),
{
    lemma_payload_has_no_line_feed(text);
    lemma_utf8_no_line_feed(paste_payload(text));
}

/// Text without line feeds and escape characters passes unchanged: its
/// payload is the text itself, and an unbracketed paste sends its UTF-8
/// bytes.
pub proof fn lemma_plain_text_unchanged(text: Seq<char>)
    requires
        !text.contains('\n'),
        !text.contains('\x1b'),
    ensures
        paste_payload(text) == text,
        paste_bytes(text, false) == encode_utf8(text),
{
    assert(!contains_seq(text, seq!['\r', '\n'])) by {
        if contains_seq(text, seq!['\r', '\n']) {
            let i = choose|i: int| occurs_at(text, seq!['\r', '\n'], i);
            assert(text.subrange(i, i + 2)[1] == text[i + 1]);
            assert(text.contains(text[i + 1]));
        }
    }
    assert(!contains_seq(text, seq!['\n'])) by {
        if contains_seq(text, seq!['\n']) {
            let i = choose|i: int| occurs_at(text, seq!['\n'], i);
            assert(text.subrange(i, i + 1)[0] == text[i]);
            assert(text.contains(text[i]));
        }
    }
    lemma_replace_absent(text, seq!['\r', '\n'], seq!['\r']);
    lemma_replace_absent(text, seq!['\n'], seq!['\r']);
    lemma_strip_markers_plain(text);
}

} // verus!
