//! Translation of key events into the bytes a remote shell expects on its
//! standard input.

use vstd::prelude::*;
use vstd::utf8::encode_scalar;

use crate::keys::{KeyCode, KeyEvent};
use crate::text::encode_char;

verus! {

/// The control byte for `Ctrl` + `c`: letters give 0x01..=0x1A, `[ \ ] ^ _`
/// give 0x1B..=0x1F, `@` gives NUL, anything else its low byte.
pub open spec fn ctrl_byte(c: char) -> u8 {
    if 'a' <= c && c <= 'z' {
        ((c as u32) - ('a' as u32) + 1) as u8
    } else if 'A' <= c && c <= 'Z' {
        ((c as u32) - ('A' as u32) + 1) as u8
    } else if c == '[' {
        0x1b
    } else if c == '\\' {
        0x1c
    } else if c == ']' {
        0x1d
    } else if c == '^' {
        0x1e
    } else if c == '_' {
        0x1f
    } else if c == '@' {
        0x00
    } else {
        c as u8
    }
}

/// The xterm / VT220 sequence of function key `n` (F1..=F12), empty otherwise.
pub open spec fn function_key_bytes(n: u8) -> Seq<u8> {
    if n == 1 {
        seq![0x1bu8, 0x4f, 0x50]
    } else if n == 2 {
        seq![0x1bu8, 0x4f, 0x51]
    } else if n == 3 {
        seq![0x1bu8, 0x4f, 0x52]
    } else if n == 4 {
        seq![0x1bu8, 0x4f, 0x53]
    } else if n == 5 {
        seq![0x1bu8, 0x5b, 0x31, 0x35, 0x7e]
    } else if n == 6 {
        seq![0x1bu8, 0x5b, 0x31, 0x37, 0x7e]
    } else if n == 7 {
        seq![0x1bu8, 0x5b, 0x31, 0x38, 0x7e]
    } else if n == 8 {
        seq![0x1bu8, 0x5b, 0x31, 0x39, 0x7e]
    } else if n == 9 {
        seq![0x1bu8, 0x5b, 0x32, 0x30, 0x7e]
    } else if n == 10 {
        seq![0x1bu8, 0x5b, 0x32, 0x31, 0x7e]
    } else if n == 11 {
        seq![0x1bu8, 0x5b, 0x32, 0x33, 0x7e]
    } else if n == 12 {
        seq![0x1bu8, 0x5b, 0x32, 0x34, 0x7e]
    } else {
        Seq::empty()
    }
}

/// The bytes written to the shell for `key`; empty when the key has no
/// byte representation.
pub open spec fn key_bytes(key: KeyEvent) -> Seq<u8> {
    match key.code {
        KeyCode::Char(c) => if key.modifiers.control {
            seq![ctrl_byte(c)]
        } else if key.modifiers.alt {
            seq![0x1bu8] + encode_scalar(c as u32)
        } else {
            encode_scalar(c as u32)
        },
        KeyCode::Enter => seq![0x0du8],
        KeyCode::Backspace => seq![0x7fu8],
        KeyCode::Tab => if key.modifiers.shift {
            seq![0x1bu8, 0x5b, 0x5a]
        } else {
            seq![0x09u8]
        },
        KeyCode::Esc => seq![0x1bu8],
        KeyCode::Up => seq![0x1bu8, 0x5b, 0x41],
        KeyCode::Down => seq![0x1bu8, 0x5b, 0x42],
        KeyCode::Right => seq![0x1bu8, 0x5b, 0x43],
        KeyCode::Left => seq![0x1bu8, 0x5b, 0x44],
        KeyCode::Home => seq![0x1bu8, 0x5b, 0x48],
        KeyCode::End => seq![0x1bu8, 0x5b, 0x46],
        KeyCode::Insert => seq![0x1bu8, 0x5b, 0x32, 0x7e],
        KeyCode::Delete => seq![0x1bu8, 0x5b, 0x33, 0x7e],
        KeyCode::PageUp => seq![0x1bu8, 0x5b, 0x35, 0x7e],
        KeyCode::PageDown => seq![0x1bu8, 0x5b, 0x36, 0x7e],
        KeyCode::F(n) => function_key_bytes(n),
        _ => Seq::empty(),
    }
}

fn ctrl_byte_of(c: char) -> (res: u8)
    ensures
        res == ctrl_byte(c),
{
    if 'a' <= c && c <= 'z' {
        ((c as u32) - ('a' as u32) + 1) as u8
    } else if 'A' <= c && c <= 'Z' {
        ((c as u32) - ('A' as u32) + 1) as u8
    } else if c == '[' {
        0x1b
    } else if c == '\\' {
        0x1c
    } else if c == ']' {
        0x1d
    } else if c == '^' {
        0x1e
    } else if c == '_' {
        0x1f
    } else if c == '@' {
        0x00
    } else {
        c as u8
    }
}

fn function_key_vec(n: u8) -> (res: Vec<u8>)
    ensures
        res@ == function_key_bytes(n),
{
    let v: Vec<u8> = if n == 1 {
        vec![0x1b, 0x4f, 0x50]
    } else if n == 2 {
        vec![0x1b, 0x4f, 0x51]
    } else if n == 3 {
        vec![0x1b, 0x4f, 0x52]
    } else if n == 4 {
        vec![0x1b, 0x4f, 0x53]
    } else if n == 5 {
        vec![0x1b, 0x5b, 0x31, 0x35, 0x7e]
    } else if n == 6 {
        vec![0x1b, 0x5b, 0x31, 0x37, 0x7e]
    } else if n == 7 {
        vec![0x1b, 0x5b, 0x31, 0x38, 0x7e]
    } else if n == 8 {
        vec![0x1b, 0x5b, 0x31, 0x39, 0x7e]
    } else if n == 9 {
        vec![0x1b, 0x5b, 0x32, 0x30, 0x7e]
    } else if n == 10 {
        vec![0x1b, 0x5b, 0x32, 0x31, 0x7e]
    } else if n == 11 {
        vec![0x1b, 0x5b, 0x32, 0x33, 0x7e]
    } else if n == 12 {
        vec![0x1b, 0x5b, 0x32, 0x34, 0x7e]
    } else {
        Vec::new()
    };
    assert(v@ =~= function_key_bytes(n));
    v
}

/// Converts a key event to the raw byte sequence for the remote shell.
///
/// `Ctrl`+character gives the control byte, `Alt`+character gives ESC and
/// the character's UTF-8 bytes, a plain character its UTF-8 bytes; special
/// keys give their VT100/xterm sequences. Keys without a representation give
/// an empty vector, which callers skip.
pub fn key_to_bytes(key: KeyEvent) -> (res: Vec<u8>)
    ensures
        res@ == key_bytes(key),
{
    let v: Vec<u8> = match key.code {
        KeyCode::Char(c) => {
            if key.modifiers.control {
                vec![ctrl_byte_of(c)]
            } else if key.modifiers.alt {
                let enc = encode_char(c);
                let mut bytes: Vec<u8> = vec![0x1b];
                let mut i: usize = 0;
                while i < enc.len()
                    invariant
                        i <= enc.len(),
                        bytes@ == seq![0x1bu8] + enc@.take(i as int),
                    decreases enc.len() - i,
                {
                    bytes.push(enc[i]);
                    assert(enc@.take(i as int).push(enc@[i as int]) =~= enc@.take(i + 1));
                    i = i + 1;
                }
                assert(enc@.take(enc.len() as int) =~= enc@);
                bytes
            } else {
                encode_char(c)
            }
        },
        KeyCode::Enter => vec![0x0d],
        KeyCode::Backspace => vec![0x7f],
        KeyCode::Tab => {
            if key.modifiers.shift {
                vec![0x1b, 0x5b, 0x5a]
            } else {
                vec![0x09]
            }
        },
        KeyCode::Esc => vec![0x1b],
        KeyCode::Up => vec![0x1b, 0x5b, 0x41],
        KeyCode::Down => vec![0x1b, 0x5b, 0x42],
        KeyCode::Right => vec![0x1b, 0x5b, 0x43],
        KeyCode::Left => vec![0x1b, 0x5b, 0x44],
        KeyCode::Home => vec![0x1b, 0x5b, 0x48],
        KeyCode::End => vec![0x1b, 0x5b, 0x46],
        KeyCode::Insert => vec![0x1b, 0x5b, 0x32, 0x7e],
        KeyCode::Delete => vec![0x1b, 0x5b, 0x33, 0x7e],
        KeyCode::PageUp => vec![0x1b, 0x5b, 0x35, 0x7e],
        KeyCode::PageDown => vec![0x1b, 0x5b, 0x36, 0x7e],
        KeyCode::F(n) => function_key_vec(n),
        _ => Vec::new(),
    };
    assert(v@ =~= key_bytes(key));
    v
}

/// An xterm control sequence: ESC `[` and then the ASCII characters `tail`.
pub open spec fn csi(tail: Seq<char>) -> Seq<u8> {
    seq![0x1bu8, '[' as u8] + tail.map_values(|c: char| c as u8)
}

/// An xterm SS3 sequence: ESC `O` and the ASCII character `c`.
pub open spec fn ss3(c: char) -> Seq<u8> {
    seq![0x1bu8, 'O' as u8, c as u8]
}

/// The cursor, editing and paging keys send the xterm sequences of their
/// name, whatever modifiers are held: the arrows ESC `[` then `A` up, `B`
/// down, `C` right (forward), `D` left (back); Home ESC `[H`, End ESC `[F`;
/// Insert, Delete, Page Up and Page Down ESC `[` with 2, 3, 5 and 6 and `~`;
/// Shift+Tab ESC `[Z`.
pub proof fn law_special_keys_send_xterm_sequences(key: KeyEvent)
    ensures
        key.code == KeyCode::Up ==> key_bytes(key) == csi(seq!['A']),
        key.code == KeyCode::Down ==> key_bytes(key) == csi(seq!['B']),
        key.code == KeyCode::Right ==> key_bytes(key) == csi(seq!['C']),
        key.code == KeyCode::Left ==> key_bytes(key) == csi(seq!['D']),
        key.code == KeyCode::Home ==> key_bytes(key) == csi(seq!['H']),
        key.code == KeyCode::End ==> key_bytes(key) == csi(seq!['F']),
        key.code == KeyCode::Insert ==> key_bytes(key) == csi(seq!['2', '~']),
        key.code == KeyCode::Delete ==> key_bytes(key) == csi(seq!['3', '~']),
        key.code == KeyCode::PageUp ==> key_bytes(key) == csi(seq!['5', '~']),
        key.code == KeyCode::PageDown ==> key_bytes(key) == csi(seq!['6', '~']),
        key.code == KeyCode::Tab && key.modifiers.shift ==> key_bytes(key) == csi(seq!['Z']),
{
    assert(csi(seq!['A']) =~= seq![0x1bu8, 0x5b, 0x41]);
    assert(csi(seq!['B']) =~= seq![0x1bu8, 0x5b, 0x42]);
    assert(csi(seq!['C']) =~= seq![0x1bu8, 0x5b, 0x43]);
    assert(csi(seq!['D']) =~= seq![0x1bu8, 0x5b, 0x44]);
    assert(csi(seq!['H']) =~= seq![0x1bu8, 0x5b, 0x48]);
    assert(csi(seq!['F']) =~= seq![0x1bu8, 0x5b, 0x46]);
    assert(csi(seq!['2', '~']) =~= seq![0x1bu8, 0x5b, 0x32, 0x7e]);
    assert(csi(seq!['3', '~']) =~= seq![0x1bu8, 0x5b, 0x33, 0x7e]);
    assert(csi(seq!['5', '~']) =~= seq![0x1bu8, 0x5b, 0x35, 0x7e]);
    assert(csi(seq!['6', '~']) =~= seq![0x1bu8, 0x5b, 0x36, 0x7e]);
    assert(csi(seq!['Z']) =~= seq![0x1bu8, 0x5b, 0x5a]);
}

/// Function keys send the xterm / VT220 sequences: F1 to F4 ESC `O` then
/// `P` to `S`; F5 to F12 ESC `[`, the numbers 15, 17, 18, 19, 20, 21, 23 and
/// 24, and `~`; other numbers send nothing.
pub proof fn law_function_keys_send_xterm_sequences(key: KeyEvent, n: u8)
    requires
        key.code == KeyCode::F(n),
    ensures
        n == 1 ==> key_bytes(key) == ss3('P'),
        n == 2 ==> key_bytes(key) == ss3('Q'),
        n == 3 ==> key_bytes(key) == ss3('R'),
        n == 4 ==> key_bytes(key) == ss3('S'),
        n == 5 ==> key_bytes(key) == csi(seq!['1', '5', '~']),
        n == 6 ==> key_bytes(key) == csi(seq!['1', '7', '~']),
        n == 7 ==> key_bytes(key) == csi(seq!['1', '8', '~']),
        n == 8 ==> key_bytes(key) == csi(seq!['1', '9', '~']),
        n == 9 ==> key_bytes(key) == csi(seq!['2', '0', '~']),
        n == 10 ==> key_bytes(key) == csi(seq!['2', '1', '~']),
        n == 11 ==> key_bytes(key) == csi(seq!['2', '3', '~']),
        n == 12 ==> key_bytes(key) == csi(seq!['2', '4', '~']),
        n == 0 || n > 12 ==> key_bytes(key).len() == 0,
{
    assert(csi(seq!['1', '5', '~']) =~= seq![0x1bu8, 0x5b, 0x31, 0x35, 0x7e]);
    assert(csi(seq!['1', '7', '~']) =~= seq![0x1bu8, 0x5b, 0x31, 0x37, 0x7e]);
    assert(csi(seq!['1', '8', '~']) =~= seq![0x1bu8, 0x5b, 0x31, 0x38, 0x7e]);
    assert(csi(seq!['1', '9', '~']) =~= seq![0x1bu8, 0x5b, 0x31, 0x39, 0x7e]);
    assert(csi(seq!['2', '0', '~']) =~= seq![0x1bu8, 0x5b, 0x32, 0x30, 0x7e]);
    assert(csi(seq!['2', '1', '~']) =~= seq![0x1bu8, 0x5b, 0x32, 0x31, 0x7e]);
    assert(csi(seq!['2', '3', '~']) =~= seq![0x1bu8, 0x5b, 0x32, 0x33, 0x7e]);
    assert(csi(seq!['2', '4', '~']) =~= seq![0x1bu8, 0x5b, 0x32, 0x34, 0x7e]);
}

/// Enter sends a carriage return, Backspace DEL (0x7F), Tab a tab and Esc
/// a lone ESC.
pub proof fn law_editing_keys(key: KeyEvent)
    ensures
        key.code == KeyCode::Enter ==> key_bytes(key) == seq!['\r' as u8],
        key.code == KeyCode::Backspace ==> key_bytes(key) == seq![0x7fu8],
        key.code == KeyCode::Tab && !key.modifiers.shift ==> key_bytes(key) == seq!['\t' as u8],
        key.code == KeyCode::Esc ==> key_bytes(key) == seq![0x1bu8],
{
}

/// `Ctrl` with a letter of either case sends its position in the alphabet
/// (1 for `a`, 26 for `z`), and with `@ [ \ ] ^ _` the bytes 0x00 and
/// 0x1B to 0x1F; otherwise `Alt` with a character sends ESC
/// before the character's UTF-8 bytes, and a plain character its UTF-8
/// bytes.
pub proof fn law_character_keys(key: KeyEvent, c: char)
    requires
        key.code == KeyCode::Char(c),
    ensures
        key.modifiers.control && 'a' <= c && c <= 'z' ==> key_bytes(key) == seq![((c as u32) - 96) as u8],
        key.modifiers.control && 'A' <= c && c <= 'Z' ==> key_bytes(key) == seq![((c as u32) - 64) as u8],
        key.modifiers.control && c == '@' ==> key_bytes(key) == seq![0x00u8],
        key.modifiers.control && c == '[' ==> key_bytes(key) == seq![0x1bu8],
        key.modifiers.control && c == '\\' ==> key_bytes(key) == seq![0x1cu8],
        key.modifiers.control && c == ']' ==> key_bytes(key) == seq![0x1du8],
        key.modifiers.control && c == '^' ==> key_bytes(key) == seq![0x1eu8],
        key.modifiers.control && c == '_' ==> key_bytes(key) == seq![0x1fu8],
        !key.modifiers.control && key.modifiers.alt ==> key_bytes(key) == seq![0x1bu8] + encode_scalar(c as u32),
        !key.modifiers.control && !key.modifiers.alt ==> key_bytes(key) == encode_scalar(c as u32),
{
}

/// `Ctrl` with a letter of either case always yields the letter's position
/// in the alphabet (1 for `a`, 26 for `z`), as a single byte.
pub proof fn lemma_ctrl_letter(key: KeyEvent, c: char)
    requires
        key.code == KeyCode::Char(c),
        key.modifiers.control,
        ('a' <= c && c <= 'z') || ('A' <= c && c <= 'Z'),
    ensures
        key_bytes(key).len() == 1,
        1 <= key_bytes(key)[0] <= 26,
{
}

} // verus!
