//! Keybindings resolved from configuration strings into key codes.

use vstd::prelude::*;

use crate::config::KeybindingsConfig;
use crate::keys::{KeyCode, KeyEvent};
use crate::num::{parse_unsigned, parse_unsigned_chars};
use crate::text::{ascii_lower, chars_of, seq_eq, to_ascii_lower};

verus! {

/// A resolved key binding that may require the `Ctrl` modifier.
#[derive(Debug, Clone, Copy, PartialEq, Eq, Structural)]
pub struct KeyBind {
    pub code: KeyCode,
    /// If true, `Ctrl` must be held for this binding to match.
    pub ctrl: bool,
}

impl KeyBind {
    /// Whether `key` triggers this binding: same key code, and `Ctrl` held
    /// exactly when the binding asks for it.
    pub fn matches(&self, key: KeyEvent) -> (res: bool)
        ensures
            res == (key.code == self.code && key.modifiers.control == self.ctrl),
    {
        let ctrl = key.modifiers.control;
        key.code == self.code && ctrl == self.ctrl
    }
}

/// Keybindings resolved from [`KeybindingsConfig`].
#[derive(Debug, Clone, Copy, PartialEq, Eq, Structural)]
pub struct ParsedKeybindings {
    /// Key that exits the application (default: `q`).
    pub quit: KeyCode,
    /// Key that activates search (default: `/`).
    pub search: KeyCode,
    /// Key that switches to the Dashboard screen (default: `F1`).
    pub dashboard: KeyCode,
    /// Key that switches to the File Manager screen (default: `F2`).
    pub file_manager: KeyCode,
    /// Key that switches to the Snippets screen (default: `F3`).
    pub snippets: KeyCode,
    /// Key that cycles to the next screen / switches panels (default: `Tab`).
    pub next_screen: KeyBind,
    /// Key that cycles terminal tabs / split panes (default: `Tab`).
    pub next_tab: KeyBind,
}

/// The key code a configuration string names, if any:
/// named keys, `F<n>` / `f<n>` with `n` a `u8`, or a single character
/// (a lone `F` or `f` included).
pub open spec fn keycode_of(s: Seq<char>) -> Option<KeyCode> {
    if s == "Enter"@ {
        Some(KeyCode::Enter)
    } else if s == "Esc"@ || s == "Escape"@ {
        Some(KeyCode::Esc)
    } else if s == "Tab"@ {
        Some(KeyCode::Tab)
    } else if s == "Backtab"@ || s == "BackTab"@ || s == "ShiftTab"@ {
        Some(KeyCode::BackTab)
    } else if s == "Backspace"@ || s == "BS"@ {
        Some(KeyCode::Backspace)
    } else if s == "Delete"@ || s == "Del"@ {
        Some(KeyCode::Delete)
    } else if s == "Up"@ {
        Some(KeyCode::Up)
    } else if s == "Down"@ {
        Some(KeyCode::Down)
    } else if s == "Left"@ {
        Some(KeyCode::Left)
    } else if s == "Right"@ {
        Some(KeyCode::Right)
    } else if s == "Home"@ {
        Some(KeyCode::Home)
    } else if s == "End"@ {
        Some(KeyCode::End)
    } else if s == "PageUp"@ {
        Some(KeyCode::PageUp)
    } else if s == "PageDown"@ {
        Some(KeyCode::PageDown)
    } else if s.len() > 1 && (s[0] == 'F' || s[0] == 'f') {
        match parse_unsigned(s.skip(1), 255) {
            Some(n) => Some(KeyCode::F(n as u8)),
            None => None,
        }
    } else if s.len() == 1 {
        Some(KeyCode::Char(s[0]))
    } else {
        None
    }
}

/// The binding a configuration string names, if any: `Ctrl+`, `ctrl+` or
/// `CTRL+` followed by one character (lower-cased) or a key name, or a plain
/// key name without modifier.
pub open spec fn keybind_of(s: Seq<char>) -> Option<KeyBind> {
    if s.len() >= 5 && (s.take(5) == "Ctrl+"@ || s.take(5) == "ctrl+"@ || s.take(5) == "CTRL+"@) {
        let rest = s.skip(5);
        if rest.len() == 1 {
            Some(KeyBind { code: KeyCode::Char(ascii_lower(rest[0])), ctrl: true })
        } else {
            match keycode_of(rest) {
                Some(code) => Some(KeyBind { code, ctrl: true }),
                None => None,
            }
        }
    } else {
        match keycode_of(s) {
            Some(code) => Some(KeyBind { code, ctrl: false }),
            None => None,
        }
    }
}

/// Whether `s` spells the literal `lit`.
fn is_word(s: &[char], lit: &str) -> (res: bool)
    ensures
        res == (s@ == lit@),
{
    let l = chars_of(lit);
    seq_eq(s, &l)
}

fn keycode_of_chars(s: &[char]) -> (res: Option<KeyCode>)
    ensures
        res == keycode_of(s@),
{
    if is_word(s, "Enter") {
        Some(KeyCode::Enter)
    } else if is_word(s, "Esc") || is_word(s, "Escape") {
        Some(KeyCode::Esc)
    } else if is_word(s, "Tab") {
        Some(KeyCode::Tab)
    } else if is_word(s, "Backtab") || is_word(s, "BackTab") || is_word(s, "ShiftTab") {
        Some(KeyCode::BackTab)
    } else if is_word(s, "Backspace") || is_word(s, "BS") {
        Some(KeyCode::Backspace)
    } else if is_word(s, "Delete") || is_word(s, "Del") {
        Some(KeyCode::Delete)
    } else if is_word(s, "Up") {
        Some(KeyCode::Up)
    } else if is_word(s, "Down") {
        Some(KeyCode::Down)
    } else if is_word(s, "Left") {
        Some(KeyCode::Left)
    } else if is_word(s, "Right") {
        Some(KeyCode::Right)
    } else if is_word(s, "Home") {
        Some(KeyCode::Home)
    } else if is_word(s, "End") {
        Some(KeyCode::End)
    } else if is_word(s, "PageUp") {
        Some(KeyCode::PageUp)
    } else if is_word(s, "PageDown") {
        Some(KeyCode::PageDown)
    } else if s.len() > 1 && (s[0] == 'F' || s[0] == 'f') {
        let mut digits: Vec<char> = Vec::new();
        let mut i: usize = 1;
        while i < s.len()
            invariant
                1 <= i <= s.len(),
                digits@ == s@.subrange(1, i as int),
            decreases s.len() - i,
        {
            digits.push(s[i]);
            assert(s@.subrange(1, i as int).push(s@[i as int]) =~= s@.subrange(1, i + 1));
            i = i + 1;
        }
        assert(digits@ =~= s@.skip(1));
        match parse_unsigned_chars(&digits, 255) {
            Some(n) => Some(KeyCode::F(n as u8)),
            None => None,
        }
    } else if s.len() == 1 {
        Some(KeyCode::Char(s[0]))
    } else {
        None
    }
}

/// Parses a key name string (from the configuration) into a [`KeyCode`].
///
/// Supported: a single character; `Enter`; `Esc`/`Escape`; `Tab`;
/// `Backtab`/`BackTab`/`ShiftTab`; `Backspace`/`BS`; `Delete`/`Del`;
/// `Up`/`Down`/`Left`/`Right`; `Home`/`End`; `PageUp`/`PageDown`;
/// `F<n>`. Returns `None` for anything else.
pub fn parse_keycode(s: &str) -> (res: Option<KeyCode>)
    ensures
        res == keycode_of(s@),
{
    let cs = chars_of(s);
    keycode_of_chars(&cs)
}

/// Parses a key binding string: `Ctrl+<key>` (the character lower-cased)
/// or a plain key name.
pub fn parse_keybind(s: &str) -> (res: Option<KeyBind>)
    ensures
        res == keybind_of(s@),
{
    let cs = chars_of(s);
    if cs.len() >= 5 {
        let prefix: Vec<char> = vec![cs[0], cs[1], cs[2], cs[3], cs[4]];
        assert(prefix@ =~= cs@.take(5));
        if is_word(&prefix, "Ctrl+") || is_word(&prefix, "ctrl+") || is_word(&prefix, "CTRL+") {
            let mut rest: Vec<char> = Vec::new();
            let mut i: usize = 5;
            while i < cs.len()
                invariant
                    5 <= i <= cs.len(),
                    rest@ == cs@.subrange(5, i as int),
                decreases cs.len() - i,
            {
                rest.push(cs[i]);
                assert(cs@.subrange(5, i as int).push(cs@[i as int]) =~= cs@.subrange(5, i + 1));
                i = i + 1;
            }
            assert(rest@ =~= cs@.skip(5));
            if rest.len() == 1 {
                return Some(KeyBind { code: KeyCode::Char(to_ascii_lower(rest[0])), ctrl: true });
            }
            return match keycode_of_chars(&rest) {
                Some(code) => Some(KeyBind { code, ctrl: true }),
                None => None,
            };
        }
    }
    match keycode_of_chars(&cs) {
        Some(code) => Some(KeyBind { code, ctrl: false }),
        None => None,
    }
}

/// The characters of the key names that `keycode_of` compares against.
proof fn lemma_key_names()
    ensures
        "Enter"@ == seq!['E', 'n', 't', 'e', 'r'],
        "Esc"@ == seq!['E', 's', 'c'],
        "Escape"@ == seq!['E', 's', 'c', 'a', 'p', 'e'],
        "Tab"@ == seq!['T', 'a', 'b'],
        "Backtab"@ == seq!['B', 'a', 'c', 'k', 't', 'a', 'b'],
        "BackTab"@ == seq!['B', 'a', 'c', 'k', 'T', 'a', 'b'],
        "ShiftTab"@ == seq!['S', 'h', 'i', 'f', 't', 'T', 'a', 'b'],
        "Backspace"@ == seq!['B', 'a', 'c', 'k', 's', 'p', 'a', 'c', 'e'],
        "BS"@ == seq!['B', 'S'],
        "Delete"@ == seq!['D', 'e', 'l', 'e', 't', 'e'],
        "Del"@ == seq!['D', 'e', 'l'],
        "Up"@ == seq!['U', 'p'],
        "Down"@ == seq!['D', 'o', 'w', 'n'],
        "Left"@ == seq!['L', 'e', 'f', 't'],
        "Right"@ == seq!['R', 'i', 'g', 'h', 't'],
        "Home"@ == seq!['H', 'o', 'm', 'e'],
        "End"@ == seq!['E', 'n', 'd'],
        "PageUp"@ == seq!['P', 'a', 'g', 'e', 'U', 'p'],
        "PageDown"@ == seq!['P', 'a', 'g', 'e', 'D', 'o', 'w', 'n'],
{
    reveal_strlit("Enter");
    assert("Enter"@ =~= seq!['E', 'n', 't', 'e', 'r']);
    reveal_strlit("Esc");
    assert("Esc"@ =~= seq!['E', 's', 'c']);
    reveal_strlit("Escape");
    assert("Escape"@ =~= seq!['E', 's', 'c', 'a', 'p', 'e']);
    reveal_strlit("Tab");
    assert("Tab"@ =~= seq!['T', 'a', 'b']);
    reveal_strlit("Backtab");
    assert("Backtab"@ =~= seq!['B', 'a', 'c', 'k', 't', 'a', 'b']);
    reveal_strlit("BackTab");
    assert("BackTab"@ =~= seq!['B', 'a', 'c', 'k', 'T', 'a', 'b']);
    reveal_strlit("ShiftTab");
    assert("ShiftTab"@ =~= seq!['S', 'h', 'i', 'f', 't', 'T', 'a', 'b']);
    reveal_strlit("Backspace");
    assert("Backspace"@ =~= seq!['B', 'a', 'c', 'k', 's', 'p', 'a', 'c', 'e']);
    reveal_strlit("BS");
    assert("BS"@ =~= seq!['B', 'S']);
    reveal_strlit("Delete");
    assert("Delete"@ =~= seq!['D', 'e', 'l', 'e', 't', 'e']);
    reveal_strlit("Del");
    assert("Del"@ =~= seq!['D', 'e', 'l']);
    reveal_strlit("Up");
    assert("Up"@ =~= seq!['U', 'p']);
    reveal_strlit("Down");
    assert("Down"@ =~= seq!['D', 'o', 'w', 'n']);
    reveal_strlit("Left");
    assert("Left"@ =~= seq!['L', 'e', 'f', 't']);
    reveal_strlit("Right");
    assert("Right"@ =~= seq!['R', 'i', 'g', 'h', 't']);
    reveal_strlit("Home");
    assert("Home"@ =~= seq!['H', 'o', 'm', 'e']);
    reveal_strlit("End");
    assert("End"@ =~= seq!['E', 'n', 'd']);
    reveal_strlit("PageUp");
    assert("PageUp"@ =~= seq!['P', 'a', 'g', 'e', 'U', 'p']);
    reveal_strlit("PageDown");
    assert("PageDown"@ =~= seq!['P', 'a', 'g', 'e', 'D', 'o', 'w', 'n']);
}

/// A single decimal digit is worth its digit value.
proof fn lemma_one_digit(c: char)
    requires
        '0' <= c <= '9',
    ensures
        crate::num::digits_value(seq![c]) == (c as u32) - ('0' as u32),
        crate::num::all_digits(seq![c]),
{
    assert(seq![c].drop_last() =~= Seq::<char>::empty());
    assert(seq![c].last() == c);
    assert(crate::num::digits_value(Seq::<char>::empty()) == 0);
}

/// `F<d>` for a single digit `d` names the function key `d`.
proof fn lemma_function_key(s: Seq<char>, d: char)
    requires
        s == seq!['F', d],
        '0' <= d <= '9',
    ensures
        keycode_of(s) == Some(KeyCode::F(((d as u32) - ('0' as u32)) as u8)),
{
    lemma_key_names();
    assert(s.skip(1) =~= seq![d]);
    lemma_one_digit(d);
}

/// A single-character name names that character.
proof fn lemma_char_key(s: Seq<char>, c: char)
    requires
        s == seq![c],
    ensures
        keycode_of(s) == Some(KeyCode::Char(c)),
{
    lemma_key_names();
}

/// Each key name of the configuration format parses to the key it names:
/// `Enter`; `Esc` or `Escape`; `Tab`; `Backtab`, `BackTab` or `ShiftTab`;
/// `Backspace` or `BS`; `Delete` or `Del`; the four arrows; `Home`; `End`;
/// `PageUp`; `PageDown`.
pub proof fn law_named_keys()
    ensures
        keycode_of(seq!['E', 'n', 't', 'e', 'r']) == Some(KeyCode::Enter),
        keycode_of(seq!['E', 's', 'c']) == Some(KeyCode::Esc),
        keycode_of(seq!['E', 's', 'c', 'a', 'p', 'e']) == Some(KeyCode::Esc),
        keycode_of(seq!['T', 'a', 'b']) == Some(KeyCode::Tab),
        keycode_of(seq!['B', 'a', 'c', 'k', 't', 'a', 'b']) == Some(KeyCode::BackTab),
        keycode_of(seq!['B', 'a', 'c', 'k', 'T', 'a', 'b']) == Some(KeyCode::BackTab),
        keycode_of(seq!['S', 'h', 'i', 'f', 't', 'T', 'a', 'b']) == Some(KeyCode::BackTab),
        keycode_of(seq!['B', 'a', 'c', 'k', 's', 'p', 'a', 'c', 'e']) == Some(KeyCode::Backspace),
        keycode_of(seq!['B', 'S']) == Some(KeyCode::Backspace),
        keycode_of(seq!['D', 'e', 'l', 'e', 't', 'e']) == Some(KeyCode::Delete),
        keycode_of(seq!['D', 'e', 'l']) == Some(KeyCode::Delete),
        keycode_of(seq!['U', 'p']) == Some(KeyCode::Up),
        keycode_of(seq!['D', 'o', 'w', 'n']) == Some(KeyCode::Down),
        keycode_of(seq!['L', 'e', 'f', 't']) == Some(KeyCode::Left),
        keycode_of(seq!['R', 'i', 'g', 'h', 't']) == Some(KeyCode::Right),
        keycode_of(seq!['H', 'o', 'm', 'e']) == Some(KeyCode::Home),
        keycode_of(seq!['E', 'n', 'd']) == Some(KeyCode::End),
        keycode_of(seq!['P', 'a', 'g', 'e', 'U', 'p']) == Some(KeyCode::PageUp),
        keycode_of(seq!['P', 'a', 'g', 'e', 'D', 'o', 'w', 'n']) == Some(KeyCode::PageDown),
{
    lemma_key_names();
}

/// A one-character name is that character's key, and `F` or `f` followed
/// by one digit is that function key.
pub proof fn law_character_and_function_key_names(c: char, d: char)
    ensures
        keycode_of(seq![c]) == Some(KeyCode::Char(c)),
        '0' <= d <= '9' ==> keycode_of(seq!['F', d]) == Some(KeyCode::F(((d as u32) - ('0' as u32)) as u8)),
        '0' <= d <= '9' ==> keycode_of(seq!['f', d]) == Some(KeyCode::F(((d as u32) - ('0' as u32)) as u8)),
{
    lemma_char_key(seq![c], c);
    if '0' <= d <= '9' {
        lemma_function_key(seq!['F', d], d);
        lemma_key_names();
        assert(seq!['f', d].skip(1) =~= seq![d]);
        lemma_one_digit(d);
    }
}

/// `F` followed by two digits is the function key of that number (`F12`
/// is F12).
pub proof fn law_two_digit_function_keys(d1: char, d2: char)
    requires
        '0' <= d1 <= '9',
        '0' <= d2 <= '9',
    ensures
        keycode_of(seq!['F', d1, d2]) == Some(
            KeyCode::F((((d1 as u32) - ('0' as u32)) * 10 + ((d2 as u32) - ('0' as u32))) as u8),
        ),
{
    lemma_key_names();
    let d = seq!['F', d1, d2].skip(1);
    assert(d =~= seq![d1, d2]);
    assert(d.drop_last() =~= seq![d1]);
    lemma_one_digit(d1);
    assert(crate::num::all_digits(d)) by {
        assert forall|i: int| 0 <= i < d.len() implies crate::num::is_digit(#[trigger] d[i]) by {
            if i == 0 {
                assert(d[i] == d1);
            } else {
                assert(d[i] == d2);
            }
        }
    }
    assert(crate::num::unsigned_digits(d) == d);
}

/// A name of two or more characters that is none of the key names and does
/// not start with `F` or `f` names no key.
pub proof fn law_unknown_names(s: Seq<char>)
    requires
        s.len() > 1,
        s[0] != 'F' && s[0] != 'f',
        s != seq!['E', 'n', 't', 'e', 'r'],
        s != seq!['E', 's', 'c'],
        s != seq!['E', 's', 'c', 'a', 'p', 'e'],
        s != seq!['T', 'a', 'b'],
        s != seq!['B', 'a', 'c', 'k', 't', 'a', 'b'],
        s != seq!['B', 'a', 'c', 'k', 'T', 'a', 'b'],
        s != seq!['S', 'h', 'i', 'f', 't', 'T', 'a', 'b'],
        s != seq!['B', 'a', 'c', 'k', 's', 'p', 'a', 'c', 'e'],
        s != seq!['B', 'S'],
        s != seq!['D', 'e', 'l', 'e', 't', 'e'],
        s != seq!['D', 'e', 'l'],
        s != seq!['U', 'p'],
        s != seq!['D', 'o', 'w', 'n'],
        s != seq!['L', 'e', 'f', 't'],
        s != seq!['R', 'i', 'g', 'h', 't'],
        s != seq!['H', 'o', 'm', 'e'],
        s != seq!['E', 'n', 'd'],
        s != seq!['P', 'a', 'g', 'e', 'U', 'p'],
        s != seq!['P', 'a', 'g', 'e', 'D', 'o', 'w', 'n'],
    ensures
        keycode_of(s) is None,
{
    lemma_key_names();
}

/// `Ctrl+`, `ctrl+` or `CTRL+` before one character binds that character
/// with `Ctrl` held, an ASCII capital lower-cased; before a key name, that
/// key with `Ctrl` held. A one-character name without the prefix binds the
/// character as written, without `Ctrl`.
pub proof fn law_keybind_forms(c: char, name: Seq<char>)
    ensures
        ({
            let lower = if 'A' <= c && c <= 'Z' {
                ((c as u32) + 32) as char
            } else {
                c
            };
            &&& keybind_of(seq!['C', 't', 'r', 'l', '+', c]) == Some(KeyBind { code: KeyCode::Char(lower), ctrl: true })
            &&& keybind_of(seq!['c', 't', 'r', 'l', '+', c]) == Some(KeyBind { code: KeyCode::Char(lower), ctrl: true })
            &&& keybind_of(seq!['C', 'T', 'R', 'L', '+', c]) == Some(KeyBind { code: KeyCode::Char(lower), ctrl: true })
        }),
        keybind_of(seq![c]) == Some(KeyBind { code: KeyCode::Char(c), ctrl: false }),
        name.len() > 1 && keycode_of(name) is Some ==> keybind_of(seq!['C', 't', 'r', 'l', '+'] + name) == Some(
            KeyBind { code: keycode_of(name)->0, ctrl: true },
        ),
{
    reveal_strlit("Ctrl+");
    reveal_strlit("ctrl+");
    reveal_strlit("CTRL+");
    let p1 = seq!['C', 't', 'r', 'l', '+', c];
    let p2 = seq!['c', 't', 'r', 'l', '+', c];
    let p3 = seq!['C', 'T', 'R', 'L', '+', c];
    assert(p1.take(5) =~= "Ctrl+"@);
    assert(p1.skip(5) =~= seq![c]);
    assert(p2.take(5) =~= "ctrl+"@);
    assert(p2.skip(5) =~= seq![c]);
    assert(p3.take(5) =~= "CTRL+"@);
    assert(p3.skip(5) =~= seq![c]);
    assert(seq![c].len() < 5);
    lemma_char_key(seq![c], c);
    let q = seq!['C', 't', 'r', 'l', '+'] + name;
    assert(q.take(5) =~= "Ctrl+"@);
    assert(q.skip(5) =~= name);
}

/// The default key names all resolve.
pub proof fn lemma_default_names_parse()
    ensures
        keycode_of("q"@) == Some(KeyCode::Char('q')),
        keycode_of("/"@) == Some(KeyCode::Char('/')),
        keycode_of("F1"@) == Some(KeyCode::F(1)),
        keycode_of("F2"@) == Some(KeyCode::F(2)),
        keycode_of("F3"@) == Some(KeyCode::F(3)),
        keybind_of("Tab"@) == Some(KeyBind { code: KeyCode::Tab, ctrl: false }),
{
    reveal_strlit("q");
    reveal_strlit("/");
    reveal_strlit("F1");
    reveal_strlit("F2");
    reveal_strlit("F3");
    reveal_strlit("Tab");
    assert("q"@ =~= seq!['q']);
    assert("/"@ =~= seq!['/']);
    assert("F1"@ =~= seq!['F', '1']);
    assert("F2"@ =~= seq!['F', '2']);
    assert("F3"@ =~= seq!['F', '3']);
    lemma_char_key("q"@, 'q');
    lemma_char_key("/"@, '/');
    lemma_function_key("F1"@, '1');
    lemma_function_key("F2"@, '2');
    lemma_function_key("F3"@, '3');
    lemma_key_names();
    assert(keycode_of("Tab"@) == Some(KeyCode::Tab));
}

impl ParsedKeybindings {
    /// Resolves every configured key name; a name that does not parse falls
    /// back to the default binding, so a misconfiguration never leaves the
    /// application without a key.
    pub fn from_config(cfg: &KeybindingsConfig) -> (res: Self)
        ensures
            res.quit == keycode_of(cfg.quit@).unwrap_or(KeyCode::Char('q')),
            res.search == keycode_of(cfg.search@).unwrap_or(KeyCode::Char('/')),
            res.dashboard == keycode_of(cfg.dashboard@).unwrap_or(KeyCode::F(1)),
            res.file_manager == keycode_of(cfg.file_manager@).unwrap_or(KeyCode::F(2)),
            res.snippets == keycode_of(cfg.snippets@).unwrap_or(KeyCode::F(3)),
            res.next_screen == keybind_of(cfg.next_screen@).unwrap_or(
                KeyBind { code: KeyCode::Tab, ctrl: false },
            ),
            res.next_tab == keybind_of(cfg.next_tab@).unwrap_or(
                KeyBind { code: KeyCode::Tab, ctrl: false },
            ),
    {
        proof {
            lemma_default_names_parse();
        }
        let defaults = KeybindingsConfig::default();
        let quit = match parse_keycode(&cfg.quit) {
            Some(k) => k,
            None => parse_keycode(&defaults.quit).expect("default quit"),
        };
        let search = match parse_keycode(&cfg.search) {
            Some(k) => k,
            None => parse_keycode(&defaults.search).expect("default search"),
        };
        let dashboard = match parse_keycode(&cfg.dashboard) {
            Some(k) => k,
            None => parse_keycode(&defaults.dashboard).expect("default dashboard"),
        };
        let file_manager = match parse_keycode(&cfg.file_manager) {
            Some(k) => k,
            None => parse_keycode(&defaults.file_manager).expect("default file_manager"),
        };
        let snippets = match parse_keycode(&cfg.snippets) {
            Some(k) => k,
            None => parse_keycode(&defaults.snippets).expect("default snippets"),
        };
        let next_screen = match parse_keybind(&cfg.next_screen) {
            Some(k) => k,
            None => parse_keybind(&defaults.next_screen).expect("default next_screen"),
        };
        let next_tab = match parse_keybind(&cfg.next_tab) {
            Some(k) => k,
            None => parse_keybind(&defaults.next_tab).expect("default next_tab"),
        };
        ParsedKeybindings { quit, search, dashboard, file_manager, snippets, next_screen, next_tab }
    }
}

impl Default for ParsedKeybindings {
    fn default() -> (res: Self)
        ensures
            res.quit == KeyCode::Char('q'),
            res.search == KeyCode::Char('/'),
            res.dashboard == KeyCode::F(1),
            res.file_manager == KeyCode::F(2),
            res.snippets == KeyCode::F(3),
            res.next_screen == (KeyBind { code: KeyCode::Tab, ctrl: false }),
            res.next_tab == (KeyBind { code: KeyCode::Tab, ctrl: false }),
    {
        proof {
            lemma_default_names_parse();
        }
        Self::from_config(&KeybindingsConfig::default())
    }
}

} // verus!
