//! Mouse-wheel handling for the embedded terminal: on the normal screen a
//! wheel notch scrolls the local scrollback; on the alternate screen it is
//! forwarded to the foreground application, as mouse-wheel reports when the
//! application asked for mouse reporting, else as cursor-key presses.

use vstd::prelude::*;
use vt100::Screen as VtScreen;

verus! {

/// Resolved effect of a single mouse-wheel notch.
#[derive(Debug, Clone, PartialEq, Eq)]
pub enum ScrollAction {
    /// Scroll the local scrollback by this signed line delta
    /// (positive = towards older output).
    Scrollback(i16),
    /// Forward these bytes to the PTY (alternate screen is active).
    Forward(Vec<u8>),
}

/// The xterm mouse reporting mode requested by the foreground application.
#[derive(Debug, Clone, Copy, PartialEq, Eq, Structural)]
pub enum MouseMode {
    Disabled,
    Press,
    PressRelease,
    ButtonMotion,
    AnyMotion,
}

/// The encoding requested for mouse reports.
#[derive(Debug, Clone, Copy, PartialEq, Eq, Structural)]
pub enum MouseEncoding {
    Default,
    Utf8,
    Sgr,
}

/// The terminal modes of the foreground application that decide where a
/// wheel notch goes.
#[derive(Debug, Clone, Copy, PartialEq, Eq, Structural)]
pub struct ScreenModes {
    pub alternate_screen: bool,
    pub application_cursor: bool,
    pub mouse_mode: MouseMode,
    pub mouse_encoding: MouseEncoding,
}

/// `ESC [ A` / `ESC [ B`, or `ESC O A` / `ESC O B` in application-cursor mode.
pub open spec fn arrow_bytes(up: bool, application_cursor: bool) -> Seq<u8> {
    seq![0x1bu8, if application_cursor { 0x4fu8 } else { 0x5bu8 }, if up { 0x41u8 } else { 0x42u8 }]
}

/// `s` repeated `n` times.
pub open spec fn repeat(s: Seq<u8>, n: nat) -> Seq<u8>
    decreases n,
{
    if n == 0 {
        Seq::empty()
    } else {
        repeat(s, (n - 1) as nat) + s
    }
}

/// A wheel report at cell (1, 1): button 64 (up) or 65 (down), in SGR form
/// `ESC [ < b ; 1 ; 1 M`, else in X10 form `ESC [ M` with each value + 32.
pub open spec fn wheel_bytes(up: bool, encoding: MouseEncoding) -> Seq<u8> {
    if encoding == MouseEncoding::Sgr {
        seq![0x1bu8, 0x5b, 0x3c, 0x36, if up { 0x34u8 } else { 0x35u8 }, 0x3b, 0x31, 0x3b, 0x31, 0x4d]
    } else {
        seq![0x1bu8, 0x5b, 0x4d, if up { 96u8 } else { 97u8 }, 33, 33]
    }
}

/// Magnitude of a wheel delta (`i16::unsigned_abs`).
pub open spec fn magnitude(delta: i16) -> nat {
    if delta < 0 {
        (-delta) as nat
    } else {
        delta as nat
    }
}

/// What a wheel `delta` (positive = up) sends to the application on a
/// screen in `modes`; `None` when it scrolls the local scrollback instead.
pub open spec fn forwarded_bytes(delta: i16, modes: ScreenModes) -> Option<Seq<u8>> {
    if delta == 0 || !modes.alternate_screen {
        None
    } else if modes.mouse_mode == MouseMode::Disabled {
        Some(repeat(arrow_bytes(delta > 0, modes.application_cursor), magnitude(delta)))
    } else {
        Some(wheel_bytes(delta > 0, modes.mouse_encoding))
    }
}

/// `res` is the action for `delta` on a screen in `modes`.
pub open spec fn is_scroll_action(res: ScrollAction, delta: i16, modes: ScreenModes) -> bool {
    match res {
        ScrollAction::Scrollback(d) => d == delta && forwarded_bytes(delta, modes) is None,
        ScrollAction::Forward(b) => forwarded_bytes(delta, modes) == Some(b@),
    }
}

/// On the normal screen, or for no movement, the wheel scrolls the local
/// scrollback. On the alternate screen without mouse reporting each notch up
/// sends cursor-up (ESC `[A`, or ESC `OA` in application-cursor mode) and
/// each notch down cursor-down (`B`), once per notch. With mouse reporting
/// one wheel report at cell (1, 1) is sent: button 64 up and 65 down, as
/// SGR `ESC [ < 64 ; 1 ; 1 M` or else as `ESC [ M` with each value plus 32.
pub proof fn law_wheel_forwarding(delta: i16, modes: ScreenModes)
    ensures
        delta == 0 || !modes.alternate_screen ==> forwarded_bytes(delta, modes) is None,
        delta != 0 && modes.alternate_screen && modes.mouse_mode == MouseMode::Disabled ==> forwarded_bytes(
            delta,
            modes,
        ) == Some(
            repeat(
                seq![
                    0x1bu8,
                    if modes.application_cursor { 'O' as u8 } else { '[' as u8 },
                    if delta > 0 { 'A' as u8 } else { 'B' as u8 },
                ],
                if delta < 0 { (0 - delta) as nat } else { delta as nat },
            ),
        ),
        delta != 0 && modes.alternate_screen && modes.mouse_mode != MouseMode::Disabled && modes.mouse_encoding
            == MouseEncoding::Sgr ==> forwarded_bytes(delta, modes) == Some(
            seq![
                0x1bu8,
                '[' as u8,
                '<' as u8,
                '6' as u8,
                if delta > 0 { '4' as u8 } else { '5' as u8 },
                ';' as u8,
                '1' as u8,
                ';' as u8,
                '1' as u8,
                'M' as u8,
            ],
        ),
        delta != 0 && modes.alternate_screen && modes.mouse_mode != MouseMode::Disabled && modes.mouse_encoding
            != MouseEncoding::Sgr ==> forwarded_bytes(delta, modes) == Some(
            seq![0x1bu8, '[' as u8, 'M' as u8, if delta > 0 { (64 + 32) as u8 } else { (65 + 32) as u8 }, (1 + 32) as u8, (1 + 32) as u8],
        ),
{
}

/// `n` repetitions of a sequence are `n` times as long, and each copy
/// stands at its place.
pub proof fn law_repeat(s: Seq<u8>, n: nat)
    ensures
        repeat(s, n).len() == n * s.len(),
        forall|k: int, j: int| 0 <= k < n && 0 <= j < s.len() ==> #[trigger] repeat(s, n)[k * s.len() + j] == s[j],
    decreases n,
{
    if n == 0 {
        assert(repeat(s, n).len() == 0);
    } else {
        law_repeat(s, (n - 1) as nat);
        let r = repeat(s, (n - 1) as nat);
        assert(repeat(s, n) == r + s);
        let m = (n - 1) as nat;
        assert(r.len() == m * s.len());
        assert(m * s.len() + s.len() == n * s.len()) by (nonlinear_arith)
            requires
                m == n - 1,
        ;
        assert(repeat(s, n).len() == n * s.len());
        assert forall|k: int, j: int| 0 <= k < n && 0 <= j < s.len() implies #[trigger] repeat(s, n)[k * s.len() + j]
            == s[j] by {
            if k < n - 1 {
                assert(k * s.len() + j < (n - 1) * s.len()) by (nonlinear_arith)
                    requires
                        0 <= k < n - 1,
                        0 <= j < s.len(),
                ;
                assert(repeat(s, n)[k * s.len() + j] == r[k * s.len() + j]);
            } else {
                assert(k * s.len() == (n - 1) * s.len());
            }
        }
    }
}

/// Repeats a cursor up/down sequence `count` times (at least once), using the
/// application-cursor form when DECCKM is active.
pub fn arrow_key_seq(up: bool, count: usize, application_cursor: bool) -> (res: Vec<u8>)
    ensures
        res@ == repeat(arrow_bytes(up, application_cursor), if count == 0 { 1 } else { count as nat }),
{
    let n: usize = if count == 0 { 1 } else { count };
    let mid: u8 = if application_cursor { 0x4f } else { 0x5b };
    let last: u8 = if up { 0x41 } else { 0x42 };
    let ghost unit = arrow_bytes(up, application_cursor);
    let mut out: Vec<u8> = Vec::new();
    let mut i: usize = 0;
    while i < n
        invariant
            i <= n,
            unit == arrow_bytes(up, application_cursor),
            unit == seq![0x1bu8, mid, last],
            out@ == repeat(unit, i as nat),
        decreases n - i,
    {
        out.push(0x1b);
        out.push(mid);
        out.push(last);
        assert(out@ =~= repeat(unit, i as nat) + unit);
        i = i + 1;
    }
    out
}

/// Builds a mouse-wheel report at cell (1, 1) for an application that
/// enabled mouse reporting.
pub fn wheel_mouse_seq(up: bool, encoding: MouseEncoding) -> (res: Vec<u8>)
    ensures
        res@ == wheel_bytes(up, encoding),
{
    let v: Vec<u8> = match encoding {
        MouseEncoding::Sgr => vec![0x1b, 0x5b, 0x3c, 0x36, if up { 0x34 } else { 0x35 }, 0x3b, 0x31, 0x3b, 0x31, 0x4d],
        _ => vec![0x1b, 0x5b, 0x4d, if up { 96 } else { 97 }, 33, 33],
    };
    assert(v@ =~= wheel_bytes(up, encoding));
    v
}

/// Decides what a wheel `delta` does given the foreground application's
/// modes. `delta` is positive for wheel-up; its magnitude is the number of
/// lines per notch.
pub fn resolve_scroll_modes(delta: i16, modes: ScreenModes) -> (res: ScrollAction)
    ensures
        is_scroll_action(res, delta, modes),
{
    if delta == 0 || !modes.alternate_screen {
        return ScrollAction::Scrollback(delta);
    }
    let up = delta > 0;
    if modes.mouse_mode == MouseMode::Disabled {
        let count: u16 = if delta < 0 { (0i32 - delta as i32) as u16 } else { delta as u16 };
        ScrollAction::Forward(arrow_key_seq(up, count as usize, modes.application_cursor))
    } else {
        ScrollAction::Forward(wheel_mouse_seq(up, modes.mouse_encoding))
    }
}

/// The terminal screen state kept by the `vt100` parser.
#[verifier::external_type_specification]
#[verifier::external_body]
pub struct ExVtScreen(VtScreen);

/// `vt100::Screen::alternate_screen`: whether the alternate buffer is shown.
/// The screen is opaque here, so the contract says nothing of the result.
#[verifier::external_body]
fn screen_alternate(screen: &VtScreen) -> bool {
    screen.alternate_screen()
}

/// `vt100::Screen::application_cursor`: whether application-cursor mode is
/// on. The screen is opaque here, so the contract says nothing of the result.
#[verifier::external_body]
fn screen_application_cursor(screen: &VtScreen) -> bool {
    screen.application_cursor()
}

/// `vt100::Screen::mouse_protocol_mode`, variant for variant. The screen is
/// opaque here, so the contract says nothing of the result.
#[verifier::external_body]
fn screen_mouse_mode(screen: &VtScreen) -> MouseMode {
    match screen.mouse_protocol_mode() {
        vt100::MouseProtocolMode::None => MouseMode::Disabled,
        vt100::MouseProtocolMode::Press => MouseMode::Press,
        vt100::MouseProtocolMode::PressRelease => MouseMode::PressRelease,
        vt100::MouseProtocolMode::ButtonMotion => MouseMode::ButtonMotion,
        vt100::MouseProtocolMode::AnyMotion => MouseMode::AnyMotion,
    }
}

/// `vt100::Screen::mouse_protocol_encoding`, variant for variant. The screen
/// is opaque here, so the contract says nothing of the result.
#[verifier::external_body]
fn screen_mouse_encoding(screen: &VtScreen) -> MouseEncoding {
    match screen.mouse_protocol_encoding() {
        vt100::MouseProtocolEncoding::Default => MouseEncoding::Default,
        vt100::MouseProtocolEncoding::Utf8 => MouseEncoding::Utf8,
        vt100::MouseProtocolEncoding::Sgr => MouseEncoding::Sgr,
    }
}

/// Reads the modes that decide wheel handling from a terminal screen.
pub fn screen_modes(screen: &VtScreen) -> ScreenModes {
    ScreenModes {
        alternate_screen: screen_alternate(screen),
        application_cursor: screen_application_cursor(screen),
        mouse_mode: screen_mouse_mode(screen),
        mouse_encoding: screen_mouse_encoding(screen),
    }
}

/// Decides what a wheel `delta` should do given the foreground app's state
/// on `screen`.
pub fn resolve_scroll(delta: i16, screen: &VtScreen) -> (res: ScrollAction)
    ensures
        exists|modes: ScreenModes| is_scroll_action(res, delta, modes),
        delta == 0 ==> res == ScrollAction::Scrollback(0),
{
    let modes = screen_modes(screen);
    resolve_scroll_modes(delta, modes)
}

} // verus!
