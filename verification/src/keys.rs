//! The key translator: a pure, table-driven map from a local keystroke to
//! the byte sequence injected into the serial stream, or to "ignored".
use vstd::prelude::*;

verus! {

/// The closed set of key codes the translator understands. Anything else
/// a terminal driver may report is `Other` and translates to "ignored".
#[derive(Clone, Copy, PartialEq, Eq, Structural, Debug)]
pub enum KeyCode {
    Backspace,
    Enter,
    Left,
    Right,
    Home,
    End,
    Up,
    Down,
    Tab,
    Delete,
    Insert,
    Esc,
    Printable(char),
    Other,
}

/// One local keystroke: a key code plus whether the control modifier was held.
#[derive(Clone, Copy, PartialEq, Eq, Structural, Debug)]
pub struct KeyStroke {
    pub code: KeyCode,
    pub ctrl: bool,
}

/// The UTF-8 encoding of the code point `n` (valid for `0 <= n < 0x11_0000`).
pub open spec fn utf8_encoding_of(n: int) -> Seq<u8> {
    if n < 0x80 {
        seq![n as u8]
    } else if n < 0x800 {
        seq![(0xC0 + n / 0x40) as u8, (0x80 + n % 0x40) as u8]
    } else if n < 0x1_0000 {
        seq![
            (0xE0 + n / 0x1000) as u8,
            (0x80 + (n / 0x40) % 0x40) as u8,
            (0x80 + n % 0x40) as u8,
        ]
    } else {
        seq![
            (0xF0 + n / 0x4_0000) as u8,
            (0x80 + (n / 0x1000) % 0x40) as u8,
            (0x80 + (n / 0x40) % 0x40) as u8,
            (0x80 + n % 0x40) as u8,
        ]
    }
}

/// Encode one character as its UTF-8 bytes.
pub fn utf8_encode(c: char) -> (r: Vec<u8>)
    ensures
        r@ == utf8_encoding_of(c as int),
{
    let n: u32 = c as u32;
    let mut r: Vec<u8> = Vec::new();
    if n < 0x80 {
        r.push(n as u8);
    } else if n < 0x800 {
        r.push((0xC0 + n / 0x40) as u8);
        r.push((0x80 + n % 0x40) as u8);
    } else if n < 0x1_0000 {
        r.push((0xE0 + n / 0x1000) as u8);
        r.push((0x80 + (n / 0x40) % 0x40) as u8);
        r.push((0x80 + n % 0x40) as u8);
    } else {
        r.push((0xF0 + n / 0x4_0000) as u8);
        r.push((0x80 + (n / 0x1000) % 0x40) as u8);
        r.push((0x80 + (n / 0x40) % 0x40) as u8);
        r.push((0x80 + n % 0x40) as u8);
    }
    r
}

/// A character the control modifier masks down to a control code:
/// a lowercase letter or the space character.
pub open spec fn is_ctrl_maskable(c: char) -> bool {
    (97 <= c as int <= 122) || c as int == 32
}

/// A digit '4' through '7', which the input layer reports for the control
/// codes 0x1C through 0x1F.
pub open spec fn is_ctrl_high_digit(c: char) -> bool {
    52 <= c as int <= 55
}

/// The bytes a keystroke translates to, or `None` for "ignored".
pub open spec fn key_bytes(code: KeyCode, ctrl: bool) -> Option<Seq<u8>> {
    match code {
        KeyCode::Backspace => Some(seq![0x08u8]),
        KeyCode::Enter => Some(seq![0x0Du8]),
        KeyCode::Left => Some(seq![0x1Bu8, 0x5Bu8, 0x44u8]),
        KeyCode::Right => Some(seq![0x1Bu8, 0x5Bu8, 0x43u8]),
        KeyCode::Home => Some(seq![0x1Bu8, 0x5Bu8, 0x48u8]),
        KeyCode::End => Some(seq![0x1Bu8, 0x5Bu8, 0x46u8]),
        KeyCode::Up => Some(seq![0x1Bu8, 0x5Bu8, 0x41u8]),
        KeyCode::Down => Some(seq![0x1Bu8, 0x5Bu8, 0x42u8]),
        KeyCode::Tab => Some(seq![0x09u8]),
        KeyCode::Delete => Some(seq![0x1Bu8, 0x5Bu8, 0x33u8, 0x7Eu8]),
        KeyCode::Insert => Some(seq![0x1Bu8, 0x5Bu8, 0x32u8, 0x7Eu8]),
        KeyCode::Esc => Some(seq![0x1Bu8]),
        KeyCode::Printable(c) => Some(
            if ctrl && is_ctrl_maskable(c) {
                seq![(c as int % 0x20) as u8]
            } else if ctrl && is_ctrl_high_digit(c) {
                seq![((c as int + 8) % 0x20) as u8]
            } else {
                utf8_encoding_of(c as int)
            },
        ),
        KeyCode::Other => None,
    }
}

/// Translate one keystroke into the bytes to write to the serial device,
/// or `None` when the keystroke is ignored.
pub fn translate(stroke: KeyStroke) -> (r: Option<Vec<u8>>)
    ensures
        match r {
            Some(v) => key_bytes(stroke.code, stroke.ctrl) == Some(v@),
            None => key_bytes(stroke.code, stroke.ctrl) is None,
        },
{
    match stroke.code {
        KeyCode::Backspace => Some(byte_vec1(0x08)),
        KeyCode::Enter => Some(byte_vec1(0x0D)),
        KeyCode::Left => Some(escape_seq(0x44)),
        KeyCode::Right => Some(escape_seq(0x43)),
        KeyCode::Home => Some(escape_seq(0x48)),
        KeyCode::End => Some(escape_seq(0x46)),
        KeyCode::Up => Some(escape_seq(0x41)),
        KeyCode::Down => Some(escape_seq(0x42)),
        KeyCode::Tab => Some(byte_vec1(0x09)),
        KeyCode::Delete => Some(tilde_seq(0x33)),
        KeyCode::Insert => Some(tilde_seq(0x32)),
        KeyCode::Esc => Some(byte_vec1(0x1B)),
        KeyCode::Printable(c) => {
            let n: u32 = c as u32;
            if stroke.ctrl && ((97 <= n && n <= 122) || n == 32) {
                Some(byte_vec1((n % 0x20) as u8))
            } else if stroke.ctrl && (52 <= n && n <= 55) {
                Some(byte_vec1(((n + 8) % 0x20) as u8))
            } else {
                Some(utf8_encode(c))
            }
        },
        KeyCode::Other => None,
    }
}

/// A vector of the single byte `b`.
fn byte_vec1(b: u8) -> (r: Vec<u8>)
    ensures
        r@ == seq![b],
{
    let mut r: Vec<u8> = Vec::new();
    r.push(b);
    r
}

/// The three-byte escape sequence `ESC [ b`.
fn escape_seq(b: u8) -> (r: Vec<u8>)
    ensures
        r@ == seq![0x1Bu8, 0x5Bu8, b],
{
    let mut r: Vec<u8> = Vec::new();
    r.push(0x1B);
    r.push(0x5B);
    r.push(b);
    r
}

/// The four-byte escape sequence `ESC [ b ~`.
fn tilde_seq(b: u8) -> (r: Vec<u8>)
    ensures
        r@ == seq![0x1Bu8, 0x5Bu8, b, 0x7Eu8],
{
    let mut r: Vec<u8> = Vec::new();
    r.push(0x1B);
    r.push(0x5B);
    r.push(b);
    r.push(0x7E);
    r
}

/// Masking a small value with 0x1F is reduction modulo 0x20.
proof fn lemma_mask_is_mod(n: u32)
    ensures
        n & 0x1F == n % 0x20,
{
    assert(n & 0x1F == n % 0x20) by (bit_vector);
}

/// A control-modified lowercase letter or space translates to exactly one
/// byte: the character's code masked with 0x1F.
pub proof fn lemma_ctrl_masked_byte(c: char)
    requires
        is_ctrl_maskable(c),
    ensures
        key_bytes(KeyCode::Printable(c), true) == Some(seq![(c as int % 0x20) as u8]),
        (c as int % 0x20) as u8 as int == (c as u32) & 0x1F,
{
    lemma_mask_is_mod(c as u32);
}

/// A control-modified digit '4' through '7' translates to exactly one
/// byte: the character's code shifted by 8 and masked with 0x1F.
pub proof fn lemma_ctrl_high_digit_byte(c: char)
    requires
        is_ctrl_high_digit(c),
    ensures
        key_bytes(KeyCode::Printable(c), true) == Some(seq![((c as int + 8) % 0x20) as u8]),
        ((c as int + 8) % 0x20) as u8 as int == ((c as u32 + 8) as u32) & 0x1F,
{
    lemma_mask_is_mod((c as u32 + 8) as u32);
}

} // verus!
