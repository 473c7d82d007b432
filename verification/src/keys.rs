//! Key events and the input encoder.
//!
//! A key event is translated into the raw byte protocol a child process
//! behind a pseudo-terminal expects.  Control translation is owned by this
//! layer, and by this layer alone: a control modifier on an alphabetic or
//! punctuation character is mapped to its control code here, uniformly,
//! regardless of what the upstream key-reading layer may report.
use crate::strutil::{char_uppercase, dec_chars, numbered_title, upper_of};
use vstd::prelude::*;
use vstd::string::{StrSliceExecFns, StringExecFns};
use vstd::utf8::{char_is_scalar, encode_scalar, is_scalar};

verus! {

/// A key, reduced to the closed set the shell routes.  Keys the shell
/// ignores (media keys, lock keys beyond caps lock, and so on) arrive as
/// `Other`.
#[derive(PartialEq, Eq, Clone, Copy, Debug, Structural)]
pub enum KeyCode {
    Backspace,
    Enter,
    Left,
    Right,
    Up,
    Down,
    Home,
    End,
    PageUp,
    PageDown,
    Tab,
    BackTab,
    Delete,
    Insert,
    F(u8),
    Char(char),
    Esc,
    CapsLock,
    Other,
}

/// A key press together with its modifiers.
#[derive(PartialEq, Eq, Clone, Copy, Debug, Structural)]
pub struct KeyEvent {
    pub code: KeyCode,
    pub ctrl: bool,
    pub alt: bool,
    pub shift: bool,
}

impl KeyEvent {
    /// A key press without modifiers.
    pub fn plain(code: KeyCode) -> (r: KeyEvent)
        ensures
            r == (KeyEvent { code, ctrl: false, alt: false, shift: false }),
    {
        KeyEvent { code, ctrl: false, alt: false, shift: false }
    }
}

/// The ASCII digits of `n` in decimal, most significant first.
pub open spec fn dec_digits(n: nat) -> Seq<u8>
    decreases n,
{
    if n < 10 {
        seq![(48 + n) as u8]
    } else {
        dec_digits(n / 10).push((48 + n % 10) as u8)
    }
}

/// The escape sequence of an arrow key whose final letter is `letter`;
/// a control modifier selects the variant that encodes the modifier.
pub open spec fn arrow_seq(letter: u8, ctrl: bool) -> Seq<u8> {
    if ctrl {
        seq![27u8, 91u8, 49u8, 59u8, 53u8, letter]
    } else {
        seq![27u8, 91u8, letter]
    }
}

/// The control code of a character under the control modifier: letters map
/// into 1 through 26, a small fixed set of punctuation maps to the remaining
/// control codes, and everything else encodes to nothing.
pub open spec fn ctrl_char_seq(c: char) -> Seq<u8> {
    let u = c as u32;
    if 97 <= u && u <= 122 {  // 'a'..='z'
        seq![(u - 96) as u8]
    } else if 65 <= u && u <= 90 {  // 'A'..='Z'
        seq![(u - 64) as u8]
    } else if u == 64 {  // '@'
        seq![0u8]
    } else if u == 91 {  // '['
        seq![27u8]
    } else if u == 92 {  // '\\'
        seq![28u8]
    } else if u == 93 {  // ']'
        seq![29u8]
    } else if u == 94 {  // '^'
        seq![30u8]
    } else if u == 95 {  // '_'
        seq![31u8]
    } else if u == 63 {  // '?'
        seq![127u8]
    } else {
        seq![]
    }
}

/// The byte sequence of a key before the alt prefix is considered.
pub open spec fn base_bytes(k: KeyEvent) -> Seq<u8> {
    match k.code {
        KeyCode::Backspace => if k.ctrl {
            seq![127u8]
        } else {
            seq![8u8]
        },
        KeyCode::Enter => seq![13u8],
        KeyCode::Left => arrow_seq(68u8, k.ctrl),
        KeyCode::Right => arrow_seq(67u8, k.ctrl),
        KeyCode::Up => arrow_seq(65u8, k.ctrl),
        KeyCode::Down => arrow_seq(66u8, k.ctrl),
        KeyCode::Home => seq![27u8, 91u8, 72u8],
        KeyCode::End => seq![27u8, 91u8, 70u8],
        KeyCode::PageUp => seq![27u8, 91u8, 53u8, 126u8],
        KeyCode::PageDown => seq![27u8, 91u8, 54u8, 126u8],
        KeyCode::Tab => seq![9u8],
        KeyCode::BackTab => seq![27u8, 91u8, 90u8],
        KeyCode::Delete => seq![27u8, 91u8, 51u8, 126u8],
        KeyCode::Insert => seq![27u8, 91u8, 50u8, 126u8],
        KeyCode::F(n) => seq![27u8, 91u8] + dec_digits((n + 11) as nat) + seq![126u8],
        KeyCode::Char(c) => if k.ctrl {
            ctrl_char_seq(c)
        } else {
            encode_scalar(c as u32)
        },
        KeyCode::Esc => seq![27u8],
        KeyCode::CapsLock => seq![],
        KeyCode::Other => seq![],
    }
}

/// The full encoding of a key event: its base bytes, with an escape byte
/// prepended when alt is held and the key encodes to something — unless the
/// key itself is escape.
pub open spec fn encode_spec(k: KeyEvent) -> Seq<u8> {
    let b = base_bytes(k);
    if k.alt && b.len() > 0 && !(k.code is Esc) {
        seq![27u8] + b
    } else {
        b
    }
}

/// Appends the decimal digits of `n` to `out`.
fn push_dec(out: &mut Vec<u8>, n: u16)
    ensures
        final(out)@ == old(out)@ + dec_digits(n as nat),
    decreases n,
{
    if n < 10 {
        out.push(48 + n as u8);
    } else {
        push_dec(out, n / 10);
        out.push(48 + (n % 10) as u8);
    }
}

/// The UTF-8 bytes of one character.
fn encode_char(c: char) -> (r: Vec<u8>)
    ensures
        r@ == encode_scalar(c as u32),
{
    proof {
        char_is_scalar(c);
    }
    let u = c as u32;
    let mut r: Vec<u8> = Vec::new();
    if u <= 0x7F {
        r.push((u & 0x7F) as u8);
    } else if u <= 0x7FF {
        r.push(0xC0u8 | ((u >> 6) & 0x1F) as u8);
        r.push(0x80u8 | (u & 0x3F) as u8);
    } else if u <= 0xFFFF {
        r.push(0xE0u8 | ((u >> 12) & 0x0F) as u8);
        r.push(0x80u8 | ((u >> 6) & 0x3F) as u8);
        r.push(0x80u8 | (u & 0x3F) as u8);
    } else {
        r.push(0xF0u8 | ((u >> 18) & 0x7) as u8);
        r.push(0x80u8 | ((u >> 12) & 0x3F) as u8);
        r.push(0x80u8 | ((u >> 6) & 0x3F) as u8);
        r.push(0x80u8 | (u & 0x3F) as u8);
    }
    assert(r@ =~= encode_scalar(u));
    r
}

/// The control code of a character, when the control modifier is held.
fn encode_ctrl_char(c: char) -> (r: Vec<u8>)
    ensures
        r@ == ctrl_char_seq(c),
{
    let u = c as u32;
    let mut r: Vec<u8> = Vec::new();
    if 97 <= u && u <= 122 {
        r.push((u - 96) as u8);
    } else if 65 <= u && u <= 90 {
        r.push((u - 64) as u8);
    } else if u == 64 {
        r.push(0u8);
    } else if u == 91 {
        r.push(27u8);
    } else if u == 92 {
        r.push(28u8);
    } else if u == 93 {
        r.push(29u8);
    } else if u == 94 {
        r.push(30u8);
    } else if u == 95 {
        r.push(31u8);
    } else if u == 63 {
        r.push(127u8);
    }
    assert(r@ =~= ctrl_char_seq(c));
    r
}

/// Encodes a key event into the byte sequence written to a session's input
/// stream.  An empty result means the key is ignored and must not be
/// written.
pub fn encode(k: KeyEvent) -> (r: Vec<u8>)
    ensures
        r@ == encode_spec(k),
{
    let mut bytes: Vec<u8> = Vec::new();
    let mut is_esc = false;
    match k.code {
        KeyCode::Backspace => {
            if k.ctrl {
                bytes.push(127u8);
            } else {
                bytes.push(8u8);
            }
        },
        KeyCode::Enter => {
            bytes.push(13u8);
        },
        KeyCode::Left => {
            push_arrow(&mut bytes, 68u8, k.ctrl);
        },
        KeyCode::Right => {
            push_arrow(&mut bytes, 67u8, k.ctrl);
        },
        KeyCode::Up => {
            push_arrow(&mut bytes, 65u8, k.ctrl);
        },
        KeyCode::Down => {
            push_arrow(&mut bytes, 66u8, k.ctrl);
        },
        KeyCode::Home => {
            bytes.push(27u8);
            bytes.push(91u8);
            bytes.push(72u8);
        },
        KeyCode::End => {
            bytes.push(27u8);
            bytes.push(91u8);
            bytes.push(70u8);
        },
        KeyCode::PageUp => {
            bytes.push(27u8);
            bytes.push(91u8);
            bytes.push(53u8);
            bytes.push(126u8);
        },
        KeyCode::PageDown => {
            bytes.push(27u8);
            bytes.push(91u8);
            bytes.push(54u8);
            bytes.push(126u8);
        },
        KeyCode::Tab => {
            bytes.push(9u8);
        },
        KeyCode::BackTab => {
            bytes.push(27u8);
            bytes.push(91u8);
            bytes.push(90u8);
        },
        KeyCode::Delete => {
            bytes.push(27u8);
            bytes.push(91u8);
            bytes.push(51u8);
            bytes.push(126u8);
        },
        KeyCode::Insert => {
            bytes.push(27u8);
            bytes.push(91u8);
            bytes.push(50u8);
            bytes.push(126u8);
        },
        KeyCode::F(n) => {
            bytes.push(27u8);
            bytes.push(91u8);
            push_dec(&mut bytes, n as u16 + 11);
            bytes.push(126u8);
        },
        KeyCode::Char(c) => {
            if k.ctrl {
                bytes = encode_ctrl_char(c);
            } else {
                bytes = encode_char(c);
            }
        },
        KeyCode::Esc => {
            bytes.push(27u8);
            is_esc = true;
        },
        KeyCode::CapsLock => {},
        KeyCode::Other => {},
    }
    assert(bytes@ =~= base_bytes(k));
    if k.alt && bytes.len() > 0 && !is_esc {
        bytes.insert(0, 27u8);
    }
    assert(bytes@ =~= encode_spec(k));
    bytes
}

/// Appends an arrow-key escape sequence ending in `letter`.
fn push_arrow(out: &mut Vec<u8>, letter: u8, ctrl: bool)
    ensures
        final(out)@ == old(out)@ + arrow_seq(letter, ctrl),
{
    out.push(27u8);
    out.push(91u8);
    if ctrl {
        out.push(49u8);
        out.push(59u8);
        out.push(53u8);
    }
    out.push(letter);
    assert(out@ =~= old(out)@ + arrow_seq(letter, ctrl));
}

/// Encoding is total and, for every named key without modifiers outside the
/// ignored set (caps lock and unrecognised keys), yields at least one byte.
/// Character keys are not named keys; they are covered by the UTF-8 encoding,
/// which is never empty either.
pub proof fn lemma_encode_named_nonempty(k: KeyEvent)
    requires
        !k.ctrl,
        !k.alt,
        !k.shift,
        !(k.code is CapsLock),
        !(k.code is Other),
        !(k.code is Char),
    ensures
        encode_spec(k).len() > 0,
{
    match k.code {
        KeyCode::F(n) => {
            assert(dec_digits((n + 11) as nat).len() >= 1) by {
                lemma_dec_digits_nonempty((n + 11) as nat);
            }
        },
        _ => {},
    }
}

/// The decimal digit string of a number is never empty.
proof fn lemma_dec_digits_nonempty(n: nat)
    ensures
        dec_digits(n).len() >= 1,
    decreases n,
{
    if n >= 10 {
        lemma_dec_digits_nonempty(n / 10);
    }
}

/// A character key without the control modifier always encodes to at least
/// one byte: the UTF-8 encoding of a scalar has one to four bytes.
pub proof fn lemma_encode_char_nonempty(k: KeyEvent, c: char)
    requires
        k.code == KeyCode::Char(c),
        !k.ctrl,
    ensures
        encode_spec(k).len() > 0,
{
    char_is_scalar(c);
    assert(is_scalar(c as u32));
}

/// The canonical name of a key inside a chord string, or nothing for keys
/// that global bindings never match.
pub open spec fn key_name_spec(code: KeyCode) -> Option<Seq<char>> {
    match code {
        KeyCode::Char(c) => Option::Some(upper_of(c)),
        KeyCode::F(n) => Option::Some("F"@ + dec_chars(n as nat)),
        KeyCode::Tab => Option::Some("Tab"@),
        KeyCode::BackTab => Option::Some("Tab"@),
        KeyCode::Enter => Option::Some("Enter"@),
        KeyCode::Left => Option::Some("Left"@),
        KeyCode::Right => Option::Some("Right"@),
        KeyCode::Up => Option::Some("Up"@),
        KeyCode::Down => Option::Some("Down"@),
        KeyCode::Home => Option::Some("Home"@),
        KeyCode::End => Option::Some("End"@),
        KeyCode::PageUp => Option::Some("PageUp"@),
        KeyCode::PageDown => Option::Some("PageDown"@),
        KeyCode::Delete => Option::Some("Delete"@),
        KeyCode::Insert => Option::Some("Insert"@),
        KeyCode::Backspace => Option::Some("Backspace"@),
        KeyCode::Esc => Option::Some("Esc"@),
        KeyCode::CapsLock => Option::None,
        KeyCode::Other => Option::None,
    }
}

/// The canonical chord string of a key event: the held modifiers, in the
/// fixed order control, alt, shift, then the key's name.  A back-tab counts
/// as a shifted tab.
pub open spec fn chord_spec(k: KeyEvent) -> Option<Seq<char>> {
    match key_name_spec(k.code) {
        Option::None => Option::None,
        Option::Some(name) => Option::Some(
            (if k.ctrl {
                "Ctrl-"@
            } else {
                Seq::<char>::empty()
            }) + (if k.alt {
                "Alt-"@
            } else {
                Seq::<char>::empty()
            }) + (if k.code is BackTab || k.shift {
                "Shift-"@
            } else {
                Seq::<char>::empty()
            }) + name,
        ),
    }
}

/// Builds the canonical chord string of a key event, for looking up a global
/// binding; keys that bindings never match give nothing.
pub fn key_event_to_string(k: KeyEvent) -> (r: Option<String>)
    ensures
        match r {
            Option::Some(s) => chord_spec(k) == Option::Some(s@),
            Option::None => chord_spec(k) is None,
        },
{
    let name: String = match k.code {
        KeyCode::Char(c) => char_uppercase(c),
        KeyCode::F(n) => numbered_title("F", n as usize),
        KeyCode::Tab => String::from_str("Tab"),
        KeyCode::BackTab => String::from_str("Tab"),
        KeyCode::Enter => String::from_str("Enter"),
        KeyCode::Left => String::from_str("Left"),
        KeyCode::Right => String::from_str("Right"),
        KeyCode::Up => String::from_str("Up"),
        KeyCode::Down => String::from_str("Down"),
        KeyCode::Home => String::from_str("Home"),
        KeyCode::End => String::from_str("End"),
        KeyCode::PageUp => String::from_str("PageUp"),
        KeyCode::PageDown => String::from_str("PageDown"),
        KeyCode::Delete => String::from_str("Delete"),
        KeyCode::Insert => String::from_str("Insert"),
        KeyCode::Backspace => String::from_str("Backspace"),
        KeyCode::Esc => String::from_str("Esc"),
        KeyCode::CapsLock => {
            return Option::None;
        },
        KeyCode::Other => {
            return Option::None;
        },
    };
    let mut out = String::new();
    if k.ctrl {
        out.append("Ctrl-");
    }
    if k.alt {
        out.append("Alt-");
    }
    let is_backtab = matches!(k.code, KeyCode::BackTab);
    if is_backtab || k.shift {
        out.append("Shift-");
    }
    out.append(name.as_str());
    proof {
        let spec_name = key_name_spec(k.code)->Some_0;
        assert(out@ =~= (if k.ctrl {
            "Ctrl-"@
        } else {
            Seq::<char>::empty()
        }) + (if k.alt {
            "Alt-"@
        } else {
            Seq::<char>::empty()
        }) + (if k.code is BackTab || k.shift {
            "Shift-"@
        } else {
            Seq::<char>::empty()
        }) + spec_name);
    }
    Option::Some(out)
}

} // verus!

