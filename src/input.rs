use vstd::prelude::*;
use vstd::utf8::*;

use crate::event::{Event, Key, MouseButton, MouseEvent};
use crate::text::{fields, fields_view, is_digit, number_of, parse_number, split_fields};

verus! {

/// Why no event could be decoded.
#[derive(Debug, Clone, Copy, PartialEq, Eq, Structural)]
pub enum DecodeError {
    /// The input holds no byte at all: the stream has ended cleanly.
    EndOfStream,
    /// The input ends in the middle of an event.
    Incomplete,
    /// `ESC O` followed by a byte that names no function key.
    FunctionKey,
    /// A control sequence that is not understood.
    Csi,
    /// Four bytes that do not encode a Unicode scalar value.
    Utf8,
}

/// The character with code point `v`, if `v` is a Unicode scalar value.
pub open spec fn char_of(v: u32) -> Option<char> {
    if v <= 0x10FFFF && !(0xD800 <= v <= 0xDFFF) {
        Some(v as char)
    } else {
        None
    }
}

/// The scalar that `b` encodes in UTF-8, when `b` is exactly one encoded scalar.
pub open spec fn utf8_scalar(b: Seq<u8>) -> Option<char> {
    if valid_first_scalar(b) && length_of_first_scalar(b) == b.len() {
        char_of(decode_first_scalar(b))
    } else {
        None
    }
}

/// Decodes the character that starts at `i`: an ASCII byte stands for itself;
/// otherwise bytes are taken, up to four, until they encode one scalar.
pub open spec fn char_at(s: Seq<u8>, i: int) -> Result<(char, nat), DecodeError> {
    if s[i] < 0x80 {
        Ok((s[i] as char, 1))
    } else if s.len() < i + 2 {
        Err(DecodeError::Incomplete)
    } else if utf8_scalar(s.subrange(i, i + 2)) is Some {
        Ok((utf8_scalar(s.subrange(i, i + 2))->Some_0, 2))
    } else if s.len() < i + 3 {
        Err(DecodeError::Incomplete)
    } else if utf8_scalar(s.subrange(i, i + 3)) is Some {
        Ok((utf8_scalar(s.subrange(i, i + 3))->Some_0, 3))
    } else if s.len() < i + 4 {
        Err(DecodeError::Incomplete)
    } else if utf8_scalar(s.subrange(i, i + 4)) is Some {
        Ok((utf8_scalar(s.subrange(i, i + 4))->Some_0, 4))
    } else {
        Err(DecodeError::Utf8)
    }
}

/// Index of the first `M` or `m` at or after `i`.
pub open spec fn sgr_end(s: Seq<u8>, i: int) -> Option<int>
    decreases s.len() - i,
{
    if i < 0 || i >= s.len() {
        None
    } else if s[i] == 0x4D || s[i] == 0x6D {
        Some(i)
    } else {
        sgr_end(s, i + 1)
    }
}

/// Index of the first byte in `64..=126` (a final byte) at or after `i`.
pub open spec fn csi_end(s: Seq<u8>, i: int) -> Option<int>
    decreases s.len() - i,
{
    if i < 0 || i >= s.len() {
        None
    } else if 64 <= s[i] <= 126 {
        Some(i)
    } else {
        csi_end(s, i + 1)
    }
}

/// A legacy mouse report: button byte and coordinates, each offset by 32.
pub open spec fn x10_mouse(b: u8, x: u8, y: u8) -> MouseEvent {
    let cb = (b + 224) % 256;
    let cx = (if x >= 32 { x - 32 } else { 0 }) as u16;
    let cy = (if y >= 32 { y - 32 } else { 0 }) as u16;
    let wheel = (cb / 64) % 2 == 1;
    if cb % 4 == 0 {
        MouseEvent::Press(if wheel { MouseButton::WheelUp } else { MouseButton::Left }, cx, cy)
    } else if cb % 4 == 1 {
        MouseEvent::Press(if wheel { MouseButton::WheelDown } else { MouseButton::Middle }, cx, cy)
    } else if cb % 4 == 2 {
        MouseEvent::Press(MouseButton::Right, cx, cy)
    } else {
        MouseEvent::Release(cx, cy)
    }
}

pub open spec fn sgr_button(cb: nat) -> MouseButton {
    if cb == 0 {
        MouseButton::Left
    } else if cb == 1 {
        MouseButton::Middle
    } else if cb == 2 {
        MouseButton::Right
    } else if cb == 64 {
        MouseButton::WheelUp
    } else {
        MouseButton::WheelDown
    }
}

/// An SGR mouse report: the first three fields are button code, column and
/// row; `M` ends a press, `m` a release.
pub open spec fn sgr_mouse(fs: Seq<Seq<u8>>, term: u8) -> Option<MouseEvent> {
    if fs.len() < 3 {
        None
    } else {
        match (number_of(fs[0], 65535), number_of(fs[1], 65535), number_of(fs[2], 65535)) {
            (Some(cb), Some(x), Some(y)) => {
                if cb <= 2 || cb == 64 || cb == 65 {
                    if term == 0x4D {
                        Some(MouseEvent::Press(sgr_button(cb), x as u16, y as u16))
                    } else {
                        Some(MouseEvent::Release(x as u16, y as u16))
                    }
                } else if cb == 32 {
                    Some(MouseEvent::Hold(x as u16, y as u16))
                } else if cb == 3 {
                    Some(MouseEvent::Release(x as u16, y as u16))
                } else {
                    None
                }
            },
            _ => None,
        }
    }
}

/// An rxvt mouse report: at least three fields, all numbers, the first three
/// being button code, column and row.
pub open spec fn rxvt_mouse(fs: Seq<Seq<u8>>) -> Option<MouseEvent> {
    if fs.len() >= 3 && (forall|i: int| 0 <= i < fs.len() ==> number_of(#[trigger] fs[i], 65535) is Some) {
        let cb = number_of(fs[0], 65535)->Some_0;
        let x = number_of(fs[1], 65535)->Some_0 as u16;
        let y = number_of(fs[2], 65535)->Some_0 as u16;
        if cb == 32 {
            Some(MouseEvent::Press(MouseButton::Left, x, y))
        } else if cb == 33 {
            Some(MouseEvent::Press(MouseButton::Middle, x, y))
        } else if cb == 34 {
            Some(MouseEvent::Press(MouseButton::Right, x, y))
        } else if cb == 35 {
            Some(MouseEvent::Release(x, y))
        } else if cb == 64 {
            Some(MouseEvent::Hold(x, y))
        } else if cb == 96 || cb == 97 {
            Some(MouseEvent::Press(MouseButton::WheelUp, x, y))
        } else {
            None
        }
    } else {
        None
    }
}

/// The key of a `ESC [ n ~` sequence.
pub open spec fn tilde_key(n: nat) -> Option<Key> {
    if n == 1 || n == 7 {
        Some(Key::Home)
    } else if n == 2 {
        Some(Key::Insert)
    } else if n == 3 {
        Some(Key::Delete)
    } else if n == 4 || n == 8 {
        Some(Key::End)
    } else if n == 5 {
        Some(Key::PageUp)
    } else if n == 6 {
        Some(Key::PageDown)
    } else if 11 <= n <= 15 {
        Some(Key::F((n - 10) as u8))
    } else if 17 <= n <= 21 {
        Some(Key::F((n - 11) as u8))
    } else if 23 <= n <= 24 {
        Some(Key::F((n - 12) as u8))
    } else {
        None
    }
}

/// A numbered control sequence: its parameter fields and its final byte.
pub open spec fn numbered_csi(fs: Seq<Seq<u8>>, fin: u8) -> Option<Event> {
    if fin == 0x4D {
        match rxvt_mouse(fs) {
            Some(m) => Some(Event::Mouse(m)),
            None => None,
        }
    } else if fin == 0x7E && fs.len() == 1 && number_of(fs[0], 255) is Some {
        match tilde_key(number_of(fs[0], 255)->Some_0) {
            Some(k) => Some(Event::Key(k)),
            None => None,
        }
    } else {
        None
    }
}

/// A control sequence: `s` starts with `ESC [`.
pub open spec fn csi_event(s: Seq<u8>) -> Result<(Event, nat), DecodeError> {
    if s.len() < 3 {
        Err(DecodeError::Incomplete)
    } else {
        let c = s[2];
        if c == 0x5B {
            if s.len() < 4 {
                Err(DecodeError::Incomplete)
            } else if s[3] >= 0x41 {
                Ok((Event::Key(Key::F((s[3] - 64) as u8)), 4))
            } else {
                Err(DecodeError::Csi)
            }
        } else if c == 0x44 {
            Ok((Event::Key(Key::Left), 3))
        } else if c == 0x43 {
            Ok((Event::Key(Key::Right), 3))
        } else if c == 0x41 {
            Ok((Event::Key(Key::Up), 3))
        } else if c == 0x42 {
            Ok((Event::Key(Key::Down), 3))
        } else if c == 0x48 {
            Ok((Event::Key(Key::Home), 3))
        } else if c == 0x46 {
            Ok((Event::Key(Key::End), 3))
        } else if c == 0x4D {
            if s.len() < 6 {
                Err(DecodeError::Incomplete)
            } else {
                Ok((Event::Mouse(x10_mouse(s[3], s[4], s[5])), 6))
            }
        } else if c == 0x3C {
            match sgr_end(s, 3) {
                None => Err(DecodeError::Incomplete),
                Some(j) => match sgr_mouse(fields(s.subrange(3, j), 0x3B), s[j]) {
                    Some(m) => Ok((Event::Mouse(m), (j + 1) as nat)),
                    None => Err(DecodeError::Csi),
                },
            }
        } else if is_digit(c) {
            match csi_end(s, 3) {
                None => Err(DecodeError::Incomplete),
                Some(j) => match numbered_csi(fields(s.subrange(2, j), 0x3B), s[j]) {
                    Some(e) => Ok((e, (j + 1) as nat)),
                    None => Err(DecodeError::Csi),
                },
            }
        } else {
            Err(DecodeError::Csi)
        }
    }
}

/// An escape sequence: `s` starts with `ESC`.
pub open spec fn escape_event(s: Seq<u8>) -> Result<(Event, nat), DecodeError> {
    if s.len() < 2 {
        Err(DecodeError::Incomplete)
    } else if s[1] == 0x4F {
        if s.len() < 3 {
            Err(DecodeError::Incomplete)
        } else if 0x50 <= s[2] <= 0x53 {
            Ok((Event::Key(Key::F((s[2] - 0x4F) as u8)), 3))
        } else {
            Err(DecodeError::FunctionKey)
        }
    } else if s[1] == 0x5B {
        csi_event(s)
    } else {
        match char_at(s, 1) {
            Ok((c, n)) => Ok((Event::Key(Key::Alt(c)), n + 1)),
            Err(e) => Err(e),
        }
    }
}

/// The first event of `s` and the number of bytes it takes.
pub open spec fn event_of(s: Seq<u8>) -> Result<(Event, nat), DecodeError> {
    if s.len() == 0 {
        Err(DecodeError::EndOfStream)
    } else {
        let b = s[0];
        if b == 0x1B {
            escape_event(s)
        } else if b == 0x0A || b == 0x0D {
            Ok((Event::Key(Key::Char('\n')), 1))
        } else if b == 0x09 {
            Ok((Event::Key(Key::Char('\t')), 1))
        } else if b == 0x7F {
            Ok((Event::Key(Key::Backspace), 1))
        } else if 0x01 <= b <= 0x19 {
            Ok((Event::Key(Key::Ctrl((b + 0x60) as char)), 1))
        } else if 0x1C <= b <= 0x1F {
            Ok((Event::Key(Key::Ctrl((b + 0x18) as char)), 1))
        } else if b == 0 {
            Ok((Event::Key(Key::Null), 1))
        } else {
            match char_at(s, 0) {
                Ok((c, n)) => Ok((Event::Key(Key::Char(c)), n)),
                Err(e) => Err(e),
            }
        }
    }
}

/// A decoding result with its byte count as a `nat`.
pub open spec fn outcome_view(r: Result<(Event, usize), DecodeError>) -> Result<
    (Event, nat),
    DecodeError,
> {
    match r {
        Ok((e, n)) => Ok((e, n as nat)),
        Err(x) => Err(x),
    }
}

/// Relies on `char::from_u32`: `Some` exactly for Unicode scalar values.
#[verifier::external_body]
fn char_from_u32(v: u32) -> (r: Option<char>)
    ensures
        r == char_of(v),
{
    char::from_u32(v)
}


/// The scalar that the `n` bytes of `s` from `start` encode, if they encode one.
fn scalar_at(s: &[u8], start: usize, n: usize) -> (r: Option<char>)
    requires
        2 <= n <= 4,
        start + n <= s@.len(),
    ensures
        r == utf8_scalar(s@.subrange(start as int, start + n)),
{
    let ghost b = s@.subrange(start as int, start + n);
    let b0 = s[start];
    let b1 = s[start + 1];
    if n == 2 {
        if 0xc0 <= b0 && b0 <= 0xdf && 0x80 <= b1 && b1 <= 0xbf {
            let cp: u32 = (((b0 & 0x1F) as u32) << 6) | ((b1 & 0x3f) as u32);
            assert(cp == decode_first_scalar(b));
            if 0x80 <= cp && !(0xD800 <= cp && cp <= 0xDFFF) {
                return char_from_u32(cp);
            }
        }
        return None;
    }
    let b2 = s[start + 2];
    if n == 3 {
        if 0xe0 <= b0 && b0 <= 0xef && 0x80 <= b1 && b1 <= 0xbf && 0x80 <= b2 && b2 <= 0xbf {
            let cp: u32 = (((b0 & 0x0F) as u32) << 12) | (((b1 & 0x3f) as u32) << 6) | ((b2
                & 0x3f) as u32);
            assert(cp == decode_first_scalar(b));
            if 0x800 <= cp && !(0xD800 <= cp && cp <= 0xDFFF) {
                return char_from_u32(cp);
            }
        }
        return None;
    }
    let b3 = s[start + 3];
    if 0xf0 <= b0 && b0 <= 0xf7 && 0x80 <= b1 && b1 <= 0xbf && 0x80 <= b2 && b2 <= 0xbf && 0x80
        <= b3 && b3 <= 0xbf {
        let cp: u32 = (((b0 & 0x07) as u32) << 18) | (((b1 & 0x3f) as u32) << 12) | (((b2
            & 0x3f) as u32) << 6) | ((b3 & 0x3f) as u32);
        assert(cp == decode_first_scalar(b));
        if 0x10000 <= cp && cp <= 0x10ffff && !(0xD800 <= cp && cp <= 0xDFFF) {
            return char_from_u32(cp);
        }
    }
    None
}

/// Decodes the character that starts at `i`.
fn char_from(s: &[u8], i: usize) -> (r: Result<(char, usize), DecodeError>)
    requires
        i < s@.len(),
    ensures
        match r {
            Ok((c, n)) => char_at(s@, i as int) == Ok::<(char, nat), DecodeError>((c, n as nat)),
            Err(e) => char_at(s@, i as int) == Err::<(char, nat), DecodeError>(e),
        },
        r matches Ok((_, n)) ==> 1 <= n && i + n <= s@.len(),
{
    let b = s[i];
    if b < 0x80 {
        return Ok((b as char, 1));
    }
    let mut n: usize = 2;
    while n <= 4
        invariant
            2 <= n <= 5,
            i < s@.len(),
            s@[i as int] >= 0x80,
            forall|k: int| 2 <= k < n ==> #[trigger] utf8_scalar(s@.subrange(i as int, i + k)) is None,
            n == 2 || i + n - 1 <= s@.len(),
        decreases 5 - n,
    {
        if s.len() - i < n {
            return Err(DecodeError::Incomplete);
        }
        match scalar_at(s, i, n) {
            Some(c) => {
                return Ok((c, n));
            },
            None => {},
        }
        n += 1;
    }
    Err(DecodeError::Utf8)
}


fn find_sgr_end(s: &[u8], from: usize) -> (r: Option<usize>)
    requires
        from <= s@.len(),
    ensures
        match r {
            Some(j) => sgr_end(s@, from as int) == Some(j as int) && from <= j < s@.len(),
            None => sgr_end(s@, from as int) is None,
        },
{
    let mut i = from;
    while i < s.len()
        invariant
            from <= i <= s@.len(),
            sgr_end(s@, from as int) == sgr_end(s@, i as int),
        decreases s.len() - i,
    {
        if s[i] == 0x4D || s[i] == 0x6D {
            return Some(i);
        }
        i += 1;
    }
    None
}

fn find_csi_end(s: &[u8], from: usize) -> (r: Option<usize>)
    requires
        from <= s@.len(),
    ensures
        match r {
            Some(j) => csi_end(s@, from as int) == Some(j as int) && from <= j < s@.len(),
            None => csi_end(s@, from as int) is None,
        },
{
    let mut i = from;
    while i < s.len()
        invariant
            from <= i <= s@.len(),
            csi_end(s@, from as int) == csi_end(s@, i as int),
        decreases s.len() - i,
    {
        if 64 <= s[i] && s[i] <= 126 {
            return Some(i);
        }
        i += 1;
    }
    None
}


fn x10_event(b: u8, x: u8, y: u8) -> (r: MouseEvent)
    ensures
        r == x10_mouse(b, x, y),
{
    let cb: u8 = if b >= 32 {
        b - 32
    } else {
        b + 224
    };
    let cx: u16 = if x >= 32 {
        (x - 32) as u16
    } else {
        0
    };
    let cy: u16 = if y >= 32 {
        (y - 32) as u16
    } else {
        0
    };
    let wheel = (cb / 64) % 2 == 1;
    if cb % 4 == 0 {
        MouseEvent::Press(
            if wheel {
                MouseButton::WheelUp
            } else {
                MouseButton::Left
            },
            cx,
            cy,
        )
    } else if cb % 4 == 1 {
        MouseEvent::Press(
            if wheel {
                MouseButton::WheelDown
            } else {
                MouseButton::Middle
            },
            cx,
            cy,
        )
    } else if cb % 4 == 2 {
        MouseEvent::Press(MouseButton::Right, cx, cy)
    } else {
        MouseEvent::Release(cx, cy)
    }
}

fn sgr_event(fs: &Vec<Vec<u8>>, term: u8) -> (r: Option<MouseEvent>)
    ensures
        r == sgr_mouse(fields_view(fs@), term),
{
    if fs.len() < 3 {
        return None;
    }
    assert(fields_view(fs@)[0] == fs@[0]@ && fields_view(fs@)[1] == fs@[1]@ && fields_view(fs@)[2]
        == fs@[2]@);
    let cb = parse_number(&fs[0], 65535);
    let x = parse_number(&fs[1], 65535);
    let y = parse_number(&fs[2], 65535);
    match (cb, x, y) {
        (Some(cb), Some(x), Some(y)) => {
            let x = x as u16;
            let y = y as u16;
            if cb <= 2 || cb == 64 || cb == 65 {
                let button = if cb == 0 {
                    MouseButton::Left
                } else if cb == 1 {
                    MouseButton::Middle
                } else if cb == 2 {
                    MouseButton::Right
                } else if cb == 64 {
                    MouseButton::WheelUp
                } else {
                    MouseButton::WheelDown
                };
                if term == 0x4D {
                    Some(MouseEvent::Press(button, x, y))
                } else {
                    Some(MouseEvent::Release(x, y))
                }
            } else if cb == 32 {
                Some(MouseEvent::Hold(x, y))
            } else if cb == 3 {
                Some(MouseEvent::Release(x, y))
            } else {
                None
            }
        },
        _ => None,
    }
}

fn rxvt_event(fs: &Vec<Vec<u8>>) -> (r: Option<MouseEvent>)
    ensures
        r == rxvt_mouse(fields_view(fs@)),
{
    let ghost fv = fields_view(fs@);
    let mut nums: Vec<u16> = Vec::new();
    let mut i: usize = 0;
    while i < fs.len()
        invariant
            i <= fs@.len(),
            fv == fields_view(fs@),
            nums@.len() == i,
            forall|k: int|
                0 <= k < i ==> number_of(#[trigger] fv[k], 65535) == Some(nums@[k] as nat),
        decreases fs.len() - i,
    {
        assert(fv[i as int] == fs@[i as int]@);
        match parse_number(&fs[i], 65535) {
            Some(v) => nums.push(v as u16),
            None => {
                return None;
            },
        }
        i += 1;
    }
    if nums.len() < 3 {
        return None;
    }
    assert(number_of(fv[0], 65535) is Some && number_of(fv[1], 65535) is Some && number_of(
        fv[2],
        65535,
    ) is Some);
    let cb = nums[0];
    let x = nums[1];
    let y = nums[2];
    if cb == 32 {
        Some(MouseEvent::Press(MouseButton::Left, x, y))
    } else if cb == 33 {
        Some(MouseEvent::Press(MouseButton::Middle, x, y))
    } else if cb == 34 {
        Some(MouseEvent::Press(MouseButton::Right, x, y))
    } else if cb == 35 {
        Some(MouseEvent::Release(x, y))
    } else if cb == 64 {
        Some(MouseEvent::Hold(x, y))
    } else if cb == 96 || cb == 97 {
        Some(MouseEvent::Press(MouseButton::WheelUp, x, y))
    } else {
        None
    }
}

fn tilde_event(n: u16) -> (r: Option<Key>)
    requires
        n <= 255,
    ensures
        r == tilde_key(n as nat),
{
    if n == 1 || n == 7 {
        Some(Key::Home)
    } else if n == 2 {
        Some(Key::Insert)
    } else if n == 3 {
        Some(Key::Delete)
    } else if n == 4 || n == 8 {
        Some(Key::End)
    } else if n == 5 {
        Some(Key::PageUp)
    } else if n == 6 {
        Some(Key::PageDown)
    } else if 11 <= n && n <= 15 {
        Some(Key::F((n - 10) as u8))
    } else if 17 <= n && n <= 21 {
        Some(Key::F((n - 11) as u8))
    } else if 23 <= n && n <= 24 {
        Some(Key::F((n - 12) as u8))
    } else {
        None
    }
}

fn numbered_event(fs: &Vec<Vec<u8>>, fin: u8) -> (r: Option<Event>)
    ensures
        r == numbered_csi(fields_view(fs@), fin),
{
    if fin == 0x4D {
        match rxvt_event(fs) {
            Some(m) => Some(Event::Mouse(m)),
            None => None,
        }
    } else if fin == 0x7E && fs.len() == 1 {
        assert(fields_view(fs@)[0] == fs@[0]@);
        match parse_number(&fs[0], 255) {
            Some(n) => match tilde_event(n as u16) {
                Some(k) => Some(Event::Key(k)),
                None => None,
            },
            None => None,
        }
    } else {
        None
    }
}


/// Decodes the control sequence that `s` starts with (`ESC [`).
fn parse_csi(s: &[u8]) -> (r: Result<(Event, usize), DecodeError>)
    requires
        s@.len() >= 2,
        s@[0] == 0x1B,
        s@[1] == 0x5B,
    ensures
        outcome_view(r) == csi_event(s@),
        r matches Ok((_, n)) ==> 1 <= n <= s@.len(),
{
    if s.len() < 3 {
        return Err(DecodeError::Incomplete);
    }
    let c = s[2];
    if c == 0x5B {
        if s.len() < 4 {
            Err(DecodeError::Incomplete)
        } else if s[3] >= 0x41 {
            Ok((Event::Key(Key::F(s[3] - 64)), 4))
        } else {
            Err(DecodeError::Csi)
        }
    } else if c == 0x44 {
        Ok((Event::Key(Key::Left), 3))
    } else if c == 0x43 {
        Ok((Event::Key(Key::Right), 3))
    } else if c == 0x41 {
        Ok((Event::Key(Key::Up), 3))
    } else if c == 0x42 {
        Ok((Event::Key(Key::Down), 3))
    } else if c == 0x48 {
        Ok((Event::Key(Key::Home), 3))
    } else if c == 0x46 {
        Ok((Event::Key(Key::End), 3))
    } else if c == 0x4D {
        if s.len() < 6 {
            Err(DecodeError::Incomplete)
        } else {
            Ok((Event::Mouse(x10_event(s[3], s[4], s[5])), 6))
        }
    } else if c == 0x3C {
        match find_sgr_end(s, 3) {
            None => Err(DecodeError::Incomplete),
            Some(j) => {
                let fs = split_fields(s, 3, j, 0x3B);
                match sgr_event(&fs, s[j]) {
                    Some(m) => Ok((Event::Mouse(m), j + 1)),
                    None => Err(DecodeError::Csi),
                }
            },
        }
    } else if 0x30 <= c && c <= 0x39 {
        match find_csi_end(s, 3) {
            None => Err(DecodeError::Incomplete),
            Some(j) => {
                let fs = split_fields(s, 2, j, 0x3B);
                match numbered_event(&fs, s[j]) {
                    Some(e) => Ok((e, j + 1)),
                    None => Err(DecodeError::Csi),
                }
            },
        }
    } else {
        Err(DecodeError::Csi)
    }
}

/// Decodes the first event of `input`, with the number of bytes it takes.
///
/// An empty input is the clean end of the stream; an input that stops in the
/// middle of an event gives `Incomplete`, and more bytes may complete it.
pub fn parse_event(input: &[u8]) -> (r: Result<(Event, usize), DecodeError>)
    ensures
        outcome_view(r) == event_of(input@),
        r matches Ok((_, n)) ==> 1 <= n <= input@.len(),
{
    if input.len() == 0 {
        return Err(DecodeError::EndOfStream);
    }
    let b = input[0];
    if b == 0x1B {
        if input.len() < 2 {
            return Err(DecodeError::Incomplete);
        }
        let c = input[1];
        if c == 0x4F {
            if input.len() < 3 {
                Err(DecodeError::Incomplete)
            } else if 0x50 <= input[2] && input[2] <= 0x53 {
                Ok((Event::Key(Key::F(input[2] - 0x4F)), 3))
            } else {
                Err(DecodeError::FunctionKey)
            }
        } else if c == 0x5B {
            parse_csi(input)
        } else {
            match char_from(input, 1) {
                Ok((ch, n)) => Ok((Event::Key(Key::Alt(ch)), n + 1)),
                Err(e) => Err(e),
            }
        }
    } else if b == 0x0A || b == 0x0D {
        Ok((Event::Key(Key::Char('\n')), 1))
    } else if b == 0x09 {
        Ok((Event::Key(Key::Char('\t')), 1))
    } else if b == 0x7F {
        Ok((Event::Key(Key::Backspace), 1))
    } else if 0x01 <= b && b <= 0x19 {
        Ok((Event::Key(Key::Ctrl((b - 0x01 + 0x61) as char)), 1))
    } else if 0x1C <= b && b <= 0x1F {
        Ok((Event::Key(Key::Ctrl((b - 0x1C + 0x34) as char)), 1))
    } else if b == 0 {
        Ok((Event::Key(Key::Null), 1))
    } else {
        match char_from(input, 0) {
            Ok((ch, n)) => Ok((Event::Key(Key::Char(ch)), n)),
            Err(e) => Err(e),
        }
    }
}


/// What feeding one byte to a [`Decoder`] gave.
#[derive(Debug, Clone, Copy, PartialEq, Eq, Structural)]
pub enum Fed {
    /// The bytes so far begin an event that is not complete yet.
    NeedMore,
    Decoded(Event),
    /// The bytes so far are no event; they are dropped.
    Failed(DecodeError),
}

/// Decodes a stream that arrives one byte at a time, holding the bytes of
/// the event that is not complete yet.
#[derive(Debug)]
pub struct Decoder {
    pending: Vec<u8>,
}

impl Decoder {
    pub closed spec fn pending(&self) -> Seq<u8> {
        self.pending@
    }

    pub fn new() -> (r: Decoder)
        ensures
            r.pending() == Seq::<u8>::empty(),
    {
        Decoder { pending: Vec::new() }
    }

    /// Adds one byte and decodes the pending bytes: an event keeps what
    /// follows it, an error drops them all.
    pub fn feed(&mut self, b: u8) -> (r: Fed)
        ensures
            ({
                let s = old(self).pending().push(b);
                match event_of(s) {
                    Ok((e, n)) => r == Fed::Decoded(e) && final(self).pending() == s.subrange(
                        n as int,
                        s.len() as int,
                    ),
                    Err(DecodeError::Incomplete) => r == Fed::NeedMore && final(self).pending()
                        == s,
                    Err(x) => r == Fed::Failed(x) && final(self).pending() == Seq::<u8>::empty(),
                }
            }),
    {
        self.pending.push(b);
        match parse_event(self.pending.as_slice()) {
            Ok((e, n)) => {
                let mut rest: Vec<u8> = Vec::new();
                let mut i = n;
                while i < self.pending.len()
                    invariant
                        n <= i <= self.pending@.len(),
                        rest@ == self.pending@.subrange(n as int, i as int),
                    decreases self.pending.len() - i,
                {
                    rest.push(self.pending[i]);
                    i += 1;
                }
                self.pending = rest;
                Fed::Decoded(e)
            },
            Err(DecodeError::Incomplete) => Fed::NeedMore,
            Err(x) => {
                self.pending = Vec::new();
                Fed::Failed(x)
            },
        }
    }

    /// Ends the stream: `None` when no byte is pending, which is a clean
    /// end; otherwise the last event was cut short.
    pub fn finish(&mut self) -> (r: Option<DecodeError>)
        ensures
            old(self).pending().len() == 0 ==> r is None,
            old(self).pending().len() > 0 ==> r == Some(DecodeError::Incomplete),
            final(self).pending() == Seq::<u8>::empty(),
    {
        let r = if self.pending.len() == 0 {
            None
        } else {
            Some(DecodeError::Incomplete)
        };
        self.pending = Vec::new();
        r
    }
}

/// A printable ASCII byte decodes, alone, to the character it encodes.
pub proof fn lemma_printable_ascii(b: u8)
    requires
        0x20 <= b <= 0x7E,
    ensures
        event_of(seq![b]) == Ok::<(Event, nat), DecodeError>((Event::Key(Key::Char(b as char)), 1)),
{
}

/// A control byte decodes to Ctrl with the letter at the same offset from
/// `a` as the byte from 0x01; tab, line feed and carriage return excepted,
/// which decode to the characters tab and newline.
pub proof fn lemma_control_byte(b: u8)
    requires
        0x01 <= b <= 0x19,
        b != 0x09,
        b != 0x0A,
        b != 0x0D,
    ensures
        event_of(seq![b]) == Ok::<(Event, nat), DecodeError>(
            (Event::Key(Key::Ctrl(('a' as u32 + (b - 0x01)) as char)), 1),
        ),
{
}

} // verus!
