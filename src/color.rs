//! `#RRGGBB` colors: three bytes written as uppercase hexadecimal.
use vstd::prelude::*;
use vstd::string::*;

verus! {

/// A color as its red, green and blue bytes.
#[derive(Clone, Copy, Debug, PartialEq, Eq, Structural)]
pub struct Color {
    pub r: u8,
    pub g: u8,
    pub b: u8,
}

/// Why a color string could not be read.
#[derive(Clone, Copy, Debug, PartialEq, Eq, Structural)]
pub enum ColorError {
    /// The input is not exactly seven characters long.
    Length,
    /// The first character is not `#`.
    MissingHash,
    /// One of the six characters after `#` is not a hexadecimal digit.
    NotHex,
}

/// The sixteen digits, uppercase, in order of value.
pub open spec fn upper_hex_digits() -> Seq<char> {
    seq!['0', '1', '2', '3', '4', '5', '6', '7', '8', '9', 'A', 'B', 'C', 'D', 'E', 'F']
}

/// The value of a hexadecimal digit, upper or lower case.
pub open spec fn hex_value(c: char) -> Option<u8> {
    let n = c as u32;
    if 48 <= n && n <= 57 {
        Some((n - 48) as u8)
    } else if 65 <= n && n <= 70 {
        Some((n - 55) as u8)
    } else if 97 <= n && n <= 102 {
        Some((n - 87) as u8)
    } else {
        None
    }
}

/// The byte that two hexadecimal digits spell, high digit first.
pub open spec fn byte_of(hi: char, lo: char) -> u8 {
    (hex_value(hi)->0 * 16 + hex_value(lo)->0) as u8
}

/// `s` is `#` followed by six hexadecimal digits.
pub open spec fn is_color_text(s: Seq<char>) -> bool {
    &&& s.len() == 7
    &&& s[0] == '#'
    &&& forall|i: int| 1 <= i < 7 ==> (#[trigger] hex_value(s[i])) is Some
}

/// What reading `s` gives: the first failing check, or the color.
pub open spec fn parse_spec(s: Seq<char>) -> Result<Color, ColorError> {
    if s.len() != 7 {
        Err(ColorError::Length)
    } else if s[0] != '#' {
        Err(ColorError::MissingHash)
    } else if !is_color_text(s) {
        Err(ColorError::NotHex)
    } else {
        Ok(Color { r: byte_of(s[1], s[2]), g: byte_of(s[3], s[4]), b: byte_of(s[5], s[6]) })
    }
}

/// A byte as two uppercase hexadecimal digits.
pub open spec fn byte_text(x: u8) -> Seq<char> {
    seq![upper_hex_digits()[x as int / 16], upper_hex_digits()[x as int % 16]]
}

/// The text of a color: `#`, then red, green and blue as two digits each.
pub open spec fn emit_spec(c: Color) -> Seq<char> {
    seq!['#'] + byte_text(c.r) + byte_text(c.g) + byte_text(c.b)
}

fn hex_digit_value(c: char) -> (r: Option<u8>)
    ensures
        r == hex_value(c),
{
    let n = c as u32;
    if 48 <= n && n <= 57 {
        Some((n - 48) as u8)
    } else if 65 <= n && n <= 70 {
        Some((n - 55) as u8)
    } else if 97 <= n && n <= 102 {
        Some((n - 87) as u8)
    } else {
        None
    }
}

/// Reads the two digits at `i` and `i + 1` as one byte.
fn parse_byte(s: &str, i: usize) -> (r: Option<u8>)
    requires
        s@.len() == 7,
        1 <= i <= 5,
    ensures
        r is Some <==> (hex_value(s@[i as int]) is Some && hex_value(s@[i + 1]) is Some),
        r is Some ==> r->0 == byte_of(s@[i as int], s@[i + 1]),
{
    let hi = hex_digit_value(s.get_char(i));
    let lo = hex_digit_value(s.get_char(i + 1));
    match (hi, lo) {
        (Some(h), Some(l)) => Some(h * 16 + l),
        _ => None,
    }
}

/// The digit of value `d`, as a string of one character.
fn digit_text(d: u8) -> (r: &'static str)
    requires
        d < 16,
    ensures
        r@ == seq![upper_hex_digits()[d as int]],
{
    let digits = "0123456789ABCDEF";
    proof {
        reveal_strlit("0123456789ABCDEF");
        assert(digits@ =~= upper_hex_digits());
    }
    let r = digits.substring_char(d as usize, d as usize + 1);
    assert(r@ =~= seq![upper_hex_digits()[d as int]]);
    r
}

fn append_byte(out: &mut String, x: u8)
    ensures
        final(out)@ == old(out)@ + byte_text(x),
{
    out.append(digit_text(x / 16));
    out.append(digit_text(x % 16));
    assert(final(out)@ =~= old(out)@ + byte_text(x));
}

impl Color {
    /// Reads `#RRGGBB`, digits in either case.
    pub fn deserialize(s: &str) -> (r: Result<Color, ColorError>)
        ensures
            r == parse_spec(s@),
    {
        if s.unicode_len() != 7 {
            return Err(ColorError::Length);
        }
        if s.get_char(0) != '#' {
            return Err(ColorError::MissingHash);
        }
        let r = parse_byte(s, 1);
        let g = parse_byte(s, 3);
        let b = parse_byte(s, 5);
        match (r, g, b) {
            (Some(r), Some(g), Some(b)) => {
                assert(is_color_text(s@)) by {
                    assert forall|i: int| 1 <= i < 7 implies (#[trigger] hex_value(s@[i])) is Some by {
                        if i == 1 || i == 2 {
                        } else if i == 3 || i == 4 {
                        } else {
                        }
                    }
                }
                Ok(Color { r, g, b })
            },
            _ => {
                proof {
                    let w = if r is None {
                        if hex_value(s@[1]) is None { 1int } else { 2int }
                    } else if g is None {
                        if hex_value(s@[3]) is None { 3int } else { 4int }
                    } else {
                        if hex_value(s@[5]) is None { 5int } else { 6int }
                    };
                    assert(hex_value(s@[w]) is None);
                }
                Err(ColorError::NotHex)
            },
        }
    }

    /// Writes `#RRGGBB` with uppercase digits.
    pub fn serialize(&self) -> (r: String)
        ensures
            r@ == emit_spec(*self),
    {
        let mut out = String::from_str("#");
        proof {
            reveal_strlit("#");
        }
        append_byte(&mut out, self.r);
        append_byte(&mut out, self.g);
        append_byte(&mut out, self.b);
        assert(out@ =~= emit_spec(*self));
        out
    }
}

proof fn lemma_digit_value(d: int)
    requires
        0 <= d < 16,
    ensures
        hex_value(upper_hex_digits()[d]) == Some(d as u8),
{
    if d < 10 {
        assert(d == 0 || d == 1 || d == 2 || d == 3 || d == 4 || d == 5 || d == 6 || d == 7
            || d == 8 || d == 9);
    } else {
        assert(d == 10 || d == 11 || d == 12 || d == 13 || d == 14 || d == 15);
    }
}

proof fn lemma_byte_round_trip(x: u8)
    ensures
        hex_value(byte_text(x)[0]) is Some,
        hex_value(byte_text(x)[1]) is Some,
        byte_of(byte_text(x)[0], byte_text(x)[1]) == x,
{
    lemma_digit_value(x as int / 16);
    lemma_digit_value(x as int % 16);
}

/// Reading the text that a color is written as gives that color back.
pub proof fn lemma_color_round_trip(c: Color)
    ensures
        parse_spec(emit_spec(c)) == Ok::<Color, ColorError>(c),
{
    lemma_byte_round_trip(c.r);
    lemma_byte_round_trip(c.g);
    lemma_byte_round_trip(c.b);
    let s = emit_spec(c);
    assert(s[1] == byte_text(c.r)[0] && s[2] == byte_text(c.r)[1]);
    assert(s[3] == byte_text(c.g)[0] && s[4] == byte_text(c.g)[1]);
    assert(s[5] == byte_text(c.b)[0] && s[6] == byte_text(c.b)[1]);
    assert(is_color_text(s)) by {
        assert forall|i: int| 1 <= i < 7 implies (#[trigger] hex_value(s[i])) is Some by {
            if i == 1 || i == 2 {
            } else if i == 3 || i == 4 {
            } else {
            }
        }
    }
}

/// A text is read as a color exactly when it is `#` and six hexadecimal
/// digits; every other text is refused.
pub proof fn lemma_color_accepts_exactly(s: Seq<char>)
    ensures
        parse_spec(s) is Ok <==> is_color_text(s),
{
}

} // verus!
