//! Colors with one byte per channel, and their text form `rgb(r, g, b)`.

use vstd::prelude::*;

verus! {

/// The character of decimal digit `d`.
pub open spec fn digit_char(d: nat) -> char {
    if d == 0 { '0' }
    else if d == 1 { '1' }
    else if d == 2 { '2' }
    else if d == 3 { '3' }
    else if d == 4 { '4' }
    else if d == 5 { '5' }
    else if d == 6 { '6' }
    else if d == 7 { '7' }
    else if d == 8 { '8' }
    else { '9' }
}

/// `n` in decimal, without leading zeros.
pub open spec fn decimal(n: nat) -> Seq<char>
    decreases n,
{
    if n < 10 {
        seq![digit_char(n)]
    } else {
        decimal(n / 10).push(digit_char(n % 10))
    }
}

/// The text form of a color: `rgb(` and the three channels in decimal,
/// separated by `, `, then `)`.
pub open spec fn rgb_text(r: u8, g: u8, b: u8) -> Seq<char> {
    "rgb("@ + decimal(r as nat) + ", "@ + decimal(g as nat) + ", "@ + decimal(b as nat) + ")"@
}

/// The text of decimal digit `d`.
fn digit_text(d: u8) -> (text: &'static str)
    requires
        d < 10,
    ensures
        text@ == seq![digit_char(d as nat)],
{
    proof {
        reveal_strlit("0");
        reveal_strlit("1");
        reveal_strlit("2");
        reveal_strlit("3");
        reveal_strlit("4");
        reveal_strlit("5");
        reveal_strlit("6");
        reveal_strlit("7");
        reveal_strlit("8");
        reveal_strlit("9");
    }
    let text = match d {
        0 => "0",
        1 => "1",
        2 => "2",
        3 => "3",
        4 => "4",
        5 => "5",
        6 => "6",
        7 => "7",
        8 => "8",
        _ => "9",
    };
    assert(text@ =~= seq![digit_char(d as nat)]);
    text
}

/// Appends `n` in decimal to `out`.
fn append_decimal(out: &mut String, n: u8)
    ensures
        final(out)@ == old(out)@ + decimal(n as nat),
{
    let ones = n % 10;
    let tens = (n / 10) % 10;
    let hundreds = n / 100;
    proof {
        assert((n / 10) / 10 == n / 100) by (bit_vector);
        assert(decimal(n as nat) == decimal((n / 10) as nat).push(digit_char(ones as nat)) || n < 10);
        assert(decimal((n / 10) as nat) == decimal(hundreds as nat).push(digit_char(tens as nat)) || n < 100);
        assert(decimal(hundreds as nat) == seq![digit_char(hundreds as nat)]);
        assert(decimal(tens as nat) == seq![digit_char(tens as nat)]);
        assert(decimal(ones as nat) == seq![digit_char(ones as nat)]);
    }
    if n >= 100 {
        out.append(digit_text(hundreds));
        out.append(digit_text(tens));
    } else if n >= 10 {
        out.append(digit_text(tens));
    }
    out.append(digit_text(ones));
    assert(out@ =~= old(out)@ + decimal(n as nat));
}

/// A color with one byte per channel.
#[derive(Clone, Copy, Debug, PartialEq, Eq, Structural)]
pub struct Rgb {
    pub r: u8,
    pub g: u8,
    pub b: u8,
}

impl Rgb {
    /// The color with channels `r`, `g` and `b`.
    pub fn from_values(r: u8, g: u8, b: u8) -> (color: Rgb)
        ensures
            color == (Rgb { r, g, b }),
    {
        Rgb { r, g, b }
    }

    /// The text form of the color, as a drawing surface takes it:
    /// `rgb(r, g, b)` with each channel in decimal.
    pub fn as_rgb_string(&self) -> (text: String)
        ensures
            text@ == rgb_text(self.r, self.g, self.b),
    {
        let mut text = String::from_str("rgb(");
        append_decimal(&mut text, self.r);
        text.append(", ");
        append_decimal(&mut text, self.g);
        text.append(", ");
        append_decimal(&mut text, self.b);
        text.append(")");
        text
    }
}

} // verus!
