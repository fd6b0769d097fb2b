use vstd::prelude::*;

verus! {

/// One million: a channel value of `UNIT` stands for full intensity.
pub const UNIT: i64 = 1_000_000;

pub open spec fn digit_char(d: nat) -> char {
    if d == 0 { '0' } else if d == 1 { '1' } else if d == 2 { '2' } else if d == 3 { '3' }
    else if d == 4 { '4' } else if d == 5 { '5' } else if d == 6 { '6' } else if d == 7 { '7' }
    else if d == 8 { '8' } else { '9' }
}

/// Decimal digits of a natural number, most significant first.
pub open spec fn dec_digits(n: nat) -> Seq<char>
    decreases n,
{
    if n < 10 {
        seq![digit_char(n)]
    } else {
        dec_digits(n / 10).push(digit_char(n % 10))
    }
}

fn digit_str(d: u64) -> (r: &'static str)
    requires
        d < 10,
    ensures
        r@ == seq![digit_char(d as nat)],
{
    proof {
        reveal_strlit("0"); reveal_strlit("1"); reveal_strlit("2"); reveal_strlit("3");
        reveal_strlit("4"); reveal_strlit("5"); reveal_strlit("6"); reveal_strlit("7");
        reveal_strlit("8"); reveal_strlit("9");
    }
    let r = if d == 0 { "0" } else if d == 1 { "1" } else if d == 2 { "2" } else if d == 3 { "3" }
    else if d == 4 { "4" } else if d == 5 { "5" } else if d == 6 { "6" } else if d == 7 { "7" }
    else if d == 8 { "8" } else { "9" };
    assert(r@ =~= seq![digit_char(d as nat)]);
    r
}

/// Appends the decimal form of `n` to `s`.
pub fn push_decimal(s: &mut String, n: u64)
    ensures
        final(s)@ == old(s)@ + dec_digits(n as nat),
    decreases n,
{
    if n >= 10 {
        push_decimal(s, n / 10);
    }
    s.append(digit_str(n % 10));
    assert(dec_digits(n as nat) == if n < 10 { seq![digit_char(n as nat)] } else {
        dec_digits((n / 10) as nat).push(digit_char((n % 10) as nat)) });
    if n < 10 {
        assert(final(s)@ =~= old(s)@ + dec_digits(n as nat));
    } else {
        assert(final(s)@ =~= old(s)@ + dec_digits(n as nat));
    }
}


/// A colour with four channels in millionths: `UNIT` is intensity 1.0.
/// Values outside `0..=UNIT` are kept as read and clamped when rendered.
#[derive(Clone, Copy, Debug, PartialEq, Eq, Structural)]
pub struct Rgba {
    pub red: i32,
    pub green: i32,
    pub blue: i32,
    pub alpha: i32,
}

/// A channel scaled to `0..=255`: rounded half away from zero, then clamped.
pub open spec fn channel_byte(v: int) -> nat {
    if v <= 0 {
        0
    } else if (v * 255 + 500_000) / 1_000_000 > 255 {
        255
    } else {
        ((v * 255 + 500_000) / 1_000_000) as nat
    }
}

/// True when the alpha channel counts as fully opaque (within 0.001 of 1.0).
pub open spec fn is_opaque(a: int) -> bool {
    -1000 < a - 1_000_000 < 1000
}

pub open spec fn abs(a: int) -> nat {
    if a < 0 { (-a) as nat } else { a as nat }
}

/// `|a|` in hundredths, rounded half up.
pub open spec fn hundredths(a: int) -> nat {
    (abs(a) + 5000) / 10000
}

/// Two-decimal rendering of an alpha value.
pub open spec fn alpha_text(a: int) -> Seq<char> {
    if is_opaque(a) {
        "1.00"@
    } else {
        (if a < 0 { "-"@ } else { Seq::empty() }) + dec_digits(hundredths(a) / 100) + "."@
            + dec_digits(hundredths(a) % 100 / 10) + dec_digits(hundredths(a) % 10)
    }
}

/// The CSS `rgba(...)` form of a colour.
pub open spec fn css_of(c: Rgba) -> Seq<char> {
    "rgba("@ + dec_digits(channel_byte(c.red as int)) + ", "@ + dec_digits(channel_byte(
        c.green as int,
    )) + ", "@ + dec_digits(channel_byte(c.blue as int)) + ", "@ + alpha_text(c.alpha as int)
        + ")"@
}

fn to_byte(v: i32) -> (r: u64)
    ensures
        r as nat == channel_byte(v as int),
{
    if v <= 0 {
        0
    } else {
        let q: i64 = (v as i64 * 255 + 500_000) / 1_000_000;
        if q > 255 {
            255
        } else {
            q as u64
        }
    }
}

fn push_alpha(s: &mut String, a: i32)
    ensures
        final(s)@ == old(s)@ + alpha_text(a as int),
{
    let wide: i64 = a as i64;
    if -1000 < wide - 1_000_000 && wide - 1_000_000 < 1000 {
        s.append("1.00");
    } else {
        let mag: u64 = if wide < 0 { (-wide) as u64 } else { wide as u64 };
        let h: u64 = (mag + 5000) / 10000;
        if wide < 0 {
            s.append("-");
        }
        push_decimal(s, h / 100);
        s.append(".");
        push_decimal(s, h % 100 / 10);
        push_decimal(s, h % 10);
        assert(s@ =~= old(s)@ + alpha_text(a as int));
    }
}

impl Rgba {
    /// Renders the colour as `rgba(R, G, B, A)`: each colour channel scaled to
    /// `0..=255` with clamping, alpha with two decimals.
    pub fn to_css(&self) -> (r: String)
        ensures
            r@ == css_of(*self),
    {
        let mut s = String::new();
        s.append("rgba(");
        push_decimal(&mut s, to_byte(self.red));
        s.append(", ");
        push_decimal(&mut s, to_byte(self.green));
        s.append(", ");
        push_decimal(&mut s, to_byte(self.blue));
        s.append(", ");
        push_alpha(&mut s, self.alpha);
        s.append(")");
        assert(s@ =~= css_of(*self));
        s
    }
}

/// A channel at or above full intensity renders as 255, one at or below zero
/// as 0: rendering clamps, it never wraps.
pub proof fn lemma_channel_clamps(v: int)
    ensures
        v >= UNIT ==> channel_byte(v) == 255,
        v <= 0 ==> channel_byte(v) == 0,
        channel_byte(v) <= 255,
{
    if v >= UNIT {
        assert((v * 255 + 500_000) / 1_000_000 >= 255) by (nonlinear_arith)
            requires v >= 1_000_000;
    }
}

/// An alpha within 0.001 of 1.0 renders as `1.00`.
pub proof fn lemma_opaque_alpha(a: int)
    requires
        -1000 < a - UNIT < 1000,
    ensures
        alpha_text(a) == "1.00"@,
{
}

} // verus!
