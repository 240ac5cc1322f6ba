use vstd::prelude::*;
use vstd::string::StringExecFns;

verus! {

/// The text of one decimal digit.
pub open spec fn digit_text(d: nat) -> Seq<char> {
    if d == 0 {
        "0"@
    } else if d == 1 {
        "1"@
    } else if d == 2 {
        "2"@
    } else if d == 3 {
        "3"@
    } else if d == 4 {
        "4"@
    } else if d == 5 {
        "5"@
    } else if d == 6 {
        "6"@
    } else if d == 7 {
        "7"@
    } else if d == 8 {
        "8"@
    } else {
        "9"@
    }
}

/// The decimal digits of `n`, without leading zeros.
pub open spec fn digits(n: nat) -> Seq<char>
    decreases n,
{
    if n < 10 {
        digit_text(n)
    } else {
        digits(n / 10) + digit_text(n % 10)
    }
}

/// The last `width` decimal digits of `n`, with leading zeros.
pub open spec fn padded(n: nat, width: nat) -> Seq<char>
    decreases width,
{
    if width == 0 {
        Seq::empty()
    } else {
        padded(n / 10, (width - 1) as nat) + digit_text(n % 10)
    }
}

/// The digits after the point of `n / 10^width`, trailing zeros dropped.
pub open spec fn fraction(n: nat, width: nat) -> Seq<char>
    decreases width,
{
    if width > 0 && n % 10 == 0 {
        fraction(n / 10, (width - 1) as nat)
    } else {
        padded(n, width)
    }
}

/// Millionths in a unit.
pub const MICRO: u32 = 1_000_000;

/// A number given in millionths, written in decimal: a minus sign when it is
/// negative, the whole part, then a point and the fraction when there is one
/// ("47.698", "-122.379", "3").
pub open spec fn micro_text(m: int) -> Seq<char> {
    let mag: int = if m < 0 { -m } else { m };
    let whole = mag / (MICRO as int);
    let frac = mag % (MICRO as int);
    (if m < 0 { "-"@ } else { Seq::empty() }) + digits(whole as nat) + (if frac == 0 {
        Seq::empty()
    } else {
        "."@ + fraction(frac as nat, 6)
    })
}

fn digit_str(d: u32) -> (r: &'static str)
    requires
        d < 10,
    ensures
        r@ == digit_text(d as nat),
{
    if d == 0 {
        "0"
    } else if d == 1 {
        "1"
    } else if d == 2 {
        "2"
    } else if d == 3 {
        "3"
    } else if d == 4 {
        "4"
    } else if d == 5 {
        "5"
    } else if d == 6 {
        "6"
    } else if d == 7 {
        "7"
    } else if d == 8 {
        "8"
    } else {
        "9"
    }
}

/// Appends the decimal digits of `n`.
pub fn push_digits(out: &mut String, n: u32)
    ensures
        final(out)@ == old(out)@ + digits(n as nat),
    decreases n,
{
    if n >= 10 {
        push_digits(out, n / 10);
    }
    out.append(digit_str(n % 10));
    assert(final(out)@ == old(out)@ + digits(n as nat));
}

/// Appends the last `width` digits of `n`, with leading zeros.
pub fn push_padded(out: &mut String, n: u32, width: u32)
    ensures
        final(out)@ == old(out)@ + padded(n as nat, width as nat),
    decreases width,
{
    if width > 0 {
        push_padded(out, n / 10, width - 1);
        out.append(digit_str(n % 10));
    }
    assert(final(out)@ == old(out)@ + padded(n as nat, width as nat));
}

/// Appends a number given in millionths, as [`micro_text`] writes it.
pub fn push_micro(out: &mut String, m: i32)
    ensures
        final(out)@ == old(out)@ + micro_text(m as int),
{
    let wide: i64 = m as i64;
    let mag: u32 = if wide < 0 { (-wide) as u32 } else { wide as u32 };
    let whole = mag / MICRO;
    let frac = mag % MICRO;
    let ghost start = out@;
    if m < 0 {
        out.append("-");
    }
    push_digits(out, whole);
    if frac != 0 {
        out.append(".");
        let mut n: u32 = frac;
        let mut width: u32 = 6;
        while width > 0 && n % 10 == 0
            invariant
                fraction(n as nat, width as nat) == fraction(frac as nat, 6),
                width <= 6,
            decreases width,
        {
            n = n / 10;
            width = width - 1;
        }
        push_padded(out, n, width);
    }
    assert(out@ == start + micro_text(m as int));
}

} // verus!
