//! The coordinate readout: a complex point as decimal text.
use crate::fixed::{FixedComplex, ONE};
use vstd::prelude::*;
use vstd::string::StringExecFns;

verus! {

/// Ten to the number of decimals shown.
pub const DECIMAL_SCALE: u64 = 100000000;

/// The decimal digit `d`.
pub open spec fn digit_char(d: int) -> char {
    seq!['0', '1', '2', '3', '4', '5', '6', '7', '8', '9'][d]
}

/// `n` in decimal, without leading zeros.
pub open spec fn digits(n: nat) -> Seq<char>
    decreases n,
{
    if n < 10 {
        seq![digit_char(n as int)]
    } else {
        digits(n / 10) + seq![digit_char((n % 10) as int)]
    }
}

/// The last `k` decimal digits of `n`, with leading zeros.
pub open spec fn padded(n: nat, k: nat) -> Seq<char>
    decreases k,
{
    if k == 0 {
        seq![]
    } else {
        padded(n / 10, (k - 1) as nat) + seq![digit_char((n % 10) as int)]
    }
}

/// `|v|` in units of `10^-8`, rounded to nearest with ties to even.
pub open spec fn rounded(v: int) -> nat {
    let a = (if v < 0 {
        -v
    } else {
        v
    }) * DECIMAL_SCALE;
    let q = a / (ONE as int);
    let rem = a % (ONE as int);
    if 2 * rem > ONE || (2 * rem == ONE && q % 2 == 1) {
        (q + 1) as nat
    } else {
        q as nat
    }
}

/// The fixed-point value `v` with eight decimals; a minus sign when
/// negative, and a plus sign otherwise where `plus` asks for it.
pub open spec fn fixed_text(v: int, plus: bool) -> Seq<char> {
    let sign = if v < 0 {
        seq!['-']
    } else if plus {
        seq!['+']
    } else {
        seq![]
    };
    sign + digits(rounded(v) / (DECIMAL_SCALE as nat)) + seq!['.'] + padded(
        rounded(v) % (DECIMAL_SCALE as nat),
        8,
    )
}

/// The readout of `c`: `"<re> <signed im>i"`, both with eight decimals.
pub open spec fn readout_text(c: (int, int)) -> Seq<char> {
    fixed_text(c.0, false) + seq![' '] + fixed_text(c.1, true) + seq!['i']
}

fn digit_str(d: u64) -> (r: &'static str)
    requires
        d < 10,
    ensures
        r@ == seq![digit_char(d as int)],
{
    proof {
        reveal_strlit("0");
        reveal_strlit("1");
        reveal_strlit("2");
        reveal_strlit("3");
        reveal_strlit("4");
        reveal_strlit("5");
        reveal_strlit("6");
        reveal_strlit("7");
        reveal_strlit("8");
        reveal_strlit("9");
    }
    match d {
        0 => "0",
        1 => "1",
        2 => "2",
        3 => "3",
        4 => "4",
        5 => "5",
        6 => "6",
        7 => "7",
        8 => "8",
        _ => "9",
    }
}

fn push_digits(s: &mut String, n: u64)
    ensures
        final(s)@ == old(s)@ + digits(n as nat),
    decreases n,
{
    if n >= 10 {
        push_digits(s, n / 10);
    }
    s.append(digit_str(n % 10));
    assert(final(s)@ =~= old(s)@ + digits(n as nat));
}

fn push_padded(s: &mut String, n: u64, k: u64)
    ensures
        final(s)@ == old(s)@ + padded(n as nat, k as nat),
    decreases k,
{
    if k > 0 {
        push_padded(s, n / 10, k - 1);
        s.append(digit_str(n % 10));
    }
    assert(final(s)@ =~= old(s)@ + padded(n as nat, k as nat));
}

/// `|v|` in units of `10^-8`, rounded to nearest with ties to even.
fn rounded_exec(v: i64) -> (r: u64)
    ensures
        r as int == rounded(v as int),
{
    let m: u128 = if v < 0 {
        (-(v as i128)) as u128
    } else {
        v as u128
    };
    let a = m * (DECIMAL_SCALE as u128);
    let one = ONE as u128;
    let q = a / one;
    let rem = a % one;
    proof {
        assert(q <= 0x8000_0000_0000_0000 * 100000000 / 281474976710656) by (nonlinear_arith)
            requires
                q == a / one,
                a == m * 100000000,
                m <= 0x8000_0000_0000_0000,
                one == 281474976710656,
        ;
    }
    if 2 * rem > one || (2 * rem == one && q % 2 == 1) {
        (q + 1) as u64
    } else {
        q as u64
    }
}

/// Appends `v` with eight decimals.
fn push_fixed(s: &mut String, v: i64, plus: bool)
    ensures
        final(s)@ == old(s)@ + fixed_text(v as int, plus),
{
    proof {
        reveal_strlit("-");
        reveal_strlit("+");
        reveal_strlit(".");
    }
    if v < 0 {
        s.append("-");
    } else if plus {
        s.append("+");
    }
    let q = rounded_exec(v);
    push_digits(s, q / DECIMAL_SCALE);
    s.append(".");
    push_padded(s, q % DECIMAL_SCALE, 8);
    assert(final(s)@ =~= old(s)@ + fixed_text(v as int, plus));
}

/// The coordinate readout of `c`: the real part and the signed imaginary
/// part, each with eight decimals, as in `-0.50000000 +1.25000000i`.
pub fn readout(c: &FixedComplex) -> (r: String)
    ensures
        r@ == readout_text(c@),
{
    proof {
        reveal_strlit(" ");
        reveal_strlit("i");
    }
    let mut s = String::new();
    push_fixed(&mut s, c.re, false);
    s.append(" ");
    push_fixed(&mut s, c.im, true);
    s.append("i");
    assert(s@ =~= readout_text(c@));
    s
}

} // verus!
