//! Text primitives shared by the renderers: joining of parts and the decimal
//! notation of machine integers.
use vstd::prelude::*;
use vstd::string::*;

verus! {

/// The parts of `parts` in order, with `sep` between each two neighbours.
pub open spec fn join(parts: Seq<Seq<char>>, sep: Seq<char>) -> Seq<char>
    decreases parts.len(),
{
    if parts.len() == 0 {
        Seq::empty()
    } else if parts.len() == 1 {
        parts[0]
    } else {
        join(parts.drop_last(), sep) + sep + parts.last()
    }
}

/// The concatenation of all parts, in order.
pub open spec fn concat_all(parts: Seq<Seq<char>>) -> Seq<char>
    decreases parts.len(),
{
    if parts.len() == 0 {
        Seq::empty()
    } else {
        concat_all(parts.drop_last()) + parts.last()
    }
}

/// The character that writes the digit `d`, for `0 <= d <= 9`.
pub open spec fn digit_char(d: int) -> char {
    if d == 0 {
        '0'
    } else if d == 1 {
        '1'
    } else if d == 2 {
        '2'
    } else if d == 3 {
        '3'
    } else if d == 4 {
        '4'
    } else if d == 5 {
        '5'
    } else if d == 6 {
        '6'
    } else if d == 7 {
        '7'
    } else if d == 8 {
        '8'
    } else {
        '9'
    }
}

/// Decimal notation of a natural number: no sign, no leading zero, `0` for zero.
pub open spec fn decimal_nat(n: nat) -> Seq<char>
    decreases n,
{
    if n < 10 {
        seq![digit_char(n as int)]
    } else {
        decimal_nat(n / 10).push(digit_char((n % 10) as int))
    }
}

/// Decimal notation of an integer: a leading `-` for negative values.
pub open spec fn decimal(v: int) -> Seq<char> {
    if v < 0 {
        seq!['-'] + decimal_nat((-v) as nat)
    } else {
        decimal_nat(v as nat)
    }
}

/// `true` or `false`, as the query language writes them.
pub open spec fn bool_text(b: bool) -> Seq<char> {
    if b {
        "true"@
    } else {
        "false"@
    }
}

fn digit_text(d: u8) -> (out: &'static str)
    requires
        d < 10,
    ensures
        out@ == seq![digit_char(d as int)],
{
    proof {
        reveal_strlit("0");
        reveal_strlit("1");
        reveal_strlit("2");
        reveal_strlit("3");
        reveal_strlit("4");
        reveal_strlit("5");
        reveal_strlit("6");
        reveal_strlit("7");
        reveal_strlit("8");
        reveal_strlit("9");
    }
    let out = match d {
        0 => "0",
        1 => "1",
        2 => "2",
        3 => "3",
        4 => "4",
        5 => "5",
        6 => "6",
        7 => "7",
        8 => "8",
        _ => "9",
    };
    assert(out@ =~= seq![digit_char(d as int)]);
    out
}

fn magnitude_to_decimal(value: u128) -> (out: String)
    ensures
        out@ == decimal_nat(value as nat),
{
    let mut rest: u128 = value / 10;
    let mut out = String::from_str(digit_text((value % 10) as u8));
    while rest > 0
        invariant
            decimal_nat(value as nat) == (if rest > 0 {
                decimal_nat(rest as nat)
            } else {
                Seq::<char>::empty()
            }) + out@,
        decreases rest,
    {
        let head = String::from_str(digit_text((rest % 10) as u8));
        let ghost before = out@;
        out = head.concat(out.as_str());
        proof {
            let next = (rest / 10) as nat;
            let d = seq![digit_char((rest % 10) as int)];
            assert(decimal_nat(rest as nat) =~= (if next > 0 {
                decimal_nat(next)
            } else {
                Seq::<char>::empty()
            }) + d);
            assert(decimal_nat(value as nat) =~= (if next > 0 {
                decimal_nat(next)
            } else {
                Seq::<char>::empty()
            }) + (d + before));
        }
        rest = rest / 10;
    }
    out
}

/// Writes `value` in decimal notation.
pub fn usize_to_decimal(value: usize) -> (out: String)
    ensures
        out@ == decimal_nat(value as nat),
{
    magnitude_to_decimal(value as u128)
}

/// Writes `value` in decimal notation, with a leading `-` when it is negative.
pub fn isize_to_decimal(value: isize) -> (out: String)
    ensures
        out@ == decimal(value as int),
{
    let wide: i128 = value as i128;
    if wide < 0 {
        let digits = magnitude_to_decimal((-wide) as u128);
        proof {
            reveal_strlit("-");
            assert("-"@ =~= seq!['-']);
        }
        String::from_str("-").concat(digits.as_str())
    } else {
        magnitude_to_decimal(wide as u128)
    }
}

/// Writes `true` or `false`.
pub fn bool_to_text(value: bool) -> (out: String)
    ensures
        out@ == bool_text(value),
{
    if value {
        String::from_str("true")
    } else {
        String::from_str("false")
    }
}

/// Whether two string slices hold the same characters.
pub fn same_text(a: &str, b: &str) -> (same: bool)
    ensures
        same == (a@ == b@),
{
    let left = a.to_owned();
    let right = b.to_owned();
    left == right
}

} // verus!
