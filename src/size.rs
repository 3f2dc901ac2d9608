//! Human-readable file sizes: the size scaled to the largest unit up to
//! terabytes that leaves at least one whole unit, with two decimals.
use vstd::prelude::*;

verus! {

/// The ten decimal digits, in order of value.
pub open spec fn decimal_digits() -> Seq<char> {
    seq!['0', '1', '2', '3', '4', '5', '6', '7', '8', '9']
}

/// Decimal text of `n`, without leading zeros (`0` for zero).
pub open spec fn decimal(n: nat) -> Seq<char>
    decreases n,
{
    if n < 10 {
        seq![decimal_digits()[n as int]]
    } else {
        decimal(n / 10) + seq![decimal_digits()[(n % 10) as int]]
    }
}

/// Index of the unit a size is shown in: B, KB, MB, GB, TB.
pub open spec fn unit_index(n: nat) -> nat {
    if n >= 1099511627776 {
        4
    } else if n >= 1073741824 {
        3
    } else if n >= 1048576 {
        2
    } else if n >= 1024 {
        1
    } else {
        0
    }
}

/// Bytes in the unit of index `k`: 1024 to the power `k`.
pub open spec fn unit_bytes(k: nat) -> nat {
    if k == 4 {
        1099511627776
    } else if k == 3 {
        1073741824
    } else if k == 2 {
        1048576
    } else if k == 1 {
        1024
    } else {
        1
    }
}

/// Name of the unit of index `k`.
pub open spec fn unit_name(k: nat) -> Seq<char> {
    if k == 4 {
        seq!['T', 'B']
    } else if k == 3 {
        seq!['G', 'B']
    } else if k == 2 {
        seq!['M', 'B']
    } else if k == 1 {
        seq!['K', 'B']
    } else {
        seq!['B']
    }
}

/// `a / d` rounded to the nearest integer, ties to the even neighbour.
pub open spec fn round_half_even(a: nat, d: nat) -> nat
    recommends
        d > 0,
{
    let q = a / d;
    let r = a % d;
    if 2 * r > d || (2 * r == d && q % 2 == 1) {
        q + 1
    } else {
        q
    }
}

/// The size in hundredths of its display unit, rounded.
pub open spec fn size_hundredths(n: nat) -> nat {
    round_half_even(n * 100, unit_bytes(unit_index(n)))
}

/// The display text of a size of `n` bytes, such as `1.50 KB`.
pub open spec fn size_text(n: nat) -> Seq<char> {
    let h = size_hundredths(n);
    let c = h % 100;
    decimal(h / 100) + seq!['.', decimal_digits()[(c / 10) as int], decimal_digits()[(c % 10) as int], ' ']
        + unit_name(unit_index(n))
}

/// The one-character text of a decimal digit.
fn digit_text(d: u128) -> (r: &'static str)
    requires
        d < 10,
    ensures
        r@ == seq![decimal_digits()[d as int]],
{
    proof {
        reveal_strlit("0");
        reveal_strlit("1");
        reveal_strlit("2");
        reveal_strlit("3");
        reveal_strlit("4");
        reveal_strlit("5");
        reveal_strlit("6");
        reveal_strlit("7");
        reveal_strlit("8");
        reveal_strlit("9");
    }
    let r = if d == 0 {
        "0"
    } else if d == 1 {
        "1"
    } else if d == 2 {
        "2"
    } else if d == 3 {
        "3"
    } else if d == 4 {
        "4"
    } else if d == 5 {
        "5"
    } else if d == 6 {
        "6"
    } else if d == 7 {
        "7"
    } else if d == 8 {
        "8"
    } else {
        "9"
    };
    assert(r@ =~= seq![decimal_digits()[d as int]]);
    r
}

/// Appends the decimal text of `n` to `out`.
pub fn push_decimal(out: &mut String, n: u128)
    ensures
        final(out)@ == old(out)@ + decimal(n as nat),
    decreases n,
{
    if n < 10 {
        out.append(digit_text(n));
    } else {
        push_decimal(out, n / 10);
        out.append(digit_text(n % 10));
        assert(final(out)@ =~= old(out)@ + decimal(n as nat));
    }
}

/// Renders a byte count for people: divided by 1024 while it is at least
/// 1024, up to terabytes, and shown with two decimals and the unit name,
/// as in `1.50 KB` for 1536 bytes. The quotient is exact and rounded to
/// two decimals, ties to even.
pub fn human_readable_size(size: u64) -> (r: String)
    ensures
        r@ == size_text(size as nat),
{
    let (unit, name): (u128, &str) = if size >= 1099511627776 {
        (1099511627776, "TB")
    } else if size >= 1073741824 {
        (1073741824, "GB")
    } else if size >= 1048576 {
        (1048576, "MB")
    } else if size >= 1024 {
        (1024, "KB")
    } else {
        (1, "B")
    };
    proof {
        reveal_strlit("TB");
        reveal_strlit("GB");
        reveal_strlit("MB");
        reveal_strlit("KB");
        reveal_strlit("B");
        reveal_strlit(".");
        reveal_strlit(" ");
    }
    assert(unit as nat == unit_bytes(unit_index(size as nat)));
    assert(name@ =~= unit_name(unit_index(size as nat)));
    let a: u128 = size as u128 * 100;
    let q: u128 = a / unit;
    let rem: u128 = a % unit;
    let h: u128 = if 2 * rem > unit || (2 * rem == unit && q % 2 == 1) {
        q + 1
    } else {
        q
    };
    assert(h as nat == size_hundredths(size as nat));
    let c: u128 = h % 100;
    let mut r = String::new();
    push_decimal(&mut r, h / 100);
    r.append(".");
    r.append(digit_text(c / 10));
    r.append(digit_text(c % 10));
    r.append(" ");
    r.append(name);
    assert(r@ =~= size_text(size as nat));
    r
}

} // verus!
