//! Text the applications show: the decimal rendering of a counter and the
//! tray tooltip built from a recycle-bin size. The tooltip shows the size in
//! megabytes with two decimals; that is integer arithmetic here — hundredths
//! of a megabyte, rounded half up — so the whole rendering is verified down to
//! the characters.

use vstd::prelude::*;

verus! {

/// The character of one decimal digit.
pub open spec fn spec_digit_char(d: int) -> char
    recommends
        0 <= d < 10,
{
    if d == 0 {
        '0'
    } else if d == 1 {
        '1'
    } else if d == 2 {
        '2'
    } else if d == 3 {
        '3'
    } else if d == 4 {
        '4'
    } else if d == 5 {
        '5'
    } else if d == 6 {
        '6'
    } else if d == 7 {
        '7'
    } else if d == 8 {
        '8'
    } else {
        '9'
    }
}

/// The usual decimal rendering of a natural number: no sign, no leading
/// zeros (a single `0` for zero).
pub open spec fn spec_decimal(n: nat) -> Seq<char>
    decreases n,
{
    if n < 10 {
        seq![spec_digit_char(n as int)]
    } else {
        spec_decimal(n / 10).push(spec_digit_char((n % 10) as int))
    }
}

/// A two-digit rendering of a number below one hundred: zero-padded.
pub open spec fn spec_two_digits(f: int) -> Seq<char>
    recommends
        0 <= f < 100,
{
    seq![spec_digit_char(f / 10), spec_digit_char(f % 10)]
}

/// A recycle-bin size in bytes as hundredths of a megabyte (the megabyte
/// taken as one million bytes), rounded half up.
pub open spec fn spec_mb_hundredths(bytes: u64) -> int {
    (bytes + 5000) / 10000
}

/// The tray tooltip for a recycle-bin size: the megabytes with two decimals.
pub open spec fn spec_bin_tooltip(bytes: u64) -> Seq<char> {
    let h = spec_mb_hundredths(bytes);
    "Корзина: "@ + spec_decimal((h / 100) as nat) + "."@ + spec_two_digits(h % 100) + " МБ"@
}

/// The one-character string of one decimal digit.
fn digit_str(d: u64) -> (r: &'static str)
    requires
        d < 10,
    ensures
        r@ =~= seq![spec_digit_char(d as int)],
{
    proof {
        reveal_strlit("0");
        reveal_strlit("1");
        reveal_strlit("2");
        reveal_strlit("3");
        reveal_strlit("4");
        reveal_strlit("5");
        reveal_strlit("6");
        reveal_strlit("7");
        reveal_strlit("8");
        reveal_strlit("9");
    }
    if d == 0 {
        "0"
    } else if d == 1 {
        "1"
    } else if d == 2 {
        "2"
    } else if d == 3 {
        "3"
    } else if d == 4 {
        "4"
    } else if d == 5 {
        "5"
    } else if d == 6 {
        "6"
    } else if d == 7 {
        "7"
    } else if d == 8 {
        "8"
    } else {
        "9"
    }
}

/// The decimal rendering of `n`, exactly as `spec_decimal` states it.
pub fn u64_to_string(n: u64) -> (r: String)
    ensures
        r@ == spec_decimal(n as nat),
    decreases n,
{
    if n < 10 {
        digit_str(n).to_owned()
    } else {
        let mut s = u64_to_string(n / 10);
        s.append(digit_str(n % 10));
        proof {
            assert(spec_decimal((n / 10) as nat).push(spec_digit_char((n % 10) as int))
                =~= spec_decimal((n / 10) as nat) + seq![spec_digit_char((n % 10) as int)]);
        }
        s
    }
}

/// The zero-padded two-digit rendering of a number below one hundred.
pub fn two_digit_string(f: u64) -> (r: String)
    requires
        f < 100,
    ensures
        r@ == spec_two_digits(f as int),
{
    let mut s = digit_str(f / 10).to_owned();
    s.append(digit_str(f % 10));
    proof {
        assert(seq![spec_digit_char((f / 10) as int)] + seq![spec_digit_char((f % 10) as int)]
            =~= spec_two_digits(f as int));
    }
    s
}

/// The tray tooltip for a recycle-bin size in bytes, as `spec_bin_tooltip`
/// states it: megabytes with two decimals, rounded half up.
pub fn format_bin_tooltip(bytes: u64) -> (r: String)
    ensures
        r@ == spec_bin_tooltip(bytes),
{
    let whole: u64 = bytes / 10000;
    let carry: u64 = if bytes % 10000 >= 5000 {
        1
    } else {
        0
    };
    let hundredths: u64 = whole + carry;
    proof {
        let b = bytes as int;
        vstd::arithmetic::div_mod::lemma_fundamental_div_mod(b, 10000);
        let q = b / 10000;
        let rem = b % 10000;
        if rem >= 5000 {
            assert((10000 * q + rem + 5000) / 10000 == q + 1) by (nonlinear_arith)
                requires
                    5000 <= rem < 10000,
                    q >= 0,
            ;
        } else {
            assert((10000 * q + rem + 5000) / 10000 == q) by (nonlinear_arith)
                requires
                    0 <= rem < 5000,
                    q >= 0,
            ;
        }
        assert(hundredths == spec_mb_hundredths(bytes));
    }
    let mut s = "Корзина: ".to_owned();
    let whole_mb = u64_to_string(hundredths / 100);
    s.append(whole_mb.as_str());
    s.append(".");
    let frac = two_digit_string(hundredths % 100);
    s.append(frac.as_str());
    s.append(" МБ");
    s
}

} // verus!
