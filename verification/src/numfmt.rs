use vstd::prelude::*;
use vstd::string::StringExecFns;

verus! {

/// The decimal digit character for `d`; meaningful for `d < 10`.
pub open spec fn digit_char(d: nat) -> char {
    if d == 0 {
        '0'
    } else if d == 1 {
        '1'
    } else if d == 2 {
        '2'
    } else if d == 3 {
        '3'
    } else if d == 4 {
        '4'
    } else if d == 5 {
        '5'
    } else if d == 6 {
        '6'
    } else if d == 7 {
        '7'
    } else if d == 8 {
        '8'
    } else {
        '9'
    }
}

/// The usual decimal rendering of `n`: most significant digit first, no
/// leading zeros, a single `'0'` for zero.
pub open spec fn dec_str(n: nat) -> Seq<char>
    decreases n,
{
    if n < 10 {
        seq![digit_char(n)]
    } else {
        dec_str(n / 10).push(digit_char(n % 10))
    }
}

/// Two-decimal fixed-point rendering of a count of hundredths: an optional
/// sign, the whole part, a point, and exactly two fractional digits.  This is
/// the shape every numeric attribute of the rendered document has.
pub open spec fn fixed_str(h: int) -> Seq<char> {
    let a = (if h >= 0 {
        h
    } else {
        -h
    }) as nat;
    let sign: Seq<char> = if h < 0 {
        seq!['-']
    } else {
        Seq::empty()
    };
    sign + dec_str(a / 100) + seq!['.'] + seq![digit_char((a % 100) / 10), digit_char(a % 10)]
}

/// Appends the single digit character for `d` to `s`.
fn push_digit(s: &mut String, d: u64)
    requires
        d < 10,
    ensures
        final(s)@ == old(s)@ + seq![digit_char(d as nat)],
{
    let t: &str = if d == 0 {
        "0"
    } else if d == 1 {
        "1"
    } else if d == 2 {
        "2"
    } else if d == 3 {
        "3"
    } else if d == 4 {
        "4"
    } else if d == 5 {
        "5"
    } else if d == 6 {
        "6"
    } else if d == 7 {
        "7"
    } else if d == 8 {
        "8"
    } else {
        "9"
    };
    proof {
        reveal_strlit("0");
        reveal_strlit("1");
        reveal_strlit("2");
        reveal_strlit("3");
        reveal_strlit("4");
        reveal_strlit("5");
        reveal_strlit("6");
        reveal_strlit("7");
        reveal_strlit("8");
        reveal_strlit("9");
        assert(t@ =~= seq![digit_char(d as nat)]);
    }
    s.append(t);
}

/// Appends the decimal rendering of `n` to `s`.
pub(crate) fn push_u64(s: &mut String, n: u64)
    ensures
        final(s)@ == old(s)@ + dec_str(n as nat),
    decreases n,
{
    if n < 10 {
        push_digit(s, n);
    } else {
        push_u64(s, n / 10);
        push_digit(s, n % 10);
        proof {
            assert(s@ =~= old(s)@ + dec_str(n as nat));
        }
    }
}

/// The decimal rendering of `n`, exactly as `dec_str` describes it.
pub fn format_u64(n: u64) -> (r: String)
    ensures
        r@ == dec_str(n as nat),
{
    let mut s = String::new();
    push_u64(&mut s, n);
    proof {
        assert(s@ =~= dec_str(n as nat));
    }
    s
}

/// The absolute value of `h`, widened so that every `i64` has one.
fn abs_u64(h: i64) -> (r: u64)
    ensures
        r as int == (if h >= 0 {
            h as int
        } else {
            -(h as int)
        }),
{
    if h >= 0 {
        h as u64
    } else {
        let wide: i128 = h as i128;
        (-wide) as u64
    }
}

/// Appends the two-decimal fixed-point rendering of `h` hundredths to `s`.
pub(crate) fn push_fixed(s: &mut String, h: i64)
    ensures
        final(s)@ == old(s)@ + fixed_str(h as int),
{
    if h < 0 {
        s.append("-");
    }
    let a = abs_u64(h);
    push_u64(s, a / 100);
    s.append(".");
    push_digit(s, (a % 100) / 10);
    push_digit(s, a % 10);
    proof {
        reveal_strlit("-");
        reveal_strlit(".");
        assert(s@ =~= old(s)@ + fixed_str(h as int));
    }
}

/// The two-decimal fixed-point rendering of `h` hundredths, exactly as
/// `fixed_str` describes it.
pub fn format_fixed(h: i64) -> (r: String)
    ensures
        r@ == fixed_str(h as int),
{
    let mut s = String::new();
    push_fixed(&mut s, h);
    proof {
        assert(s@ =~= fixed_str(h as int));
    }
    s
}

} // verus!
