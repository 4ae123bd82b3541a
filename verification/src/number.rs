//! Reading decimal integers the way `str::parse` does for the integer types.

use vstd::prelude::*;

use crate::error::IntErrorKind;
use crate::text::{decimal, is_ws, trim, trim_end, trim_start};

verus! {

pub open spec fn is_digit(c: char) -> bool {
    '0' <= c && c <= '9'
}

pub open spec fn digit_value(c: char) -> int {
    c as int - '0' as int
}

/// Reads the digits `d` from left to right into a number of the given sign
/// that must stay within `[min, max]` after every digit.
pub open spec fn read_digits(d: Seq<char>, negative: bool, min: int, max: int) -> Result<
    int,
    IntErrorKind,
>
    decreases d.len(),
{
    if d.len() == 0 {
        Ok(0)
    } else {
        match read_digits(d.drop_last(), negative, min, max) {
            Err(e) => Err(e),
            Ok(v) => if !is_digit(d.last()) {
                Err(IntErrorKind::InvalidDigit)
            } else {
                let w = if negative {
                    v * 10 - digit_value(d.last())
                } else {
                    v * 10 + digit_value(d.last())
                };
                if w > max {
                    Err(IntErrorKind::PosOverflow)
                } else if w < min {
                    Err(IntErrorKind::NegOverflow)
                } else {
                    Ok(w)
                }
            },
        }
    }
}

/// The integer that `s` denotes in a type with range `[min, max]`: an
/// optional sign (`-` only where the type is signed) followed by decimal
/// digits.
pub open spec fn parse_int(s: Seq<char>, signed: bool, min: int, max: int) -> Result<
    int,
    IntErrorKind,
> {
    if s.len() == 0 {
        Err(IntErrorKind::Empty)
    } else if s.len() == 1 && (s[0] == '+' || s[0] == '-') {
        Err(IntErrorKind::InvalidDigit)
    } else if s[0] == '+' {
        read_digits(s.drop_first(), false, min, max)
    } else if s[0] == '-' && signed {
        read_digits(s.drop_first(), true, min, max)
    } else {
        read_digits(s, false, min, max)
    }
}

proof fn lemma_read_digits_range(d: Seq<char>, negative: bool, min: int, max: int)
    requires
        min <= 0 <= max,
    ensures
        read_digits(d, negative, min, max) matches Ok(v) ==> min <= v <= max && (negative ==> v
            <= 0) && (!negative ==> v >= 0),
    decreases d.len(),
{
    if d.len() > 0 {
        lemma_read_digits_range(d.drop_last(), negative, min, max);
    }
}

/// A leading `+` is accepted by every integer type, signed or not: before
/// a non-empty run of digits it changes nothing, and a `-` before the
/// digits of a signed type gives the negated number (or its error).
pub proof fn leading_plus_is_accepted(d: Seq<char>, signed: bool, min: int, max: int)
    requires
        d.len() > 0,
        forall|i: int| 0 <= i < d.len() ==> is_digit(#[trigger] d[i]),
    ensures
        parse_int(seq!['+'] + d, signed, min, max) == parse_int(d, signed, min, max),
        parse_int(d, signed, min, max) == read_digits(d, false, min, max),
        signed ==> parse_int(seq!['-'] + d, signed, min, max) == read_digits(d, true, min, max),
        !signed ==> parse_int(seq!['-'] + d, signed, min, max) == Err::<int, IntErrorKind>(
            IntErrorKind::InvalidDigit,
        ),
{
    let p = seq!['+'] + d;
    assert(p.drop_first() =~= d);
    assert(p[0] == '+');
    assert(is_digit(d[0]));
    let m = seq!['-'] + d;
    assert(m.drop_first() =~= d);
    assert(m[0] == '-');
    if !signed {
        lemma_minus_digits_invalid(m, min, max);
    }
}

proof fn lemma_minus_digits_invalid(m: Seq<char>, min: int, max: int)
    requires
        m.len() > 1,
        m[0] == '-',
    ensures
        read_digits(m, false, min, max) == Err::<int, IntErrorKind>(IntErrorKind::InvalidDigit),
{
    assert(m.take(1).last() == '-');
    assert(m.take(1).drop_last() =~= Seq::<char>::empty());
    assert(read_digits(m.take(1).drop_last(), false, min, max) == Ok::<int, IntErrorKind>(0));
    assert(!is_digit('-'));
    assert(read_digits(m.take(1), false, min, max) == Err::<int, IntErrorKind>(IntErrorKind::InvalidDigit));
    lemma_read_digits_error_sticks(m, 1, false, min, max);
}

/// Once a prefix fails, the whole fails with the same error.
proof fn lemma_read_digits_error_sticks(d: Seq<char>, j: int, negative: bool, min: int, max: int)
    requires
        0 <= j <= d.len(),
        read_digits(d.take(j), negative, min, max) is Err,
    ensures
        read_digits(d, negative, min, max) == read_digits(d.take(j), negative, min, max),
    decreases d.len() - j,
{
    if j == d.len() {
        assert(d.take(j) =~= d);
    } else {
        assert(d.drop_last().take(j) =~= d.take(j));
        lemma_read_digits_error_sticks(d.drop_last(), j, negative, min, max);
    }
}

/// Reads `v[from..to]` as digits, as `read_digits` says.
fn read_digits_in(v: &Vec<char>, from: usize, to: usize, negative: bool, min: i128, max: i128) -> (r:
    Result<i128, IntErrorKind>)
    requires
        from <= to <= v.len(),
        -0x8000_0000_0000_0000 <= min <= 0 <= max <= 0xFFFF_FFFF_FFFF_FFFF,
    ensures
        match r {
            Ok(n) => read_digits(v@.subrange(from as int, to as int), negative, min as int, max as int)
                == Ok::<int, IntErrorKind>(n as int),
            Err(e) => read_digits(v@.subrange(from as int, to as int), negative, min as int, max as int)
                == Err::<int, IntErrorKind>(e),
        },
{
    let ghost d = v@.subrange(from as int, to as int);
    let mut acc: i128 = 0;
    let mut i = from;
    assert(v@.subrange(from as int, from as int) =~= Seq::<char>::empty());
    while i < to
        invariant
            from <= i <= to <= v.len(),
            -0x8000_0000_0000_0000 <= min <= 0 <= max <= 0xFFFF_FFFF_FFFF_FFFF,
            d == v@.subrange(from as int, to as int),
            min <= acc <= max,
            read_digits(v@.subrange(from as int, i as int), negative, min as int, max as int) == Ok::<
                int,
                IntErrorKind,
            >(acc as int),
        decreases to - i,
    {
        let c = v[i];
        let ghost p = v@.subrange(from as int, i + 1);
        assert(p.drop_last() =~= v@.subrange(from as int, i as int));
        assert(p.last() == c);
        assert(d.take(i + 1 - from) =~= p);
        if !('0' <= c && c <= '9') {
            proof {
                lemma_read_digits_error_sticks(d, i + 1 - from, negative, min as int, max as int);
            }
            return Err(IntErrorKind::InvalidDigit);
        }
        let dv = (c as u32 - '0' as u32) as i128;
        let w = if negative {
            acc * 10 - dv
        } else {
            acc * 10 + dv
        };
        if w > max {
            proof {
                lemma_read_digits_error_sticks(d, i + 1 - from, negative, min as int, max as int);
            }
            return Err(IntErrorKind::PosOverflow);
        }
        if w < min {
            proof {
                lemma_read_digits_error_sticks(d, i + 1 - from, negative, min as int, max as int);
            }
            return Err(IntErrorKind::NegOverflow);
        }
        acc = w;
        i = i + 1;
    }
    Ok(acc)
}

/// Reads `v[from..to]` as `parse_int` says.
pub fn parse_int_in(v: &Vec<char>, from: usize, to: usize, signed: bool, min: i128, max: i128) -> (r:
    Result<i128, IntErrorKind>)
    requires
        from <= to <= v.len(),
        -0x8000_0000_0000_0000 <= min <= 0 <= max <= 0xFFFF_FFFF_FFFF_FFFF,
    ensures
        match r {
            Ok(n) => parse_int(v@.subrange(from as int, to as int), signed, min as int, max as int)
                == Ok::<int, IntErrorKind>(n as int) && min <= n <= max,
            Err(e) => parse_int(v@.subrange(from as int, to as int), signed, min as int, max as int)
                == Err::<int, IntErrorKind>(e),
        },
{
    let ghost s = v@.subrange(from as int, to as int);
    if from == to {
        return Err(IntErrorKind::Empty);
    }
    let c = v[from];
    assert(s[0] == c);
    if to - from == 1 && (c == '+' || c == '-') {
        return Err(IntErrorKind::InvalidDigit);
    }
    assert(s.drop_first() =~= v@.subrange(from + 1, to as int));
    let r = if c == '+' {
        read_digits_in(v, from + 1, to, false, min, max)
    } else if c == '-' && signed {
        read_digits_in(v, from + 1, to, true, min, max)
    } else {
        read_digits_in(v, from, to, false, min, max)
    };
    proof {
        lemma_read_digits_range(s.drop_first(), false, min as int, max as int);
        lemma_read_digits_range(s.drop_first(), true, min as int, max as int);
        lemma_read_digits_range(s, false, min as int, max as int);
    }
    r
}

proof fn lemma_decimal_digits(n: nat)
    ensures
        decimal(n).len() >= 1,
        forall|i: int| 0 <= i < decimal(n).len() ==> is_digit(#[trigger] decimal(n)[i]),
    decreases n,
{
    if n >= 10 {
        lemma_decimal_digits(n / 10);
        let d = decimal(n / 10);
        assert forall|i: int| 0 <= i < decimal(n).len() implies is_digit(#[trigger] decimal(n)[i]) by {
            if i < d.len() {
                assert(decimal(n)[i] == d[i]);
            }
        }
    }
}

/// Reading back a number written in decimal gives the number: for every
/// `n` within the type's range, the integer parse of `decimal(n)` is `n`,
/// around any whitespace.
pub proof fn decimal_reads_back(n: nat, signed: bool, min: int, max: int)
    requires
        min <= 0 <= n <= max,
    ensures
        parse_int(decimal(n), signed, min, max) == Ok::<int, IntErrorKind>(n as int),
        trim(decimal(n)) == decimal(n),
{
    lemma_decimal_digits(n);
    let s = decimal(n);
    assert(is_digit(s[0]));
    lemma_read_decimal_bounds(n, min, max);
    assert(!is_ws(s[0]));
    assert(!is_ws(s.last()));
    assert(trim_start(s) == s);
    assert(trim_end(s) == s);
}

proof fn lemma_read_decimal_bounds(n: nat, min: int, max: int)
    requires
        min <= 0 <= n <= max,
    ensures
        read_digits(decimal(n), false, min, max) == Ok::<int, IntErrorKind>(n as int),
    decreases n,
{
    if n < 10 {
        let s = decimal(n);
        assert(s.drop_last() =~= Seq::<char>::empty());
        assert(s.last() == (n + 48) as char);
    } else {
        lemma_read_decimal_bounds(n / 10, min, max);
        let s = decimal(n);
        assert(s.drop_last() =~= decimal(n / 10));
        assert(s.last() == (n % 10 + 48) as char);
    }
}

} // verus!
