use vstd::prelude::*;

verus! {

/// The largest number of decimal places a quote token may declare:
/// 10^38 is the largest power of ten that fits in a u128.
pub const MAX_SCALE: u32 = 38;

/// A fixed-point decimal amount of the quote token: `units` smallest
/// units at `scale` decimal places, standing for units / 10^scale.
/// Exact integer arithmetic throughout; the decimal form is only
/// rendered when an amount is persisted.
#[derive(Clone, Copy, Debug, PartialEq, Eq, Structural)]
pub struct DecimalAmount {
    pub units: u128,
    pub scale: u32,
}

impl DecimalAmount {
    /// The scale must leave 10^scale representable in a u128.
    pub open spec fn wf(self) -> bool {
        self.scale <= MAX_SCALE
    }

    pub fn new(units: u128, scale: u32) -> (r: DecimalAmount)
        requires
            scale <= MAX_SCALE,
        ensures
            r.units == units,
            r.scale == scale,
            r.wf(),
    {
        DecimalAmount { units, scale }
    }

    /// Render as a decimal numeral: the integer part, then, unless
    /// every decimal place is zero, a point and the decimal places
    /// with trailing zeros dropped.
    pub fn to_decimal_string(&self) -> (r: String)
        requires
            self.wf(),
        ensures
            r@ == dec_chars(self.units as nat, self.scale as nat),
    {
        let mut units: u128 = self.units;
        let mut scale: u32 = self.scale;
        while scale > 0 && units % 10 == 0
            invariant
                scale <= MAX_SCALE,
                dec_chars(self.units as nat, self.scale as nat) == dec_chars(
                    units as nat,
                    scale as nat,
                ),
            decreases scale,
        {
            units = units / 10;
            scale = scale - 1;
        }
        let mut out = String::new();
        if scale == 0 {
            push_digits(&mut out, units);
            proof {
                assert(out@ =~= dec_chars(units as nat, scale as nat));
            }
        } else {
            let p = pow10_u128(scale);
            proof {
                lemma_pow10_increases(0, scale as nat);
            }
            push_digits(&mut out, units / p);
            out.append(".");
            proof {
                reveal_strlit(".");
                assert(out@ =~= digits_of((units / p) as nat) + seq!['.']);
            }
            push_padded(&mut out, units % p, scale);
            proof {
                assert(pow10(scale as nat) > 0) by {
                    lemma_pow10_increases(0, scale as nat);
                }
                assert((units / p) as nat == (units as nat) / pow10(scale as nat));
                assert((units % p) as nat == (units as nat) % pow10(scale as nat));
                assert(out@ =~= dec_chars(units as nat, scale as nat));
            }
        }
        out
    }
}

/// The character of one decimal digit.
pub open spec fn digit_char(d: int) -> char {
    if d == 0 {
        '0'
    } else if d == 1 {
        '1'
    } else if d == 2 {
        '2'
    } else if d == 3 {
        '3'
    } else if d == 4 {
        '4'
    } else if d == 5 {
        '5'
    } else if d == 6 {
        '6'
    } else if d == 7 {
        '7'
    } else if d == 8 {
        '8'
    } else {
        '9'
    }
}

/// The decimal numeral of n, most significant digit first, with no
/// leading zeros (a single zero for n = 0).
pub open spec fn digits_of(n: nat) -> Seq<char>
    decreases n,
{
    if n < 10 {
        seq![digit_char(n as int)]
    } else {
        digits_of(n / 10) + seq![digit_char((n % 10) as int)]
    }
}

/// The last `width` decimal digits of n, zero-padded on the left.
pub open spec fn padded_digits(n: nat, width: nat) -> Seq<char>
    decreases width,
{
    if width == 0 {
        Seq::<char>::empty()
    } else {
        padded_digits(n / 10, (width - 1) as nat) + seq![digit_char((n % 10) as int)]
    }
}

pub open spec fn pow10(e: nat) -> nat
    decreases e,
{
    if e == 0 {
        1
    } else {
        10 * pow10((e - 1) as nat)
    }
}

/// The decimal rendering of units / 10^scale: trailing zero decimal
/// places are dropped; when none remain, the integer part stands
/// alone, else the integer part, a point, and the remaining decimal
/// places.
pub open spec fn dec_chars(units: nat, scale: nat) -> Seq<char>
    decreases scale,
{
    if scale == 0 {
        digits_of(units)
    } else if units % 10 == 0 {
        dec_chars(units / 10, (scale - 1) as nat)
    } else {
        digits_of(units / pow10(scale)) + seq!['.'] + padded_digits(units % pow10(scale), scale)
    }
}

pub proof fn lemma_pow10_increases(a: nat, b: nat)
    requires
        a <= b,
    ensures
        pow10(a) <= pow10(b),
        pow10(a) > 0,
    decreases b,
{
    if a < b {
        lemma_pow10_increases(a, (b - 1) as nat);
    } else if b > 0 {
        lemma_pow10_increases((a - 1) as nat, (b - 1) as nat);
    }
}

/// 10^e as a u128; every scale a well-formed amount carries fits.
pub fn pow10_u128(e: u32) -> (r: u128)
    requires
        e <= MAX_SCALE,
    ensures
        r == pow10(e as nat),
{
    proof {
        assert(pow10(38) == 100000000000000000000000000000000000000nat) by {
            reveal_with_fuel(pow10, 40);
        }
    }
    let mut r: u128 = 1;
    let mut i: u32 = 0;
    while i < e
        invariant
            i <= e <= MAX_SCALE,
            r == pow10(i as nat),
            pow10(38) == 100000000000000000000000000000000000000nat,
        decreases e - i,
    {
        proof {
            lemma_pow10_increases((i + 1) as nat, 38);
        }
        r = r * 10;
        i = i + 1;
    }
    r
}

/// The str of one decimal digit.
fn digit_str(d: u128) -> (r: &'static str)
    requires
        d < 10,
    ensures
        r@ == seq![digit_char(d as int)],
{
    let r: &'static str = if d == 0 {
        "0"
    } else if d == 1 {
        "1"
    } else if d == 2 {
        "2"
    } else if d == 3 {
        "3"
    } else if d == 4 {
        "4"
    } else if d == 5 {
        "5"
    } else if d == 6 {
        "6"
    } else if d == 7 {
        "7"
    } else if d == 8 {
        "8"
    } else {
        "9"
    };
    proof {
        reveal_strlit("0");
        reveal_strlit("1");
        reveal_strlit("2");
        reveal_strlit("3");
        reveal_strlit("4");
        reveal_strlit("5");
        reveal_strlit("6");
        reveal_strlit("7");
        reveal_strlit("8");
        reveal_strlit("9");
        assert(r@ =~= seq![digit_char(d as int)]);
    }
    r
}

/// Append the decimal numeral of n.
fn push_digits(out: &mut String, n: u128)
    ensures
        final(out)@ == old(out)@ + digits_of(n as nat),
    decreases n,
{
    if n >= 10 {
        push_digits(out, n / 10);
    }
    let d = digit_str(n % 10);
    out.append(d);
    proof {
        if n < 10 {
            assert(out@ =~= old(out)@ + digits_of(n as nat));
        } else {
            assert((n / 10) as nat == (n as nat) / 10);
            assert((n % 10) as nat == (n as nat) % 10);
            assert(out@ =~= old(out)@ + digits_of(n as nat));
        }
    }
}

/// Append the last `width` decimal digits of n, zero-padded.
fn push_padded(out: &mut String, n: u128, width: u32)
    ensures
        final(out)@ == old(out)@ + padded_digits(n as nat, width as nat),
    decreases width,
{
    if width > 0 {
        push_padded(out, n / 10, width - 1);
        let d = digit_str(n % 10);
        out.append(d);
        proof {
            assert((n / 10) as nat == (n as nat) / 10);
            assert((n % 10) as nat == (n as nat) % 10);
            assert(out@ =~= old(out)@ + padded_digits(n as nat, width as nat));
        }
    } else {
        proof {
            assert(old(out)@ + padded_digits(n as nat, 0) =~= old(out)@);
        }
    }
}

} // verus!
