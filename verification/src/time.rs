//! Benchmarking support: formatting an elapsed time span for display.

use vstd::prelude::*;

verus! {

/// An elapsed time span, held as whole nanoseconds. Elapsed time is
/// never negative, so the count is unsigned.
pub struct TimeSpan {
    nanos: u128,
}

impl TimeSpan {
    /// The span's length in whole nanoseconds.
    pub closed spec fn spec_nanos(&self) -> nat {
        self.nanos as nat
    }

    /// A span of `nanos` nanoseconds.
    pub fn from_nanos(nanos: u128) -> (span: Self)
        ensures
            span.spec_nanos() == nanos as nat,
    {
        Self { nanos }
    }

    /// A span of `micros` microseconds.
    pub fn from_micros(micros: u64) -> (span: Self)
        ensures
            span.spec_nanos() == micros as nat * 1000,
    {
        Self { nanos: micros as u128 * 1000 }
    }

    /// A span of `millis` milliseconds.
    pub fn from_millis(millis: u64) -> (span: Self)
        ensures
            span.spec_nanos() == millis as nat * 1000000,
    {
        Self { nanos: millis as u128 * 1000000 }
    }

    /// A span of `secs` seconds.
    pub fn from_secs(secs: u64) -> (span: Self)
        ensures
            span.spec_nanos() == secs as nat * 1000000000,
    {
        Self { nanos: secs as u128 * 1000000000 }
    }

    /// The span's length in whole nanoseconds.
    pub fn as_nanos(&self) -> (nanos: u128)
        ensures
            nanos as nat == self.spec_nanos(),
    {
        self.nanos
    }
}

/// The decimal digit `d` (below ten) as a character.
pub open spec fn digit_char(d: nat) -> char {
    if d == 0 {
        '0'
    } else if d == 1 {
        '1'
    } else if d == 2 {
        '2'
    } else if d == 3 {
        '3'
    } else if d == 4 {
        '4'
    } else if d == 5 {
        '5'
    } else if d == 6 {
        '6'
    } else if d == 7 {
        '7'
    } else if d == 8 {
        '8'
    } else {
        '9'
    }
}

/// The decimal numeral for `n`, most significant digit first, without
/// leading zeros.
pub open spec fn dec_str(n: nat) -> Seq<char>
    decreases n,
{
    if n < 10 {
        seq![digit_char(n)]
    } else {
        dec_str(n / 10) + seq![digit_char(n % 10)]
    }
}

/// The decimal numeral for `f` written with exactly `places` digits,
/// leading zeros included.
pub open spec fn padded_str(f: nat, places: nat) -> Seq<char>
    decreases places,
{
    if places == 0 {
        Seq::empty()
    } else {
        padded_str(f / 10, (places - 1) as nat) + seq![digit_char(f % 10)]
    }
}

/// The digits behind the decimal point for a fraction of `f` parts in
/// ten to the `places`: `places` digits, trailing zeros removed.
pub open spec fn frac_str(f: nat, places: nat) -> Seq<char>
    decreases places,
{
    if places == 0 {
        Seq::empty()
    } else if f % 10 == 0 {
        frac_str(f / 10, (places - 1) as nat)
    } else {
        padded_str(f, places)
    }
}

/// Full-precision seconds for a span of `nanos` nanoseconds: the whole
/// seconds and then, where the fraction is not zero, a point and the
/// fractional digits with trailing zeros removed.
pub open spec fn seconds_str(nanos: nat) -> Seq<char> {
    if nanos % 1000000000 == 0 {
        dec_str(nanos / 1000000000)
    } else {
        dec_str(nanos / 1000000000) + seq!['.'] + frac_str(nanos % 1000000000, 9)
    }
}

/// The display string for a span of `nanos` nanoseconds: the magnitude
/// under the largest unit among nanoseconds, microseconds and
/// milliseconds that keeps it under 1000 (integer division,
/// truncating); past those, full-precision seconds.
pub open spec fn spec_format_duration(nanos: nat) -> Seq<char> {
    if nanos < 1000 {
        dec_str(nanos) + seq!['n', 's']
    } else if nanos / 1000 < 1000 {
        dec_str(nanos / 1000) + seq!['μ', 's']
    } else if nanos / 1000000 < 1000 {
        dec_str(nanos / 1000000) + seq!['m', 's']
    } else {
        seconds_str(nanos) + seq!['s']
    }
}

/// Ten to the power `p`.
pub open spec fn pow10(p: nat) -> nat
    decreases p,
{
    if p == 0 {
        1
    } else {
        10 * pow10((p - 1) as nat)
    }
}

/// The decimal digit `d` as a one-character string.
fn digit_str(d: u128) -> (s: &'static str)
    requires
        d < 10,
    ensures
        s@ == seq![digit_char(d as nat)],
{
    if d == 0 {
        proof {
            reveal_strlit("0");
            assert("0"@ =~= seq![digit_char(d as nat)]);
        }
        "0"
    } else if d == 1 {
        proof {
            reveal_strlit("1");
            assert("1"@ =~= seq![digit_char(d as nat)]);
        }
        "1"
    } else if d == 2 {
        proof {
            reveal_strlit("2");
            assert("2"@ =~= seq![digit_char(d as nat)]);
        }
        "2"
    } else if d == 3 {
        proof {
            reveal_strlit("3");
            assert("3"@ =~= seq![digit_char(d as nat)]);
        }
        "3"
    } else if d == 4 {
        proof {
            reveal_strlit("4");
            assert("4"@ =~= seq![digit_char(d as nat)]);
        }
        "4"
    } else if d == 5 {
        proof {
            reveal_strlit("5");
            assert("5"@ =~= seq![digit_char(d as nat)]);
        }
        "5"
    } else if d == 6 {
        proof {
            reveal_strlit("6");
            assert("6"@ =~= seq![digit_char(d as nat)]);
        }
        "6"
    } else if d == 7 {
        proof {
            reveal_strlit("7");
            assert("7"@ =~= seq![digit_char(d as nat)]);
        }
        "7"
    } else if d == 8 {
        proof {
            reveal_strlit("8");
            assert("8"@ =~= seq![digit_char(d as nat)]);
        }
        "8"
    } else {
        proof {
            reveal_strlit("9");
            assert("9"@ =~= seq![digit_char(d as nat)]);
        }
        "9"
    }
}

/// Append the decimal numeral for `n` to `out`.
fn push_decimal(n: u128, out: &mut String)
    ensures
        final(out)@ == old(out)@ + dec_str(n as nat),
    decreases n,
{
    if n >= 10 {
        proof {
            assert(n == 10 * (n / 10) + n % 10);
            assert(n / 10 < n);
        }
        push_decimal(n / 10, out);
    }
    out.append(digit_str(n % 10));
    proof {
        if n >= 10 {
            assert(out@ =~= old(out)@ + (dec_str(n as nat / 10) + seq![digit_char(n as nat % 10)]));
        } else {
            assert(old(out)@ + Seq::<char>::empty() =~= old(out)@);
            assert(out@ =~= old(out)@ + seq![digit_char(n as nat)]);
        }
    }
}

/// Append the decimal numeral for `f`, written with exactly `places`
/// digits, to `out`.
fn push_padded(f: u128, places: u32, out: &mut String)
    ensures
        final(out)@ == old(out)@ + padded_str(f as nat, places as nat),
    decreases places,
{
    if places > 0 {
        push_padded(f / 10, places - 1, out);
        out.append(digit_str(f % 10));
        proof {
            assert(out@ =~= old(out)@ + (padded_str(f as nat / 10, (places - 1) as nat)
                + seq![digit_char(f as nat % 10)]));
        }
    } else {
        proof {
            assert(out@ =~= old(out)@ + padded_str(f as nat, 0));
        }
    }
}

/// Format a duration for display.
///
/// The magnitude is shown under the largest unit among `ns`, `μs` and
/// `ms` that keeps it under 1000, truncating at each step; a span of a
/// second or more is shown as full-precision seconds instead.
pub fn format_duration(duration: &TimeSpan) -> (s: String)
    ensures
        s@ == spec_format_duration(duration.spec_nanos()),
{
    let time: u128 = duration.as_nanos();
    let mut out = String::new();
    if time < 1000 {
        push_decimal(time, &mut out);
        out.append("ns");
        proof {
            reveal_strlit("ns");
            assert("ns"@ =~= seq!['n', 's']);
            assert(out@ =~= dec_str(time as nat) + seq!['n', 's']);
        }
    } else if time / 1000 < 1000 {
        push_decimal(time / 1000, &mut out);
        out.append("μs");
        proof {
            reveal_strlit("μs");
            assert("μs"@ =~= seq!['μ', 's']);
            assert(out@ =~= dec_str(time as nat / 1000) + seq!['μ', 's']);
        }
    } else if time / 1000000 < 1000 {
        push_decimal(time / 1000000, &mut out);
        out.append("ms");
        proof {
            reveal_strlit("ms");
            assert("ms"@ =~= seq!['m', 's']);
            assert(out@ =~= dec_str(time as nat / 1000000) + seq!['m', 's']);
        }
    } else {
        push_decimal(time / 1000000000, &mut out);
        let fraction: u128 = time % 1000000000;
        if fraction > 0 {
            out.append(".");
            proof {
                reveal_strlit(".");
                assert("."@ =~= seq!['.']);
            }
            let mut g: u128 = fraction;
            let mut places: u32 = 9;
            proof {
                assert(pow10(0) == 1);
                assert(pow10(1) == 10);
                assert(pow10(2) == 100);
                assert(pow10(3) == 1000);
                assert(pow10(4) == 10000);
                assert(pow10(5) == 100000);
                assert(pow10(6) == 1000000);
                assert(pow10(7) == 10000000);
                assert(pow10(8) == 100000000);
                assert(pow10(9) == 1000000000);
            }
            while g % 10 == 0
                invariant
                    g >= 1,
                    (g as nat) < pow10(places as nat),
                    places <= 9,
                    frac_str(g as nat, places as nat) == frac_str(fraction as nat, 9),
                decreases places,
            {
                proof {
                    assert(g == 10 * (g / 10) + g % 10);
                    if places == 0 {
                        assert((g as nat) < pow10(0));
                        assert(false);
                    }
                    assert(pow10(places as nat) == 10 * pow10((places - 1) as nat));
                    assert(10 * (g / 10) < 10 * pow10((places - 1) as nat));
                    assert(((g / 10) as nat) < pow10((places - 1) as nat)) by (nonlinear_arith)
                        requires
                            10 * (g / 10) < 10 * pow10((places - 1) as nat),
                    ;
                }
                g = g / 10;
                places = places - 1;
            }
            proof {
                if places == 0 {
                    assert((g as nat) < pow10(0));
                    assert(false);
                }
                assert(frac_str(g as nat, places as nat) == padded_str(g as nat, places as nat));
            }
            push_padded(g, places, &mut out);
            proof {
                assert(out@ =~= dec_str(time as nat / 1000000000) + seq!['.'] + frac_str(
                    fraction as nat, 9));
            }
        }
        out.append("s");
        proof {
            reveal_strlit("s");
            assert("s"@ =~= seq!['s']);
            assert(out@ =~= seconds_str(time as nat) + seq!['s']);
        }
    }
    out
}

} // verus!
