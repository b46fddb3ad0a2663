//! Fixed-point meter readings and their decimal rendering.
//!
//! The device protocol carries every numeric reading with at most three
//! decimal places, so a reading is stored exactly as an unsigned count of
//! thousandths. Three renderings are needed by the wire format: a plain
//! rendering that drops trailing fractional zeros, and fixed renderings
//! with exactly two or exactly three decimal places.

use vstd::prelude::*;

verus! {

/// A non-negative fixed-point reading, stored in thousandths of its unit.
#[derive(Clone, Copy, Debug, PartialEq, Eq, Structural)]
pub struct Reading {
    pub milli: u64,
}

/// The decimal digit character for a value in 0..=9.
pub open spec fn digit_char(d: int) -> char {
    if d == 0 {
        '0'
    } else if d == 1 {
        '1'
    } else if d == 2 {
        '2'
    } else if d == 3 {
        '3'
    } else if d == 4 {
        '4'
    } else if d == 5 {
        '5'
    } else if d == 6 {
        '6'
    } else if d == 7 {
        '7'
    } else if d == 8 {
        '8'
    } else {
        '9'
    }
}

/// The decimal digits of `n` without leading zeros; empty for zero.
pub open spec fn spec_digits(n: nat) -> Seq<char>
    decreases n,
{
    if n == 0 {
        Seq::empty()
    } else {
        spec_digits(n / 10) + seq![digit_char((n % 10) as int)]
    }
}

/// The usual decimal rendering of `n`: its digits, or "0" for zero.
pub open spec fn spec_u64_str(n: nat) -> Seq<char> {
    if n == 0 {
        seq!['0']
    } else {
        spec_digits(n)
    }
}

/// The last `w` decimal digits of `n`, zero-padded to width `w`.
pub open spec fn spec_padded(n: nat, w: nat) -> Seq<char>
    decreases w,
{
    if w == 0 {
        Seq::empty()
    } else {
        spec_padded(n / 10, (w - 1) as nat) + seq![digit_char((n % 10) as int)]
    }
}

/// The fractional digits of a thousandths remainder `0 < f < 1000`, with
/// trailing zeros dropped.
pub open spec fn spec_frac_trimmed(f: nat) -> Seq<char> {
    if f % 100 == 0 {
        seq![digit_char((f / 100) as int)]
    } else if f % 10 == 0 {
        spec_padded(f / 10, 2)
    } else {
        spec_padded(f, 3)
    }
}

/// Plain rendering of a thousandths count: integer part, then a point and
/// the fractional digits with trailing zeros dropped, omitted entirely
/// when the fraction is zero.
pub open spec fn spec_plain(m: nat) -> Seq<char> {
    if m % 1000 == 0 {
        spec_u64_str(m / 1000)
    } else {
        spec_u64_str(m / 1000) + seq!['.'] + spec_frac_trimmed(m % 1000)
    }
}

/// A thousandths count rounded half-up to hundredths.
pub open spec fn spec_centi_round(m: nat) -> nat {
    m / 10 + if m % 10 >= 5 {
        1nat
    } else {
        0nat
    }
}

/// Rendering with exactly two decimal places, rounding half-up.
pub open spec fn spec_fixed2(m: nat) -> Seq<char> {
    spec_u64_str(spec_centi_round(m) / 100) + seq!['.'] + spec_padded(spec_centi_round(m) % 100, 2)
}

/// Rendering with exactly three decimal places.
pub open spec fn spec_fixed3(m: nat) -> Seq<char> {
    spec_u64_str(m / 1000) + seq!['.'] + spec_padded(m % 1000, 3)
}

fn digit_str(d: u64) -> (r: &'static str)
    requires
        d < 10,
    ensures
        r@ == seq![digit_char(d as int)],
{
    match d {
        0 => {
            proof {
                reveal_strlit("0");
                assert("0"@ =~= seq![digit_char(0)]);
            }
            "0"
        },
        1 => {
            proof {
                reveal_strlit("1");
                assert("1"@ =~= seq![digit_char(1)]);
            }
            "1"
        },
        2 => {
            proof {
                reveal_strlit("2");
                assert("2"@ =~= seq![digit_char(2)]);
            }
            "2"
        },
        3 => {
            proof {
                reveal_strlit("3");
                assert("3"@ =~= seq![digit_char(3)]);
            }
            "3"
        },
        4 => {
            proof {
                reveal_strlit("4");
                assert("4"@ =~= seq![digit_char(4)]);
            }
            "4"
        },
        5 => {
            proof {
                reveal_strlit("5");
                assert("5"@ =~= seq![digit_char(5)]);
            }
            "5"
        },
        6 => {
            proof {
                reveal_strlit("6");
                assert("6"@ =~= seq![digit_char(6)]);
            }
            "6"
        },
        7 => {
            proof {
                reveal_strlit("7");
                assert("7"@ =~= seq![digit_char(7)]);
            }
            "7"
        },
        8 => {
            proof {
                reveal_strlit("8");
                assert("8"@ =~= seq![digit_char(8)]);
            }
            "8"
        },
        _ => {
            proof {
                reveal_strlit("9");
                assert("9"@ =~= seq![digit_char(9)]);
            }
            "9"
        },
    }
}

fn push_digits(n: u64, s: &mut String)
    requires
        n > 0,
    ensures
        final(s)@ == old(s)@ + spec_digits(n as nat),
    decreases n,
{
    if n >= 10 {
        push_digits(n / 10, s);
    }
    let d = digit_str(n % 10);
    s.append(d);
    proof {
        if n < 10 {
            assert(spec_digits((n as nat) / 10) =~= Seq::<char>::empty());
        }
        assert(s@ =~= old(s)@ + spec_digits(n as nat));
    }
}

pub(crate) fn push_u64(n: u64, s: &mut String)
    ensures
        final(s)@ == old(s)@ + spec_u64_str(n as nat),
{
    if n == 0 {
        let d = digit_str(0);
        s.append(d);
    } else {
        push_digits(n, s);
    }
}

fn push_padded(n: u64, w: usize, s: &mut String)
    ensures
        final(s)@ == old(s)@ + spec_padded(n as nat, w as nat),
    decreases w,
{
    if w > 0 {
        push_padded(n / 10, w - 1, s);
        let d = digit_str(n % 10);
        s.append(d);
        proof {
            assert(s@ =~= old(s)@ + spec_padded(n as nat, w as nat));
        }
    } else {
        proof {
            assert(s@ + Seq::<char>::empty() =~= s@);
        }
    }
}

pub(crate) fn push_plain(m: u64, s: &mut String)
    ensures
        final(s)@ == old(s)@ + spec_plain(m as nat),
{
    push_u64(m / 1000, s);
    let f: u64 = m % 1000;
    if f != 0 {
        s.append(".");
        proof {
            reveal_strlit(".");
            assert("."@ =~= seq!['.']);
        }
        if f % 100 == 0 {
            let d = digit_str(f / 100);
            s.append(d);
        } else if f % 10 == 0 {
            push_padded(f / 10, 2, s);
        } else {
            push_padded(f, 3, s);
        }
        proof {
            assert(s@ =~= old(s)@ + spec_plain(m as nat));
        }
    }
}

pub(crate) fn push_fixed2(m: u64, s: &mut String)
    ensures
        final(s)@ == old(s)@ + spec_fixed2(m as nat),
{
    let c: u64 = m / 10 + if m % 10 >= 5 {
        1
    } else {
        0
    };
    push_u64(c / 100, s);
    s.append(".");
    proof {
        reveal_strlit(".");
        assert("."@ =~= seq!['.']);
    }
    push_padded(c % 100, 2, s);
    proof {
        assert(s@ =~= old(s)@ + spec_fixed2(m as nat));
    }
}

pub(crate) fn push_fixed3(m: u64, s: &mut String)
    ensures
        final(s)@ == old(s)@ + spec_fixed3(m as nat),
{
    push_u64(m / 1000, s);
    s.append(".");
    proof {
        reveal_strlit(".");
        assert("."@ =~= seq!['.']);
    }
    push_padded(m % 1000, 3, s);
    proof {
        assert(s@ =~= old(s)@ + spec_fixed3(m as nat));
    }
}

impl Reading {
    /// Plain rendering: trailing fractional zeros dropped, no point when
    /// the reading is whole.
    pub fn render_plain(&self) -> (s: String)
        ensures
            s@ == spec_plain(self.milli as nat),
    {
        let mut s = String::new();
        push_plain(self.milli, &mut s);
        proof {
            assert(Seq::<char>::empty() + spec_plain(self.milli as nat) =~= spec_plain(
                self.milli as nat,
            ));
        }
        s
    }

    /// Rendering with exactly two decimal places, rounding half-up.
    pub fn render_fixed2(&self) -> (s: String)
        ensures
            s@ == spec_fixed2(self.milli as nat),
    {
        let mut s = String::new();
        push_fixed2(self.milli, &mut s);
        proof {
            assert(Seq::<char>::empty() + spec_fixed2(self.milli as nat) =~= spec_fixed2(
                self.milli as nat,
            ));
        }
        s
    }

    /// Rendering with exactly three decimal places.
    pub fn render_fixed3(&self) -> (s: String)
        ensures
            s@ == spec_fixed3(self.milli as nat),
    {
        let mut s = String::new();
        push_fixed3(self.milli, &mut s);
        proof {
            assert(Seq::<char>::empty() + spec_fixed3(self.milli as nat) =~= spec_fixed3(
                self.milli as nat,
            ));
        }
        s
    }
}

} // verus!
