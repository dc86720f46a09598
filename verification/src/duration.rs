//! Rendering an elapsed wall-clock time.
//!
//! An elapsed time of more than five whole seconds is reported as the
//! concatenation of its nonzero components, `<H>h<M>m<S>s`, each unit left
//! out entirely when its value is zero (so exactly one hour reads `1h`).
//! Five seconds or less produce no report at all.

use vstd::prelude::*;

verus! {

/// The character for one decimal digit.
pub open spec fn digit_char(d: nat) -> char {
    if d == 0 {
        '0'
    } else if d == 1 {
        '1'
    } else if d == 2 {
        '2'
    } else if d == 3 {
        '3'
    } else if d == 4 {
        '4'
    } else if d == 5 {
        '5'
    } else if d == 6 {
        '6'
    } else if d == 7 {
        '7'
    } else if d == 8 {
        '8'
    } else {
        '9'
    }
}

/// The decimal rendering of `n`, most significant digit first, with no
/// leading zero except for `n == 0` itself.
pub open spec fn dec_digits(n: nat) -> Seq<char>
    decreases n,
{
    if n < 10 {
        seq![digit_char(n)]
    } else {
        dec_digits(n / 10) + seq![digit_char(n % 10)]
    }
}

/// One component of the report: the value followed by its unit letter,
/// or nothing when the value is zero.
pub open spec fn unit_spec(value: nat, unit: char) -> Seq<char> {
    if value > 0 {
        dec_digits(value) + seq![unit]
    } else {
        Seq::<char>::empty()
    }
}

/// The hour, minute and second components of `d` seconds, nonzero ones only.
pub open spec fn units_spec(d: nat) -> Seq<char> {
    unit_spec(d / 3600, 'h') + unit_spec((d % 3600) / 60, 'm') + unit_spec(d % 60, 's')
}

/// The full report line for `d` seconds.
pub open spec fn report_spec(d: nat) -> Seq<char> {
    "Elapsed: "@ + units_spec(d)
}

/// The literal for one decimal digit.
fn digit_str(d: u64) -> (r: &'static str)
    requires
        d < 10,
    ensures
        r@ == seq![digit_char(d as nat)],
{
    if d == 0 {
        proof {
            reveal_strlit("0");
            assert("0"@ =~= seq![digit_char(d as nat)]);
        }
        "0"
    } else if d == 1 {
        proof {
            reveal_strlit("1");
            assert("1"@ =~= seq![digit_char(d as nat)]);
        }
        "1"
    } else if d == 2 {
        proof {
            reveal_strlit("2");
            assert("2"@ =~= seq![digit_char(d as nat)]);
        }
        "2"
    } else if d == 3 {
        proof {
            reveal_strlit("3");
            assert("3"@ =~= seq![digit_char(d as nat)]);
        }
        "3"
    } else if d == 4 {
        proof {
            reveal_strlit("4");
            assert("4"@ =~= seq![digit_char(d as nat)]);
        }
        "4"
    } else if d == 5 {
        proof {
            reveal_strlit("5");
            assert("5"@ =~= seq![digit_char(d as nat)]);
        }
        "5"
    } else if d == 6 {
        proof {
            reveal_strlit("6");
            assert("6"@ =~= seq![digit_char(d as nat)]);
        }
        "6"
    } else if d == 7 {
        proof {
            reveal_strlit("7");
            assert("7"@ =~= seq![digit_char(d as nat)]);
        }
        "7"
    } else if d == 8 {
        proof {
            reveal_strlit("8");
            assert("8"@ =~= seq![digit_char(d as nat)]);
        }
        "8"
    } else {
        proof {
            reveal_strlit("9");
            assert("9"@ =~= seq![digit_char(d as nat)]);
        }
        "9"
    }
}

/// Renders `n` in decimal.
pub fn u64_to_string(n: u64) -> (r: String)
    ensures
        r@ == dec_digits(n as nat),
    decreases n,
{
    if n < 10 {
        String::from_str(digit_str(n))
    } else {
        let mut s = u64_to_string(n / 10);
        s.append(digit_str(n % 10));
        s
    }
}

/// Renders the elapsed report for `d` whole seconds: no report for five
/// seconds or less, otherwise the `Elapsed: ` line with the nonzero units.
pub fn elapsed_report(d: u64) -> (r: Option<String>)
    ensures
        d <= 5 ==> r is None,
        d > 5 ==> (r matches Some(line) && line@ == report_spec(d as nat)),
{
    if d <= 5 {
        return None;
    }
    let hours: u64 = d / 3600;
    let minutes: u64 = (d % 3600) / 60;
    let secs: u64 = d % 60;
    let mut line: String = String::from_str("Elapsed: ");
    if hours > 0 {
        let h = u64_to_string(hours);
        line.append(h.as_str());
        line.append("h");
    }
    if minutes > 0 {
        let m = u64_to_string(minutes);
        line.append(m.as_str());
        line.append("m");
    }
    if secs > 0 {
        let s = u64_to_string(secs);
        line.append(s.as_str());
        line.append("s");
    }
    proof {
        reveal_strlit("h");
        reveal_strlit("m");
        reveal_strlit("s");
        assert(line@ =~= report_spec(d as nat));
    }
    Some(line)
}

} // verus!
