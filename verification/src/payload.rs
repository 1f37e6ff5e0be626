use vstd::prelude::*;
use vstd::string::StringExecFns;

verus! {

/// The decimal digit character for `d`.
pub open spec fn digit_char(d: int) -> char {
    if d == 0 {
        '0'
    } else if d == 1 {
        '1'
    } else if d == 2 {
        '2'
    } else if d == 3 {
        '3'
    } else if d == 4 {
        '4'
    } else if d == 5 {
        '5'
    } else if d == 6 {
        '6'
    } else if d == 7 {
        '7'
    } else if d == 8 {
        '8'
    } else {
        '9'
    }
}

/// The decimal numeral of `n`, most significant digit first, without sign or
/// leading zeros (the numeral of zero is "0").
pub open spec fn dec_digits(n: int) -> Seq<char>
    decreases n,
{
    if n < 10 {
        seq![digit_char(n)]
    } else {
        dec_digits(n / 10) + seq![digit_char(n % 10)]
    }
}

/// A JSON string literal holding `s`, or the JSON null when there is nothing
/// to hold. `s` is embedded verbatim.
pub open spec fn json_opt_string(v: Option<Seq<char>>) -> Seq<char> {
    match v {
        Some(s) => "\""@ + s + "\""@,
        None => "null"@,
    }
}

/// Appends the decimal digit character of `d` to `s`.
fn append_digit(s: &mut String, d: u128)
    requires
        d < 10,
    ensures
        final(s)@ == old(s)@ + seq![digit_char(d as int)],
{
    proof {
        reveal_strlit("0");
        reveal_strlit("1");
        reveal_strlit("2");
        reveal_strlit("3");
        reveal_strlit("4");
        reveal_strlit("5");
        reveal_strlit("6");
        reveal_strlit("7");
        reveal_strlit("8");
        reveal_strlit("9");
    }
    if d == 0 {
        s.append("0");
        proof {
            assert("0"@ =~= seq![digit_char(0)]);
        }
    } else if d == 1 {
        s.append("1");
        proof {
            assert("1"@ =~= seq![digit_char(1)]);
        }
    } else if d == 2 {
        s.append("2");
        proof {
            assert("2"@ =~= seq![digit_char(2)]);
        }
    } else if d == 3 {
        s.append("3");
        proof {
            assert("3"@ =~= seq![digit_char(3)]);
        }
    } else if d == 4 {
        s.append("4");
        proof {
            assert("4"@ =~= seq![digit_char(4)]);
        }
    } else if d == 5 {
        s.append("5");
        proof {
            assert("5"@ =~= seq![digit_char(5)]);
        }
    } else if d == 6 {
        s.append("6");
        proof {
            assert("6"@ =~= seq![digit_char(6)]);
        }
    } else if d == 7 {
        s.append("7");
        proof {
            assert("7"@ =~= seq![digit_char(7)]);
        }
    } else if d == 8 {
        s.append("8");
        proof {
            assert("8"@ =~= seq![digit_char(8)]);
        }
    } else {
        s.append("9");
        proof {
            assert("9"@ =~= seq![digit_char(9)]);
        }
    }
}

/// Appends the decimal numeral of `n` to `s`.
pub fn append_dec(s: &mut String, n: u128)
    ensures
        final(s)@ == old(s)@ + dec_digits(n as int),
    decreases n,
{
    let ghost pre = s@;
    if n >= 10 {
        append_dec(s, n / 10);
    }
    append_digit(s, n % 10);
    proof {
        if n >= 10 {
            assert((pre + dec_digits(n as int / 10)) + seq![digit_char(n as int % 10)] =~= pre
                + dec_digits(n as int));
        } else {
            assert(pre + seq![digit_char(n as int % 10)] =~= pre + dec_digits(n as int));
        }
    }
}

/// Appends a JSON string literal holding `v`, or the JSON null, to `s`.
pub fn append_json_opt_string(s: &mut String, v: &Option<String>)
    ensures
        final(s)@ == old(s)@ + json_opt_string(match v {
            Some(m) => Some(m@),
            None => None,
        }),
{
    let ghost pre = s@;
    match v {
        Some(m) => {
            s.append("\"");
            s.append(m.as_str());
            s.append("\"");
            proof {
                assert(((pre + "\""@) + m@) + "\""@ =~= pre + ("\""@ + m@ + "\""@));
            }
        },
        None => {
            s.append("null");
        },
    }
}

} // verus!
