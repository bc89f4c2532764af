//! Decimal text: writing a number out in decimal, and reading a listening
//! port back from its command-line text.

use vstd::prelude::*;
use vstd::string::StrSliceExecFns;

verus! {

/// The character standing for one decimal digit.
pub open spec fn digit_char(d: int) -> char
    recommends
        0 <= d <= 9,
{
    if d == 0 {
        '0'
    } else if d == 1 {
        '1'
    } else if d == 2 {
        '2'
    } else if d == 3 {
        '3'
    } else if d == 4 {
        '4'
    } else if d == 5 {
        '5'
    } else if d == 6 {
        '6'
    } else if d == 7 {
        '7'
    } else if d == 8 {
        '8'
    } else {
        '9'
    }
}

/// The decimal writing of a number, most significant digit first, without
/// sign or leading zeros (zero itself is written "0").
pub open spec fn dec_str(n: nat) -> Seq<char>
    decreases n,
{
    if n < 10 {
        seq![digit_char(n as int)]
    } else {
        dec_str(n / 10) + seq![digit_char((n % 10) as int)]
    }
}

fn digit_literal(d: u64) -> (r: &'static str)
    requires
        d <= 9,
    ensures
        r@ == seq![digit_char(d as int)],
{
    if d == 0 {
        proof {
            reveal_strlit("0");
            assert("0"@ =~= seq![digit_char(0int)]);
        }
        "0"
    } else if d == 1 {
        proof {
            reveal_strlit("1");
            assert("1"@ =~= seq![digit_char(1int)]);
        }
        "1"
    } else if d == 2 {
        proof {
            reveal_strlit("2");
            assert("2"@ =~= seq![digit_char(2int)]);
        }
        "2"
    } else if d == 3 {
        proof {
            reveal_strlit("3");
            assert("3"@ =~= seq![digit_char(3int)]);
        }
        "3"
    } else if d == 4 {
        proof {
            reveal_strlit("4");
            assert("4"@ =~= seq![digit_char(4int)]);
        }
        "4"
    } else if d == 5 {
        proof {
            reveal_strlit("5");
            assert("5"@ =~= seq![digit_char(5int)]);
        }
        "5"
    } else if d == 6 {
        proof {
            reveal_strlit("6");
            assert("6"@ =~= seq![digit_char(6int)]);
        }
        "6"
    } else if d == 7 {
        proof {
            reveal_strlit("7");
            assert("7"@ =~= seq![digit_char(7int)]);
        }
        "7"
    } else if d == 8 {
        proof {
            reveal_strlit("8");
            assert("8"@ =~= seq![digit_char(8int)]);
        }
        "8"
    } else {
        proof {
            reveal_strlit("9");
            assert("9"@ =~= seq![digit_char(9int)]);
        }
        "9"
    }
}

/// Writes a number in decimal.
pub fn u64_to_string(n: u64) -> (r: String)
    ensures
        r@ == dec_str(n as nat),
    decreases n,
{
    if n < 10 {
        let d = digit_literal(n);
        d.to_owned()
    } else {
        let mut s = u64_to_string(n / 10);
        let d = digit_literal(n % 10);
        s.append(d);
        s
    }
}

/// A decimal digit character.
pub open spec fn is_digit_char(c: char) -> bool {
    48 <= c as int && c as int <= 57
}

/// The digit a character stands for; zero for anything that is no digit.
pub open spec fn digit_value(c: char) -> int {
    if is_digit_char(c) {
        c as int - 48
    } else {
        0
    }
}

/// The number a run of digits writes, most significant digit first.
pub open spec fn digits_value(s: Seq<char>) -> int
    decreases s.len(),
{
    if s.len() == 0 {
        0
    } else {
        digits_value(s.drop_last()) * 10 + digit_value(s.last())
    }
}

pub open spec fn all_digits(s: Seq<char>) -> bool {
    forall|i: int| 0 <= i < s.len() ==> is_digit_char(#[trigger] s[i])
}

/// The digit run of a port argument: a single leading plus sign is allowed.
pub open spec fn port_digits(s: Seq<char>) -> Seq<char> {
    if s.len() > 0 && s[0] == '+' {
        s.drop_first()
    } else {
        s
    }
}

/// Text that names a listening port: an optional '+', then at least one
/// decimal digit, writing a number no greater than 65535.
pub open spec fn valid_port_str(s: Seq<char>) -> bool {
    &&& port_digits(s).len() > 0
    &&& all_digits(port_digits(s))
    &&& digits_value(port_digits(s)) <= 65535
}

proof fn lemma_digits_value_nonneg(s: Seq<char>)
    ensures
        digits_value(s) >= 0,
    decreases s.len(),
{
    if s.len() > 0 {
        lemma_digits_value_nonneg(s.drop_last());
    }
}

/// Dropping trailing digits never increases the written number.
proof fn lemma_digits_value_prefix(s: Seq<char>, j: int)
    requires
        0 <= j <= s.len(),
    ensures
        digits_value(s.subrange(0, j)) <= digits_value(s),
    decreases s.len() - j,
{
    if j == s.len() {
        assert(s.subrange(0, j) =~= s);
    } else {
        lemma_digits_value_prefix(s, j + 1);
        let t = s.subrange(0, j + 1);
        assert(t.drop_last() =~= s.subrange(0, j));
        lemma_digits_value_nonneg(s.subrange(0, j));
    }
}

/// Reads a listening port from its command-line text: an optional leading
/// '+', then decimal digits whose value fits in a port number.
pub fn parse_port(s: &str) -> (r: Option<u16>)
    ensures
        r matches Some(v) ==> valid_port_str(s@) && v as int == digits_value(port_digits(s@)),
        r is None ==> !valid_port_str(s@),
{
    let n = s.unicode_len();
    let start: usize = if n > 0 && s.get_char(0) == '+' {
        1
    } else {
        0
    };
    proof {
        if start == 1 {
            assert(port_digits(s@) =~= s@.subrange(1, n as int));
        } else {
            assert(port_digits(s@) =~= s@.subrange(0, n as int));
        }
    }
    let ghost pd = port_digits(s@);
    if start >= n {
        return None;
    }
    let mut acc: u32 = 0;
    let mut i: usize = start;
    while i < n
        invariant
            start <= i <= n,
            n == s@.len(),
            pd == port_digits(s@),
            pd == s@.subrange(start as int, n as int),
            acc <= 65535,
            acc as int == digits_value(pd.subrange(0, i - start)),
            forall|k: int| 0 <= k < i - start ==> is_digit_char(#[trigger] pd[k]),
        decreases n - i,
    {
        let c = s.get_char(i);
        let cv = c as u32;
        let ghost j = i - start;
        if cv < 48 || cv > 57 {
            proof {
                assert(pd[j] == s@[i as int]);
                assert(!is_digit_char(pd[j]));
            }
            return None;
        }
        let dv = cv - 48;
        proof {
            assert(pd[j] == s@[i as int]);
            assert(is_digit_char(pd[j]));
            assert(digit_value(pd[j]) == dv as int);
            assert(pd.subrange(0, j + 1).drop_last() =~= pd.subrange(0, j));
            assert(pd.subrange(0, j + 1).last() == pd[j]);
            assert(digits_value(pd.subrange(0, j + 1)) == acc as int * 10 + dv as int);
        }
        if acc > 6553 || (acc == 6553 && dv > 5) {
            proof {
                lemma_digits_value_prefix(pd, j + 1);
            }
            return None;
        }
        acc = acc * 10 + dv;
        i += 1;
    }
    proof {
        assert(pd.subrange(0, n - start as int) =~= pd);
    }
    Some(acc as u16)
}

} // verus!
