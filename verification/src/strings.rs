//! Decimal rendering of integers, used when numeric request fields are
//! turned into URL query parameters.

use vstd::prelude::*;
use vstd::string::StringExecFns;

verus! {

/// The decimal digit character for `d` (meaningful for `0 <= d <= 9`).
pub open spec fn dec_digit(d: int) -> char {
    if d == 0 {
        '0'
    } else if d == 1 {
        '1'
    } else if d == 2 {
        '2'
    } else if d == 3 {
        '3'
    } else if d == 4 {
        '4'
    } else if d == 5 {
        '5'
    } else if d == 6 {
        '6'
    } else if d == 7 {
        '7'
    } else if d == 8 {
        '8'
    } else {
        '9'
    }
}

/// The digits of `n` in base ten, most significant first; empty for
/// `n <= 0`.
pub open spec fn dec_chars(n: int) -> Seq<char>
    decreases n,
{
    if n <= 0 {
        Seq::empty()
    } else {
        dec_chars(n / 10).push(dec_digit(n % 10))
    }
}

/// The usual decimal rendering of a non-negative `n`, `"0"` included.
pub open spec fn dec_str(n: int) -> Seq<char> {
    if n == 0 {
        seq!['0']
    } else {
        dec_chars(n)
    }
}

/// The decimal rendering of any integer, with a leading `'-'` when
/// negative.
pub open spec fn dec_int_str(n: int) -> Seq<char> {
    if n < 0 {
        seq!['-'] + dec_str(-n)
    } else {
        dec_str(n)
    }
}

/// The one-character string for decimal digit `d`.
fn digit_str(d: u64) -> (r: &'static str)
    requires
        d < 10,
    ensures
        r@ == seq![dec_digit(d as int)],
{
    if d == 0 {
        proof {
            reveal_strlit("0");
            assert("0"@ =~= seq![dec_digit(0)]);
        }
        "0"
    } else if d == 1 {
        proof {
            reveal_strlit("1");
            assert("1"@ =~= seq![dec_digit(1)]);
        }
        "1"
    } else if d == 2 {
        proof {
            reveal_strlit("2");
            assert("2"@ =~= seq![dec_digit(2)]);
        }
        "2"
    } else if d == 3 {
        proof {
            reveal_strlit("3");
            assert("3"@ =~= seq![dec_digit(3)]);
        }
        "3"
    } else if d == 4 {
        proof {
            reveal_strlit("4");
            assert("4"@ =~= seq![dec_digit(4)]);
        }
        "4"
    } else if d == 5 {
        proof {
            reveal_strlit("5");
            assert("5"@ =~= seq![dec_digit(5)]);
        }
        "5"
    } else if d == 6 {
        proof {
            reveal_strlit("6");
            assert("6"@ =~= seq![dec_digit(6)]);
        }
        "6"
    } else if d == 7 {
        proof {
            reveal_strlit("7");
            assert("7"@ =~= seq![dec_digit(7)]);
        }
        "7"
    } else if d == 8 {
        proof {
            reveal_strlit("8");
            assert("8"@ =~= seq![dec_digit(8)]);
        }
        "8"
    } else {
        proof {
            reveal_strlit("9");
            assert("9"@ =~= seq![dec_digit(9)]);
        }
        "9"
    }
}

/// Append the digits of `n` to `s`.
fn push_dec(n: u64, s: &mut String)
    ensures
        final(s)@ == old(s)@ + dec_chars(n as int),
    decreases n,
{
    if n == 0 {
        proof {
            assert(old(s)@ + dec_chars(0) =~= old(s)@);
        }
        return ;
    }
    push_dec(n / 10, s);
    let d = n % 10;
    s.append(digit_str(d));
    proof {
        assert(dec_chars(n as int) == dec_chars(n as int / 10).push(dec_digit(n as int % 10)));
        assert(old(s)@ + dec_chars((n / 10) as int) + seq![dec_digit(d as int)] =~= old(s)@
            + dec_chars(n as int));
    }
}

/// Render `n` in decimal.
pub fn u64_to_string(n: u64) -> (r: String)
    ensures
        r@ == dec_str(n as int),
{
    if n == 0 {
        let mut r = String::new();
        r.append(digit_str(0));
        proof {
            assert(r@ =~= seq!['0']);
        }
        return r;
    }
    let mut r = String::new();
    push_dec(n, &mut r);
    proof {
        assert(Seq::<char>::empty() + dec_chars(n as int) =~= dec_chars(n as int));
    }
    r
}

/// Render `n` in decimal, with a sign when negative.
pub fn i32_to_string(n: i32) -> (r: String)
    ensures
        r@ == dec_int_str(n as int),
{
    if n >= 0 {
        u64_to_string(n as u64)
    } else {
        let mut r = String::new();
        proof {
            reveal_strlit("-");
            assert("-"@ =~= seq!['-']);
        }
        r.append("-");
        let magnitude: u64 = (-(n as i64)) as u64;
        let digits = u64_to_string(magnitude);
        r.append(digits.as_str());
        proof {
            assert(Seq::<char>::empty() + seq!['-'] + dec_str(magnitude as int) =~= dec_int_str(
                n as int,
            ));
        }
        r
    }
}

/// Render `n` in decimal.
pub fn usize_to_string(n: usize) -> (r: String)
    ensures
        r@ == dec_str(n as int),
{
    u64_to_string(n as u64)
}

/// `pre + x + post`, for URL paths with one variable segment.
pub fn join1(pre: &str, x: &String, post: &str) -> (r: String)
    ensures
        r@ == pre@ + x@ + post@,
{
    let mut r = String::new();
    r.append(pre);
    r.append(x.as_str());
    r.append(post);
    proof {
        assert(Seq::<char>::empty() + pre@ + x@ + post@ =~= pre@ + x@ + post@);
    }
    r
}

/// `pre + x + mid + y + post`, for URL paths with two variable segments.
pub fn join2(pre: &str, x: &String, mid: &str, y: &String, post: &str) -> (r: String)
    ensures
        r@ == pre@ + x@ + mid@ + y@ + post@,
{
    let mut r = String::new();
    r.append(pre);
    r.append(x.as_str());
    r.append(mid);
    r.append(y.as_str());
    r.append(post);
    proof {
        assert(Seq::<char>::empty() + pre@ + x@ + mid@ + y@ + post@ =~= pre@ + x@ + mid@ + y@
            + post@);
    }
    r
}

/// `pre + x + m1 + y + m2 + z + post`, for URL paths with three variable
/// segments.
pub fn join3(pre: &str, x: &String, m1: &str, y: &String, m2: &str, z: &String, post: &str) -> (r:
    String)
    ensures
        r@ == pre@ + x@ + m1@ + y@ + m2@ + z@ + post@,
{
    let mut r = String::new();
    r.append(pre);
    r.append(x.as_str());
    r.append(m1);
    r.append(y.as_str());
    r.append(m2);
    r.append(z.as_str());
    r.append(post);
    proof {
        assert(Seq::<char>::empty() + pre@ + x@ + m1@ + y@ + m2@ + z@ + post@ =~= pre@ + x@ + m1@
            + y@ + m2@ + z@ + post@);
    }
    r
}

/// `pre + x + m1 + y + m2 + z + m3 + w`, for URL paths with four variable
/// segments.
pub fn join4(
    pre: &str,
    x: &String,
    m1: &str,
    y: &String,
    m2: &str,
    z: &String,
    m3: &str,
    w: &String,
) -> (r: String)
    ensures
        r@ == pre@ + x@ + m1@ + y@ + m2@ + z@ + m3@ + w@,
{
    let mut r = String::new();
    r.append(pre);
    r.append(x.as_str());
    r.append(m1);
    r.append(y.as_str());
    r.append(m2);
    r.append(z.as_str());
    r.append(m3);
    r.append(w.as_str());
    proof {
        assert(Seq::<char>::empty() + pre@ + x@ + m1@ + y@ + m2@ + z@ + m3@ + w@ =~= pre@ + x@
            + m1@ + y@ + m2@ + z@ + m3@ + w@);
    }
    r
}

/// `pre + x`, for URL paths ending in a variable segment.
pub fn join1e(pre: &str, x: &String) -> (r: String)
    ensures
        r@ == pre@ + x@,
{
    let mut r = String::new();
    r.append(pre);
    r.append(x.as_str());
    proof {
        assert(Seq::<char>::empty() + pre@ + x@ =~= pre@ + x@);
    }
    r
}

/// `pre + x + mid + y`, for URL paths ending in a variable segment.
pub fn join2e(pre: &str, x: &String, mid: &str, y: &String) -> (r: String)
    ensures
        r@ == pre@ + x@ + mid@ + y@,
{
    let mut r = String::new();
    r.append(pre);
    r.append(x.as_str());
    r.append(mid);
    r.append(y.as_str());
    proof {
        assert(Seq::<char>::empty() + pre@ + x@ + mid@ + y@ =~= pre@ + x@ + mid@ + y@);
    }
    r
}

/// `pre + x + m1 + y + m2 + z`, for URL paths ending in a variable
/// segment.
pub fn join3e(pre: &str, x: &String, m1: &str, y: &String, m2: &str, z: &String) -> (r: String)
    ensures
        r@ == pre@ + x@ + m1@ + y@ + m2@ + z@,
{
    let mut r = String::new();
    r.append(pre);
    r.append(x.as_str());
    r.append(m1);
    r.append(y.as_str());
    r.append(m2);
    r.append(z.as_str());
    proof {
        assert(Seq::<char>::empty() + pre@ + x@ + m1@ + y@ + m2@ + z@ =~= pre@ + x@ + m1@ + y@
            + m2@ + z@);
    }
    r
}

/// The views of a vector of string pairs, as query parameters are
/// specified.
pub open spec fn views_of_pairs(v: Seq<(String, String)>) -> Seq<(Seq<char>, Seq<char>)> {
    v.map_values(|p: (String, String)| (p.0@, p.1@))
}

/// Append the pair `(name, s)` when the optional string is set.
pub fn push_opt_str(r: &mut Vec<(String, String)>, name: &str, v: &Option<String>)
    ensures
        views_of_pairs(final(r)@) == match *v {
            Some(s) => views_of_pairs(old(r)@).push((name@, s@)),
            None => views_of_pairs(old(r)@),
        },
{
    match v {
        Some(s) => {
            let ghost before = r@;
            r.push((String::from_str(name), s.clone()));
            proof {
                assert(views_of_pairs(r@) =~= views_of_pairs(before).push((name@, s@)));
            }
        },
        None => {},
    }
}

/// Append the pair `(name, decimal of n)` when the optional number is
/// set.
pub fn push_opt_i32(r: &mut Vec<(String, String)>, name: &str, v: &Option<i32>)
    ensures
        views_of_pairs(final(r)@) == match *v {
            Some(n) => views_of_pairs(old(r)@).push((name@, dec_int_str(n as int))),
            None => views_of_pairs(old(r)@),
        },
{
    match v {
        Some(n) => {
            let ghost before = r@;
            r.push((String::from_str(name), i32_to_string(*n)));
            proof {
                assert(views_of_pairs(r@) =~= views_of_pairs(before).push(
                    (name@, dec_int_str(*n as int)),
                ));
            }
        },
        None => {},
    }
}

/// Append the pair `(name, decimal of n)` when the optional size is set.
pub fn push_opt_usize(r: &mut Vec<(String, String)>, name: &str, v: &Option<usize>)
    ensures
        views_of_pairs(final(r)@) == match *v {
            Some(n) => views_of_pairs(old(r)@).push((name@, dec_str(n as int))),
            None => views_of_pairs(old(r)@),
        },
{
    match v {
        Some(n) => {
            let ghost before = r@;
            r.push((String::from_str(name), usize_to_string(*n)));
            proof {
                assert(views_of_pairs(r@) =~= views_of_pairs(before).push(
                    (name@, dec_str(*n as int)),
                ));
            }
        },
        None => {},
    }
}

} // verus!
