//! Decimal text forms of 64-bit integers: the store addresses columns with
//! textual values, so reading and writing them needs an exact account of
//! what a number's text is.

use vstd::prelude::*;

verus! {

/// An ASCII decimal digit.
pub open spec fn dec_digit(c: char) -> bool {
    '0' <= c && c <= '9'
}

/// The numeric value of one decimal digit.
pub open spec fn digit_val(c: char) -> int {
    (c as u32) - ('0' as u32)
}

/// The digit character for one value below ten.
pub open spec fn digit_char(v: int) -> char {
    if v == 0 {
        '0'
    } else if v == 1 {
        '1'
    } else if v == 2 {
        '2'
    } else if v == 3 {
        '3'
    } else if v == 4 {
        '4'
    } else if v == 5 {
        '5'
    } else if v == 6 {
        '6'
    } else if v == 7 {
        '7'
    } else if v == 8 {
        '8'
    } else {
        '9'
    }
}

/// Every character is a decimal digit.
pub open spec fn all_digits(s: Seq<char>) -> bool {
    forall|i: int| 0 <= i < s.len() ==> dec_digit(#[trigger] s[i])
}

/// The value of a digit string, most significant digit first.
pub open spec fn dec_value(s: Seq<char>) -> int
    decreases s.len(),
{
    if s.len() == 0 {
        0
    } else {
        dec_value(s.drop_last()) * 10 + digit_val(s.last())
    }
}

/// The digits of a signed decimal text: everything after an optional
/// leading sign.
pub open spec fn digits_body(s: Seq<char>) -> Seq<char> {
    if s.len() > 0 && (s[0] == '-' || s[0] == '+') {
        s.skip(1)
    } else {
        s
    }
}

/// The signed value a decimal text denotes.
pub open spec fn int_value(s: Seq<char>) -> int {
    if s.len() > 0 && s[0] == '-' {
        -dec_value(s.skip(1))
    } else {
        dec_value(digits_body(s))
    }
}

/// Whether a text is an optional sign, then one or more digits, denoting a
/// value that fits in an `i64`.
pub open spec fn valid_i64_text(s: Seq<char>) -> bool {
    &&& digits_body(s).len() > 0
    &&& all_digits(digits_body(s))
    &&& i64::MIN <= int_value(s) <= i64::MAX
}

/// The canonical decimal text of a non-negative value.
pub open spec fn dec_text(v: int) -> Seq<char>
    recommends
        v >= 0,
    decreases v,
{
    if v < 10 {
        seq![digit_char(v)]
    } else {
        dec_text(v / 10).push(digit_char(v % 10))
    }
}

/// The canonical decimal text of a signed value.
pub open spec fn i64_text(v: int) -> Seq<char> {
    if v < 0 {
        seq!['-'] + dec_text(-v)
    } else {
        dec_text(v)
    }
}

proof fn lemma_dec_value_nonneg(s: Seq<char>)
    requires
        all_digits(s),
    ensures
        dec_value(s) >= 0,
    decreases s.len(),
{
    if s.len() > 0 {
        assert(all_digits(s.drop_last())) by {
            assert(forall|i: int|
                0 <= i < s.drop_last().len() ==> #[trigger] s.drop_last()[i] == s[i]);
        }
        lemma_dec_value_nonneg(s.drop_last());
        assert(dec_digit(s.last()));
    }
}

proof fn lemma_dec_value_prefix(s: Seq<char>, j: int)
    requires
        all_digits(s),
        0 <= j <= s.len(),
    ensures
        dec_value(s.subrange(0, j)) <= dec_value(s),
    decreases s.len(),
{
    if j == s.len() {
        assert(s.subrange(0, j) =~= s);
    } else {
        let t = s.drop_last();
        assert(all_digits(t)) by {
            assert(forall|i: int| 0 <= i < t.len() ==> #[trigger] t[i] == s[i]);
        }
        assert(s.subrange(0, j) =~= t.subrange(0, j));
        lemma_dec_value_prefix(t, j);
        lemma_dec_value_nonneg(t);
        assert(dec_digit(s.last()));
        assert(dec_value(t) * 10 >= dec_value(t));
    }
}

/// Parse a signed decimal text into an `i64`: `Some` exactly on texts of
/// the shape `valid_i64_text` describes, with the value they denote.
pub fn parse_i64(s: &str) -> (r: Option<i64>)
    ensures
        valid_i64_text(s@) ==> r == Some(int_value(s@) as i64),
        !valid_i64_text(s@) ==> r is None,
{
    let n = s.unicode_len();
    if n == 0 {
        return None;
    }
    let first = s.get_char(0);
    let neg = first == '-';
    let signed = neg || first == '+';
    let start: usize = if signed {
        1
    } else {
        0
    };
    proof {
        assert(digits_body(s@) =~= s@.subrange(start as int, n as int));
    }
    if n == start {
        return None;
    }
    let ghost body = s@.subrange(start as int, n as int);
    let mut i = start;
    let mut acc: u128 = 0;
    while i < n
        invariant
            start <= i <= n,
            n == s@.len(),
            body == s@.subrange(start as int, n as int),
            digits_body(s@) == body,
            all_digits(s@.subrange(start as int, i as int)),
            acc == dec_value(s@.subrange(start as int, i as int)),
            acc <= 9223372036854775808u128,
        decreases n - i,
    {
        let c = s.get_char(i);
        if c < '0' || c > '9' {
            proof {
                assert(body[i - start] == s@[i as int]);
                assert(!all_digits(body));
            }
            return None;
        }
        let d: u128 = (c as u32 - '0' as u32) as u128;
        let next: u128 = acc * 10 + d;
        proof {
            let pre = s@.subrange(start as int, i as int);
            let ext = s@.subrange(start as int, i + 1 as int);
            assert(ext.drop_last() =~= pre);
            assert(ext.last() == s@[i as int]);
            assert(all_digits(ext)) by {
                assert(forall|j: int|
                    0 <= j < ext.len() ==> #[trigger] ext[j] == s@[start + j]);
            }
            assert(dec_value(ext) == acc * 10 + d);
        }
        if next > 9223372036854775808u128 {
            proof {
                let ext = s@.subrange(start as int, i + 1 as int);
                if all_digits(body) {
                    assert(ext =~= body.subrange(0, i + 1 - start as int));
                    lemma_dec_value_prefix(body, i + 1 - start as int);
                    assert(dec_value(body) > 9223372036854775808);
                }
            }
            return None;
        }
        acc = next;
        i += 1;
    }
    proof {
        lemma_dec_value_nonneg(body);
    }
    if neg {
        if acc == 9223372036854775808u128 {
            Some(i64::MIN)
        } else {
            Some(-(acc as i64))
        }
    } else {
        if acc == 9223372036854775808u128 {
            None
        } else {
            Some(acc as i64)
        }
    }
}

fn digit_str(v: u64) -> (r: &'static str)
    requires
        v < 10,
    ensures
        r@ == seq![digit_char(v as int)],
{
    if v == 0 {
        proof {
            reveal_strlit("0");
            assert("0"@ =~= seq![digit_char(0)]);
        }
        "0"
    } else if v == 1 {
        proof {
            reveal_strlit("1");
            assert("1"@ =~= seq![digit_char(1)]);
        }
        "1"
    } else if v == 2 {
        proof {
            reveal_strlit("2");
            assert("2"@ =~= seq![digit_char(2)]);
        }
        "2"
    } else if v == 3 {
        proof {
            reveal_strlit("3");
            assert("3"@ =~= seq![digit_char(3)]);
        }
        "3"
    } else if v == 4 {
        proof {
            reveal_strlit("4");
            assert("4"@ =~= seq![digit_char(4)]);
        }
        "4"
    } else if v == 5 {
        proof {
            reveal_strlit("5");
            assert("5"@ =~= seq![digit_char(5)]);
        }
        "5"
    } else if v == 6 {
        proof {
            reveal_strlit("6");
            assert("6"@ =~= seq![digit_char(6)]);
        }
        "6"
    } else if v == 7 {
        proof {
            reveal_strlit("7");
            assert("7"@ =~= seq![digit_char(7)]);
        }
        "7"
    } else if v == 8 {
        proof {
            reveal_strlit("8");
            assert("8"@ =~= seq![digit_char(8)]);
        }
        "8"
    } else {
        proof {
            reveal_strlit("9");
            assert("9"@ =~= seq![digit_char(9)]);
        }
        "9"
    }
}

fn dec_string_u64(v: u64) -> (r: String)
    ensures
        r@ == dec_text(v as int),
    decreases v,
{
    if v < 10 {
        String::from_str(digit_str(v))
    } else {
        let mut s = dec_string_u64(v / 10);
        s.append(digit_str(v % 10));
        proof {
            assert(s@ =~= dec_text((v / 10) as int).push(digit_char((v % 10) as int)));
        }
        s
    }
}

/// Write an `i64` as its canonical decimal text.
pub fn format_i64(v: i64) -> (r: String)
    ensures
        r@ == i64_text(v as int),
{
    if v < 0 {
        let mag: u64 = if v == i64::MIN {
            9223372036854775808u64
        } else {
            (-v) as u64
        };
        let digits = dec_string_u64(mag);
        let mut out = String::from_str("-");
        proof {
            reveal_strlit("-");
        }
        out.append(digits.as_str());
        proof {
            assert(out@ =~= seq!['-'] + dec_text(-(v as int)));
        }
        out
    } else {
        dec_string_u64(v as u64)
    }
}

} // verus!
