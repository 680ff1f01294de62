//! Decimal text for 32-bit signed integers: the parsing that the renderer
//! settings go through, and the rendering used in error messages.

use vstd::prelude::*;

verus! {

/// Whether `c` is one of the ASCII digits `0` to `9`.
pub open spec fn is_ascii_digit(c: char) -> bool {
    '0' as int <= c as int && c as int <= '9' as int
}

/// The value of an ASCII digit.
pub open spec fn digit_value(c: char) -> int {
    c as int - '0' as int
}

/// Every character of `s` is an ASCII digit.
pub open spec fn all_digits(s: Seq<char>) -> bool {
    forall|i: int| 0 <= i < s.len() ==> is_ascii_digit(#[trigger] s[i])
}

/// The number that a run of decimal digits denotes (most significant first).
pub open spec fn digits_value(s: Seq<char>) -> int
    decreases s.len(),
{
    if s.len() == 0 {
        0
    } else {
        digits_value(s.drop_last()) * 10 + digit_value(s.last())
    }
}

/// The text begins with a minus sign.
pub open spec fn sign_negative(s: Seq<char>) -> bool {
    s.len() > 0 && s[0] == '-'
}

/// The text after an optional leading `+` or `-`.
pub open spec fn magnitude_text(s: Seq<char>) -> Seq<char> {
    if s.len() > 0 && (s[0] == '-' || s[0] == '+') {
        s.drop_first()
    } else {
        s
    }
}

/// What `str::parse::<i32>` gives for `s`: an optional sign, then one or more
/// ASCII digits, whose value must lie in the range of `i32`.
pub open spec fn spec_parse_i32(s: Seq<char>) -> Option<i32> {
    let body = magnitude_text(s);
    let v = if sign_negative(s) {
        -digits_value(body)
    } else {
        digits_value(body)
    };
    if body.len() > 0 && all_digits(body) && i32::MIN <= v && v <= i32::MAX {
        Some(v as i32)
    } else {
        None
    }
}

/// The ASCII digit for a value in `0..10`.
pub open spec fn digit_char(d: int) -> char {
    if d == 0 {
        '0'
    } else if d == 1 {
        '1'
    } else if d == 2 {
        '2'
    } else if d == 3 {
        '3'
    } else if d == 4 {
        '4'
    } else if d == 5 {
        '5'
    } else if d == 6 {
        '6'
    } else if d == 7 {
        '7'
    } else if d == 8 {
        '8'
    } else {
        '9'
    }
}

/// The decimal digits of a natural number, without leading zeros.
pub open spec fn nat_digits(v: nat) -> Seq<char>
    decreases v,
{
    if v < 10 {
        seq![digit_char(v as int)]
    } else {
        nat_digits(v / 10).push(digit_char((v % 10) as int))
    }
}

/// The text that `format!("{}", n)` gives for an `i32`.
pub open spec fn spec_format_i32(n: i32) -> Seq<char> {
    if n < 0 {
        seq!['-'] + nat_digits((-n) as nat)
    } else {
        nat_digits(n as nat)
    }
}

proof fn lemma_digits_value_nonneg(s: Seq<char>)
    requires
        all_digits(s),
    ensures
        digits_value(s) >= 0,
    decreases s.len(),
{
    if s.len() > 0 {
        assert(all_digits(s.drop_last()));
        lemma_digits_value_nonneg(s.drop_last());
        assert(is_ascii_digit(s[s.len() - 1]));
    }
}

proof fn lemma_digit_char(d: int)
    requires
        0 <= d < 10,
    ensures
        is_ascii_digit(digit_char(d)),
        digit_value(digit_char(d)) == d,
{
}

proof fn lemma_nat_digits(v: nat)
    ensures
        nat_digits(v).len() > 0,
        all_digits(nat_digits(v)),
        digits_value(nat_digits(v)) == v,
    decreases v,
{
    if v < 10 {
        lemma_digit_char(v as int);
        assert(nat_digits(v).drop_last() =~= Seq::<char>::empty());
        assert(digits_value(Seq::<char>::empty()) == 0);
        assert(nat_digits(v).last() == digit_char(v as int));
    } else {
        lemma_nat_digits(v / 10);
        lemma_digit_char((v % 10) as int);
        let s = nat_digits(v);
        assert(s.drop_last() =~= nat_digits(v / 10));
        assert(s.last() == digit_char((v % 10) as int));
        assert(v == (v / 10) * 10 + v % 10);
        assert(digits_value(s) == digits_value(nat_digits(v / 10)) * 10 + (v % 10));
        assert forall|i: int| 0 <= i < s.len() implies is_ascii_digit(#[trigger] s[i]) by {
            if i < s.len() - 1 {
                assert(s[i] == nat_digits(v / 10)[i]);
            }
        }
    }
}

/// Reading back the decimal text of any `i32` gives the same number.
pub proof fn lemma_parse_format_roundtrip(n: i32)
    ensures
        spec_parse_i32(spec_format_i32(n)) == Some(n),
{
    if n < 0 {
        let body = nat_digits((-n) as nat);
        lemma_nat_digits((-n) as nat);
        let s = seq!['-'] + body;
        assert(s.drop_first() =~= body);
        assert(magnitude_text(s) == body);
        assert(sign_negative(s));
    } else {
        let s = nat_digits(n as nat);
        lemma_nat_digits(n as nat);
        assert(is_ascii_digit(s[0]));
        assert(magnitude_text(s) == s);
        assert(!sign_negative(s));
    }
}

/// Parses `text` as `str::parse::<i32>` does.
pub fn parse_i32(text: &str) -> (r: Option<i32>)
    ensures
        r == spec_parse_i32(text@),
{
    let len = text.unicode_len();
    let mut start: usize = 0;
    let mut negative = false;
    if len > 0 {
        let c = text.get_char(0);
        if c == '-' {
            negative = true;
            start = 1;
        } else if c == '+' {
            start = 1;
        }
    }
    let ghost body = magnitude_text(text@);
    assert(body =~= text@.subrange(start as int, len as int));
    assert(negative == sign_negative(text@));
    if start >= len {
        return None;
    }
    let mut acc: i64 = 0;
    let mut overflow = false;
    let mut i: usize = start;
    assert(text@.subrange(start as int, start as int) =~= Seq::<char>::empty());
    while i < len
        invariant
            start <= i <= len,
            len == text@.len(),
            body == text@.subrange(start as int, len as int),
            body == magnitude_text(text@),
            all_digits(text@.subrange(start as int, i as int)),
            !overflow ==> acc == digits_value(text@.subrange(start as int, i as int)),
            overflow ==> digits_value(text@.subrange(start as int, i as int)) > 2147483648,
            0 <= acc <= 2147483648,
        decreases len - i,
    {
        let c = text.get_char(i);
        if !('0' <= c && c <= '9') {
            assert(body[i - start] == c);
            assert(!all_digits(body));
            return None;
        }
        let d: i64 = (c as u32 - '0' as u32) as i64;
        let ghost prev = text@.subrange(start as int, i as int);
        let ghost next_seq = text@.subrange(start as int, i + 1);
        assert(next_seq.drop_last() =~= prev);
        assert(next_seq.last() == c);
        assert(digits_value(next_seq) == digits_value(prev) * 10 + d);
        assert forall|j: int| 0 <= j < next_seq.len() implies is_ascii_digit(#[trigger] next_seq[j]) by {
            if j < prev.len() {
                assert(next_seq[j] == prev[j]);
            }
        }
        if !overflow {
            let next = acc * 10 + d;
            if next > 2147483648 {
                overflow = true;
            } else {
                acc = next;
            }
        } else {
            proof {
                lemma_digits_value_nonneg(prev);
            }
        }
        i = i + 1;
    }
    assert(text@.subrange(start as int, len as int) == body);
    if overflow {
        return None;
    }
    if negative {
        Some((-acc) as i32)
    } else if acc > 2147483647 {
        None
    } else {
        Some(acc as i32)
    }
}

fn digit_str(d: u32) -> (r: &'static str)
    requires
        d < 10,
    ensures
        r@ == seq![digit_char(d as int)],
{
    proof {
        reveal_strlit("0");
        reveal_strlit("1");
        reveal_strlit("2");
        reveal_strlit("3");
        reveal_strlit("4");
        reveal_strlit("5");
        reveal_strlit("6");
        reveal_strlit("7");
        reveal_strlit("8");
        reveal_strlit("9");
    }
    if d == 0 {
        "0"
    } else if d == 1 {
        "1"
    } else if d == 2 {
        "2"
    } else if d == 3 {
        "3"
    } else if d == 4 {
        "4"
    } else if d == 5 {
        "5"
    } else if d == 6 {
        "6"
    } else if d == 7 {
        "7"
    } else if d == 8 {
        "8"
    } else {
        "9"
    }
}

fn append_digits(out: &mut String, v: u32)
    ensures
        final(out)@ == old(out)@ + nat_digits(v as nat),
    decreases v,
{
    if v >= 10 {
        append_digits(out, v / 10);
    }
    out.append(digit_str(v % 10));
    assert(old(out)@ + nat_digits(v as nat) =~= if v >= 10 {
        old(out)@ + nat_digits((v / 10) as nat) + seq![digit_char((v % 10) as int)]
    } else {
        old(out)@ + seq![digit_char((v % 10) as int)]
    });
}

/// Appends the decimal text of `n` to `out`.
pub fn append_i32(out: &mut String, n: i32)
    ensures
        final(out)@ == old(out)@ + spec_format_i32(n),
{
    if n < 0 {
        proof {
            reveal_strlit("-");
        }
        out.append("-");
        let magnitude: u32 = (0i64 - n as i64) as u32;
        append_digits(out, magnitude);
        assert(old(out)@ + spec_format_i32(n) =~= old(out)@ + seq!['-'] + nat_digits(magnitude as nat));
    } else {
        append_digits(out, n as u32);
    }
}

/// The decimal text of `n`, as `n.to_string()` gives it.
pub fn format_i32(n: i32) -> (r: String)
    ensures
        r@ == spec_format_i32(n),
{
    let mut out = String::new();
    append_i32(&mut out, n);
    assert(out@ =~= spec_format_i32(n));
    out
}

} // verus!
