//! Decimal representation of 64-bit integers: a spec-level definition of the
//! digit string of an integer, an executable formatter proved against it, and
//! an executable parser whose acceptance and value are pinned down exactly.
use vstd::prelude::*;

verus! {

/// The ASCII digit character for a value in 0..10.
pub open spec fn digit_char(d: int) -> char {
    ((d + 48) as u8) as char
}

/// True when `c` is an ASCII decimal digit.
pub open spec fn is_digit(c: char) -> bool {
    '0' <= c && c <= '9'
}

/// The numeric value of an ASCII digit character.
pub open spec fn digit_val(c: char) -> int {
    c as int - '0' as int
}

/// The decimal digit string of a nonnegative integer, without sign.
pub open spec fn dec_digits(n: nat) -> Seq<char>
    decreases n,
{
    if n < 10 {
        seq![digit_char(n as int)]
    } else {
        dec_digits(n / 10).push(digit_char((n % 10) as int))
    }
}

/// The decimal string of an integer, with a leading minus sign if negative.
pub open spec fn dec_int(n: int) -> Seq<char> {
    if n < 0 {
        seq!['-'] + dec_digits((-n) as nat)
    } else {
        dec_digits(n as nat)
    }
}

/// The integer denoted by a sequence of ASCII digits, most significant first.
pub open spec fn digits_val(s: Seq<char>) -> int
    decreases s.len(),
{
    if s.len() == 0 {
        0
    } else {
        digits_val(s.drop_last()) * 10 + digit_val(s.last())
    }
}

/// True when `s` consists only of ASCII digits.
pub open spec fn all_digits(s: Seq<char>) -> bool {
    forall|i: int| 0 <= i < s.len() ==> is_digit(#[trigger] s[i])
}

/// The shape `std`-style integer literals take: an optional single sign,
/// then at least one digit.
pub open spec fn is_int_literal(s: Seq<char>) -> bool {
    if s.len() == 0 {
        false
    } else if s[0] == '-' || s[0] == '+' {
        s.len() > 1 && all_digits(s.drop_first())
    } else {
        all_digits(s)
    }
}

/// The integer denoted by an integer literal.
pub open spec fn int_literal_val(s: Seq<char>) -> int
    recommends
        is_int_literal(s),
{
    if s.len() > 0 && s[0] == '-' {
        -digits_val(s.drop_first())
    } else if s.len() > 0 && s[0] == '+' {
        digits_val(s.drop_first())
    } else {
        digits_val(s)
    }
}

/// What parsing a string as an `i64` yields: the denoted value when the
/// string is a well-formed literal whose value fits, nothing otherwise.
pub open spec fn spec_parse_i64(s: Seq<char>) -> Option<int> {
    if is_int_literal(s) && i64::MIN <= int_literal_val(s) <= i64::MAX {
        Some(int_literal_val(s))
    } else {
        None
    }
}

pub proof fn lemma_dec_digits_are_digits(n: nat)
    ensures
        all_digits(dec_digits(n)),
        dec_digits(n).len() >= 1,
    decreases n,
{
    if n < 10 {
        assert(is_digit(digit_char(n as int)));
    } else {
        lemma_dec_digits_are_digits(n / 10);
        assert(is_digit(digit_char((n % 10) as int)));
    }
}

pub proof fn lemma_digits_val_of_dec(n: nat)
    ensures
        digits_val(dec_digits(n)) == n,
    decreases n,
{
    if n < 10 {
        let s = dec_digits(n);
        assert(s =~= seq![digit_char(n as int)]);
        assert(s.drop_last() =~= Seq::<char>::empty());
        assert(digits_val(Seq::<char>::empty()) == 0);
        assert(s.last() == digit_char(n as int));
        assert(digit_val(digit_char(n as int)) == n);
        assert(digits_val(s) == digits_val(s.drop_last()) * 10 + digit_val(s.last()));
    } else {
        lemma_digits_val_of_dec(n / 10);
        let s = dec_digits(n);
        assert(s.drop_last() =~= dec_digits(n / 10));
        assert(digit_val(digit_char((n % 10) as int)) == n % 10);
    }
}

/// Formats a nonnegative value as its decimal digit characters.
fn u64_digits(n: u64) -> (r: Vec<char>)
    ensures
        r@ == dec_digits(n as nat),
{
    let mut rev: Vec<char> = Vec::new();
    let mut cur: u64 = n;
    while cur >= 10
        invariant
            dec_digits(n as nat) =~= dec_digits(cur as nat) + rev@.reverse(),
        decreases cur,
    {
        let d: u64 = cur % 10;
        let c: char = ((d as u8) + 48) as char;
        proof {
            assert(c == digit_char(d as int));
            assert(dec_digits(cur as nat) =~= dec_digits((cur / 10) as nat).push(
                digit_char((cur % 10) as int),
            ));
            assert(dec_digits((cur / 10) as nat) + (rev@.push(c)).reverse() =~= dec_digits(
                cur as nat,
            ) + rev@.reverse());
        }
        rev.push(c);
        cur = cur / 10;
    }
    let c: char = ((cur as u8) + 48) as char;
    proof {
        assert(c == digit_char(cur as int));
        assert(dec_digits(cur as nat) =~= seq![digit_char(cur as int)]);
    }
    let mut r: Vec<char> = Vec::new();
    r.push(c);
    let mut i: usize = rev.len();
    while i > 0
        invariant
            i <= rev.len(),
            r@ =~= seq![digit_char(cur as int)] + rev@.subrange(i as int, rev@.len() as int)
                .reverse(),
        decreases i,
    {
        i = i - 1;
        r.push(rev[i]);
        proof {
            assert(rev@.subrange(i as int, rev@.len() as int).reverse() =~= rev@.subrange(
                i + 1,
                rev@.len() as int,
            ).reverse().push(rev@[i as int]));
        }
    }
    proof {
        assert(rev@.subrange(0, rev@.len() as int) =~= rev@);
        assert(r@ =~= dec_digits(cur as nat) + rev@.reverse());
    }
    r
}

/// Formats an integer in decimal, with a leading minus sign if negative.
pub fn i64_chars(n: i64) -> (r: Vec<char>)
    ensures
        r@ == dec_int(n as int),
{
    if n >= 0 {
        u64_digits(n as u64)
    } else {
        let mag: u64 = if n == i64::MIN {
            9223372036854775808u64
        } else {
            (-n) as u64
        };
        proof {
            assert(mag == -(n as int));
        }
        let digits = u64_digits(mag);
        let mut r: Vec<char> = Vec::new();
        r.push('-');
        let mut i: usize = 0;
        while i < digits.len()
            invariant
                i <= digits.len(),
                digits@ == dec_digits(mag as nat),
                r@ =~= seq!['-'] + digits@.subrange(0, i as int),
            decreases digits.len() - i,
        {
            r.push(digits[i]);
            i = i + 1;
        }
        proof {
            assert(digits@.subrange(0, digits@.len() as int) =~= digits@);
            assert(r@ =~= dec_int(n as int));
        }
        r
    }
}

/// Formats an integer in decimal as a string.
pub fn i64_to_string(n: i64) -> (r: String)
    ensures
        r@ == dec_int(n as int),
{
    let v = i64_chars(n);
    crate::strutil::chars_to_string(&v)
}

/// The denoted value of each digit prefix, needed to track overflow.
proof fn lemma_digits_val_snoc(s: Seq<char>, c: char)
    ensures
        digits_val(s.push(c)) == digits_val(s) * 10 + digit_val(c),
{
    assert(s.push(c).drop_last() =~= s);
    assert(s.push(c).last() == c);
}

/// Parses the digit run `s[from..to]` as a nonnegative integer accumulated
/// negatively (so that `i64::MIN` is reachable), failing on overflow.
pub fn parse_digits_neg(s: &Vec<char>, from: usize, to: usize) -> (r: Option<i64>)
    requires
        from <= to <= s@.len(),
        all_digits(s@.subrange(from as int, to as int)),
    ensures
        match r {
            Some(v) => v <= 0 && v == -digits_val(s@.subrange(from as int, to as int)),
            None => digits_val(s@.subrange(from as int, to as int)) > -(i64::MIN as int),
        },
{
    let ghost whole = s@.subrange(from as int, to as int);
    let mut acc: i64 = 0;
    let mut i: usize = from;
    while i < to
        invariant
            from <= i <= to <= s@.len(),
            all_digits(whole),
            whole == s@.subrange(from as int, to as int),
            acc <= 0,
            acc == -digits_val(s@.subrange(from as int, i as int)),
        decreases to - i,
    {
        let c = s[i];
        proof {
            assert(whole[i - from] == s@[i as int]);
            assert(is_digit(c));
        }
        let d: i64 = (c as u32 as i64) - 48;
        proof {
            assert(d == digit_val(c));
            assert(0 <= d <= 9);
            assert(s@.subrange(from as int, i + 1) =~= s@.subrange(from as int, i as int).push(c));
            lemma_digits_val_snoc(s@.subrange(from as int, i as int), c);
        }
        if acc < (-9223372036854775807i64 - 1) / 10 || (acc == (-9223372036854775807i64 - 1) / 10
            && d > 8) {
            proof {
                let pre = s@.subrange(from as int, i + 1);
                assert(digits_val(pre) > -(i64::MIN as int));
                let trunc = s@.subrange(0, to as int);
                assert(trunc.subrange(from as int, trunc.len() as int) =~= whole);
                lemma_digits_prefix_monotone(trunc, from as int, i + 1);
                assert(trunc.subrange(from as int, i + 1) =~= pre);
            }
            return None;
        }
        acc = acc * 10 - d;
        i = i + 1;
    }
    proof {
        assert(s@.subrange(from as int, i as int) =~= whole);
    }
    Some(acc)
}

/// A digit string denotes at least as much as any of its prefixes.
proof fn lemma_digits_prefix_monotone(s: Seq<char>, from: int, mid: int)
    requires
        0 <= from <= mid <= s.len(),
        all_digits(s.subrange(from, s.len() as int)),
    ensures
        digits_val(s.subrange(from, s.len() as int)) >= digits_val(s.subrange(from, mid)),
    decreases s.len() - mid,
{
    if mid == s.len() {
        assert(s.subrange(from, s.len() as int) =~= s.subrange(from, mid));
    } else {
        lemma_digits_prefix_monotone(s, from, mid + 1);
        let shorter = s.subrange(from, mid);
        let longer = s.subrange(from, mid + 1);
        assert(longer =~= shorter.push(s[mid]));
        lemma_digits_val_snoc(shorter, s[mid]);
        assert(all_digits(shorter)) by {
            assert(forall|k: int| 0 <= k < shorter.len() ==> shorter[k] == s.subrange(
                from,
                s.len() as int,
            )[k]);
        }
        lemma_digits_val_nonneg(shorter);
        assert(is_digit(s[mid])) by {
            assert(s.subrange(from, s.len() as int)[mid - from] == s[mid]);
        }
    }
}

proof fn lemma_digits_val_nonneg(s: Seq<char>)
    requires
        all_digits(s),
    ensures
        digits_val(s) >= 0,
    decreases s.len(),
{
    if s.len() > 0 {
        assert(all_digits(s.drop_last()));
        lemma_digits_val_nonneg(s.drop_last());
        assert(is_digit(s.last()));
    }
}

/// Parses a decimal integer literal, exactly as `spec_parse_i64` describes:
/// an optional sign, one or more digits, and a value within `i64` range.
pub fn parse_i64_chars(s: &Vec<char>) -> (r: Option<i64>)
    ensures
        match r {
            Some(v) => spec_parse_i64(s@) == Some(v as int),
            None => spec_parse_i64(s@) is None,
        },
{
    if s.len() == 0 {
        return None;
    }
    let c0 = s[0];
    let negative: bool = c0 == '-';
    let has_sign: bool = c0 == '-' || c0 == '+';
    let start: usize = if has_sign {
        1
    } else {
        0
    };
    if s.len() == start {
        return None;
    }
    // every character after the sign must be a digit
    let mut i: usize = start;
    while i < s.len()
        invariant
            start <= i <= s@.len(),
            s@.len() > start,
            has_sign == (s@[0] == '-' || s@[0] == '+'),
            start == (if has_sign {
                1int
            } else {
                0int
            }),
            forall|j: int| start <= j < i ==> is_digit(#[trigger] s@[j]),
        decreases s@.len() - i,
    {
        let c = s[i];
        if !('0' <= c && c <= '9') {
            proof {
                if has_sign {
                    assert(s@.drop_first()[i - 1] == s@[i as int]);
                    assert(!all_digits(s@.drop_first()));
                } else {
                    assert(!all_digits(s@));
                }
            }
            return None;
        }
        i = i + 1;
    }
    proof {
        assert(all_digits(s@.subrange(start as int, s@.len() as int))) by {
            assert(forall|j: int| 0 <= j < s@.len() - start ==> s@.subrange(
                start as int,
                s@.len() as int,
            )[j] == s@[j + start]);
        }
        if has_sign {
            assert(s@.drop_first() =~= s@.subrange(1, s@.len() as int));
        } else {
            assert(s@.subrange(0, s@.len() as int) =~= s@);
        }
        assert(is_int_literal(s@));
    }
    let neg = match parse_digits_neg(s, start, s.len()) {
        Some(v) => v,
        None => {
            proof {
                let mag = digits_val(s@.subrange(start as int, s@.len() as int));
                if negative {
                    assert(int_literal_val(s@) == -mag);
                    assert(int_literal_val(s@) < i64::MIN);
                } else {
                    assert(int_literal_val(s@) == mag);
                    assert(int_literal_val(s@) > i64::MAX);
                }
            }
            return None;
        },
    };
    if negative {
        proof {
            assert(int_literal_val(s@) == neg as int);
        }
        Some(neg)
    } else {
        if neg == i64::MIN {
            proof {
                assert(int_literal_val(s@) > i64::MAX);
            }
            return None;
        }
        proof {
            assert(int_literal_val(s@) == -(neg as int));
        }
        Some(-neg)
    }
}

/// Parses a decimal integer literal from a string.
pub fn parse_i64(s: &str) -> (r: Option<i64>)
    ensures
        match r {
            Some(v) => spec_parse_i64(s@) == Some(v as int),
            None => spec_parse_i64(s@) is None,
        },
{
    let v = crate::strutil::str_chars(s);
    parse_i64_chars(&v)
}

} // verus!
