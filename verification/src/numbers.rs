use vstd::prelude::*;

verus! {

/// A decimal digit character.
pub open spec fn is_digit(c: char) -> bool {
    48 <= c as u32 && c as u32 <= 57
}

/// The numeric value of a digit character.
pub open spec fn digit_val(c: char) -> int {
    c as u32 - 48
}

/// The digit character for a value in 0..10.
pub open spec fn digit_char(v: int) -> char {
    ((48 + v) as u8) as char
}

pub open spec fn all_digits(s: Seq<char>) -> bool {
    forall|i: int| 0 <= i < s.len() ==> is_digit(s[i])
}

/// The value of a digit string read most-significant first.
pub open spec fn dec_value(s: Seq<char>) -> int
    decreases s.len(),
{
    if s.len() == 0 {
        0
    } else {
        dec_value(s.drop_last()) * 10 + digit_val(s.last())
    }
}

/// The canonical decimal text of a non-negative number.
pub open spec fn dec_of(n: int) -> Seq<char>
    decreases n,
{
    if n < 10 {
        seq![digit_char(n)]
    } else {
        dec_of(n / 10).push(digit_char(n % 10))
    }
}

/// What parsing a decimal string as an unsigned 128-bit number yields.
pub open spec fn spec_parse_dec(s: Seq<char>) -> Option<u128> {
    if s.len() == 0 || !all_digits(s) || dec_value(s) > u128::MAX {
        None
    } else {
        Some(dec_value(s) as u128)
    }
}

pub proof fn lemma_dec_value_nonneg(s: Seq<char>)
    requires
        all_digits(s),
    ensures
        dec_value(s) >= 0,
    decreases s.len(),
{
    if s.len() > 0 {
        assert(all_digits(s.drop_last())) by {
            assert(forall|i: int| 0 <= i < s.len() - 1 ==> is_digit(#[trigger] s.drop_last()[i]));
        }
        lemma_dec_value_nonneg(s.drop_last());
    }
}

/// Extending a digit string can only increase its value.
pub proof fn lemma_dec_value_take_monotonic(s: Seq<char>, i: int, j: int)
    requires
        all_digits(s),
        0 <= i <= j <= s.len(),
    ensures
        dec_value(s.take(i)) <= dec_value(s.take(j)),
    decreases j - i,
{
    if i < j {
        lemma_dec_value_take_monotonic(s, i, j - 1);
        let t = s.take(j);
        assert(t.drop_last() =~= s.take(j - 1));
        assert(all_digits(s.take(j - 1))) by {
            assert(forall|k: int| 0 <= k < j - 1 ==> is_digit(#[trigger] s.take(j - 1)[k]));
        }
        lemma_dec_value_nonneg(s.take(j - 1));
        assert(dec_value(t) == dec_value(s.take(j - 1)) * 10 + digit_val(t.last()));
    }
}

/// Parse a decimal digit string as an unsigned 128-bit number.
/// Returns `None` on an empty string, a non-digit character, or overflow.
pub fn parse_dec(s: &Vec<char>) -> (r: Option<u128>)
    ensures
        r == spec_parse_dec(s@),
{
    if s.len() == 0 {
        return None;
    }
    let mut acc: u128 = 0;
    let mut i: usize = 0;
    while i < s.len()
        invariant
            0 <= i <= s@.len(),
            all_digits(s@.take(i as int)),
            acc == dec_value(s@.take(i as int)),
        decreases s@.len() - i,
    {
        let c = s[i];
        let d = c as u32;
        if d < 48 || d > 57 {
            assert(!is_digit(s@[i as int]));
            return None;
        }
        let dv: u128 = (d - 48) as u128;
        proof {
            assert(s@.take(i + 1).drop_last() =~= s@.take(i as int));
            assert(is_digit(s@[i as int]));
            assert forall|k: int| 0 <= k < i + 1 implies is_digit(#[trigger] s@.take(i + 1)[k]) by {
                if k < i {
                    assert(is_digit(s@.take(i as int)[k]));
                }
            }
        }
        if acc > (u128::MAX - dv) / 10 {
            proof {
                assert(dec_value(s@.take(i + 1)) == acc * 10 + dv);
                assert(acc * 10 + dv > u128::MAX) by (nonlinear_arith)
                    requires
                        acc > (u128::MAX - dv) / 10,
                        dv <= 9,
                ;
                if all_digits(s@) {
                    lemma_dec_value_take_monotonic(s@, i + 1, s@.len() as int);
                    assert(s@.take(s@.len() as int) =~= s@);
                }
            }
            return None;
        }
        proof {
            assert(acc * 10 + dv <= u128::MAX) by (nonlinear_arith)
                requires
                    acc <= (u128::MAX - dv) / 10,
                    dv <= 9,
            ;
        }
        acc = acc * 10 + dv;
        i = i + 1;
    }
    proof {
        assert(s@.take(s@.len() as int) =~= s@);
    }
    Some(acc)
}

/// Reverse a vector of characters.
fn reverse_chars(v: &Vec<char>) -> (r: Vec<char>)
    ensures
        r@ == v@.reverse(),
{
    let mut r: Vec<char> = Vec::new();
    let mut i: usize = v.len();
    while i > 0
        invariant
            0 <= i <= v@.len(),
            r@.len() == v@.len() - i,
            forall|k: int| 0 <= k < r@.len() ==> r@[k] == v@[v@.len() - 1 - k],
        decreases i,
    {
        i = i - 1;
        r.push(v[i]);
    }
    assert(r@ =~= v@.reverse());
    r
}

/// Format a number as its canonical decimal text.
pub fn u128_to_dec(n: u128) -> (r: Vec<char>)
    ensures
        r@ == dec_of(n as int),
{
    let mut rev: Vec<char> = Vec::new();
    let mut m: u128 = n;
    while m >= 10
        invariant
            dec_of(n as int) =~= dec_of(m as int) + rev@.reverse(),
        decreases m,
    {
        let d = (m % 10) as u32;
        let c = ((48 + d) as u8) as char;
        proof {
            assert(dec_of(m as int) =~= dec_of(m as int / 10).push(digit_char(m as int % 10)));
            assert((dec_of(m as int / 10) + rev@.push(c).reverse()) =~= dec_of(m as int)
                + rev@.reverse());
        }
        rev.push(c);
        m = m / 10;
    }
    let d = m as u32;
    let c = ((48 + d) as u8) as char;
    proof {
        assert((rev@.push(c)).reverse() =~= seq![c] + rev@.reverse());
        assert(seq![digit_char(m as int)] + rev@.reverse() =~= dec_of(m as int) + rev@.reverse());
    }
    let mut rev2 = rev;
    rev2.push(c);
    let r = reverse_chars(&rev2);
    proof {
        assert(r@ =~= dec_of(n as int));
    }
    r
}

/// The canonical decimal text of a number consists of digits.
pub proof fn lemma_dec_of_digits(n: int)
    requires
        n >= 0,
    ensures
        all_digits(dec_of(n)),
        dec_of(n).len() >= 1,
    decreases n,
{
    if n < 10 {
        assert(is_digit(dec_of(n)[0]));
    } else {
        lemma_dec_of_digits(n / 10);
        assert(forall|i: int|
            0 <= i < dec_of(n / 10).len() ==> is_digit(#[trigger] dec_of(n)[i]));
        assert(is_digit(dec_of(n).last()));
    }
}

/// Parsing the canonical decimal text of a number yields the number back.
pub proof fn lemma_dec_round_trip(n: int)
    requires
        0 <= n <= u128::MAX,
    ensures
        dec_value(dec_of(n)) == n,
        spec_parse_dec(dec_of(n)) == Some(n as u128),
    decreases n,
{
    lemma_dec_of_digits(n);
    if n < 10 {
        let s = seq![digit_char(n)];
        assert(s.drop_last() =~= Seq::<char>::empty());
        assert(dec_value(s) == dec_value(Seq::<char>::empty()) * 10 + digit_val(digit_char(n)));
        assert(digit_val(digit_char(n)) == n);
    } else {
        lemma_dec_round_trip(n / 10);
        assert(dec_of(n).drop_last() =~= dec_of(n / 10));
        assert(dec_value(dec_of(n)) == (n / 10) * 10 + (n % 10));
    }
}

} // verus!
