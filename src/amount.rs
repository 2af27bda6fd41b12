//! Amounts in minor units and their decimal text form, as processors that
//! carry amounts as strings expect them.
use vstd::prelude::*;

verus! {

/// The character of a decimal digit `d < 10`.
pub open spec fn digit_char(d: nat) -> char {
    if d == 0 {
        '0'
    } else if d == 1 {
        '1'
    } else if d == 2 {
        '2'
    } else if d == 3 {
        '3'
    } else if d == 4 {
        '4'
    } else if d == 5 {
        '5'
    } else if d == 6 {
        '6'
    } else if d == 7 {
        '7'
    } else if d == 8 {
        '8'
    } else {
        '9'
    }
}

pub open spec fn is_digit(c: char) -> bool {
    c == '0' || c == '1' || c == '2' || c == '3' || c == '4' || c == '5' || c == '6' || c == '7'
        || c == '8' || c == '9'
}

/// The value of a digit character.
pub open spec fn digit_value(c: char) -> nat {
    if c == '1' {
        1
    } else if c == '2' {
        2
    } else if c == '3' {
        3
    } else if c == '4' {
        4
    } else if c == '5' {
        5
    } else if c == '6' {
        6
    } else if c == '7' {
        7
    } else if c == '8' {
        8
    } else if c == '9' {
        9
    } else {
        0
    }
}

/// The shortest decimal digits of `n`.
pub open spec fn digits_of(n: nat) -> Seq<char>
    decreases n,
{
    if n < 10 {
        seq![digit_char(n)]
    } else {
        digits_of(n / 10).push(digit_char(n % 10))
    }
}

/// Decimal text of an integer: an optional minus sign, then the shortest digits.
pub open spec fn decimal_of(a: int) -> Seq<char> {
    if a < 0 {
        seq!['-'] + digits_of((-a) as nat)
    } else {
        digits_of(a as nat)
    }
}

pub open spec fn all_digits(s: Seq<char>) -> bool {
    forall|i: int| 0 <= i < s.len() ==> is_digit(#[trigger] s[i])
}

/// Digits with no superfluous leading zero.
pub open spec fn canonical_digits(s: Seq<char>) -> bool {
    &&& s.len() > 0
    &&& all_digits(s)
    &&& (s.len() == 1 || s[0] != '0')
}

/// The value of a sequence of digits, most significant first.
pub open spec fn value_of(s: Seq<char>) -> nat
    decreases s.len(),
{
    if s.len() == 0 {
        0
    } else {
        value_of(s.drop_last()) * 10 + digit_value(s.last())
    }
}

/// The amount that a decimal text stands for: exactly the texts that
/// `decimal_of` gives for a value in range of `i64`.
pub open spec fn parse_decimal(s: Seq<char>) -> Option<i64> {
    if canonical_digits(s) && value_of(s) <= i64::MAX {
        Some(value_of(s) as i64)
    } else if s.len() > 1 && s[0] == '-' && canonical_digits(s.drop_first()) && value_of(
        s.drop_first(),
    ) != 0 && value_of(s.drop_first()) <= 0x8000_0000_0000_0000 {
        Some((-value_of(s.drop_first())) as i64)
    } else {
        None
    }
}

proof fn lemma_digits_of(n: nat)
    ensures
        canonical_digits(digits_of(n)),
        value_of(digits_of(n)) == n,
        n != 0 ==> digits_of(n)[0] != '0',
    decreases n,
{
    if n >= 10 {
        lemma_digits_of(n / 10);
        let s = digits_of(n);
        assert(s.drop_last() =~= digits_of(n / 10));
        assert(s[0] == digits_of(n / 10)[0]);
        assert(s.last() == digit_char((n % 10) as nat));
        assert(digit_value(digit_char((n % 10) as nat)) == n % 10);
        assert(value_of(s) == value_of(s.drop_last()) * 10 + digit_value(s.last()));
        assert(all_digits(s)) by {
            assert forall|i: int| 0 <= i < s.len() implies is_digit(#[trigger] s[i]) by {
                if i < s.len() - 1 {
                    assert(s[i] == digits_of(n / 10)[i]);
                }
            }
        }
    } else {
        let s = digits_of(n);
        assert(s.drop_last() =~= Seq::<char>::empty());
        assert(value_of(s.drop_last()) == 0);
        assert(digit_value(digit_char(n)) == n);
    }
}

proof fn lemma_value_prefix(s: Seq<char>, i: int)
    requires
        0 <= i <= s.len(),
    ensures
        value_of(s.subrange(0, i)) <= value_of(s),
    decreases s.len() - i,
{
    if i < s.len() {
        lemma_value_prefix(s, i + 1);
        assert(s.subrange(0, i + 1).drop_last() =~= s.subrange(0, i));
    } else {
        assert(s.subrange(0, i) =~= s);
    }
}

proof fn lemma_value_leading(s: Seq<char>)
    requires
        canonical_digits(s),
        s.len() > 1,
    ensures
        value_of(s) != 0,
    decreases s.len(),
{
    if s.len() > 2 {
        assert(s.drop_last()[0] == s[0]);
        assert(all_digits(s.drop_last()));
        lemma_value_leading(s.drop_last());
        let v = value_of(s.drop_last());
        let d = digit_value(s.last());
        assert(v * 10 + d != 0) by (nonlinear_arith)
            requires
                v != 0,
        ;
    } else {
        assert(s.drop_last().drop_last() =~= Seq::<char>::empty());
        assert(is_digit(s[0]));
        assert(s.drop_last().last() == s[0]);
        assert(value_of(s.drop_last().drop_last()) == 0);
        assert(value_of(s.drop_last()) == digit_value(s[0]));
    }
}

proof fn lemma_canonical_unique(s: Seq<char>)
    requires
        canonical_digits(s),
    ensures
        digits_of(value_of(s)) == s,
    decreases s.len(),
{
    let n = value_of(s);
    let p = s.drop_last();
    assert(is_digit(s.last()));
    if s.len() == 1 {
        assert(p =~= Seq::<char>::empty());
        assert(value_of(p) == 0);
        assert(n == digit_value(s[0]));
        assert(digit_char(digit_value(s[0])) == s[0]);
        assert(digits_of(n) =~= s);
    } else {
        assert(p[0] == s[0]);
        assert(all_digits(p));
        lemma_canonical_unique(p);
        if p.len() > 1 {
            lemma_value_leading(p);
        } else {
            assert(value_of(p.drop_last()) == 0);
        }
        assert(value_of(p) != 0);
        assert(n / 10 == value_of(p));
        assert(n % 10 == digit_value(s.last()));
        assert(digits_of(n) =~= s);
    }
}

/// Every amount read back from its own decimal text is the same amount.
pub proof fn lemma_decimal_round_trip(a: i64)
    ensures
        parse_decimal(decimal_of(a as int)) == Some(a),
{
    if a < 0 {
        let m = (-(a as int)) as nat;
        lemma_digits_of(m);
        let s = decimal_of(a as int);
        assert(s.drop_first() =~= digits_of(m));
        assert(s[0] == '-');
        assert(!is_digit(s[0]));
        assert(!canonical_digits(s));
    } else {
        lemma_digits_of(a as nat);
    }
}

/// A text is read as an amount exactly when it is that amount's decimal text.
pub proof fn lemma_parse_decimal_exact(s: Seq<char>)
    ensures
        parse_decimal(s) matches Some(v) ==> decimal_of(v as int) == s,
{
    if canonical_digits(s) && value_of(s) <= i64::MAX {
        lemma_canonical_unique(s);
    } else if s.len() > 1 && s[0] == '-' && canonical_digits(s.drop_first()) {
        lemma_canonical_unique(s.drop_first());
        assert(seq!['-'] + s.drop_first() =~= s);
    }
}

fn digit_str(d: u64) -> (r: &'static str)
    requires
        d < 10,
    ensures
        r@ == seq![digit_char(d as nat)],
{
    proof {
        reveal_strlit("0");
        reveal_strlit("1");
        reveal_strlit("2");
        reveal_strlit("3");
        reveal_strlit("4");
        reveal_strlit("5");
        reveal_strlit("6");
        reveal_strlit("7");
        reveal_strlit("8");
        reveal_strlit("9");
    }
    let r = if d == 0 {
        "0"
    } else if d == 1 {
        "1"
    } else if d == 2 {
        "2"
    } else if d == 3 {
        "3"
    } else if d == 4 {
        "4"
    } else if d == 5 {
        "5"
    } else if d == 6 {
        "6"
    } else if d == 7 {
        "7"
    } else if d == 8 {
        "8"
    } else {
        "9"
    };
    assert(r@ =~= seq![digit_char(d as nat)]);
    r
}

fn digits_string(m: u64) -> (r: String)
    ensures
        r@ == digits_of(m as nat),
{
    let mut acc = String::from_str(digit_str(m % 10));
    let mut n: u64 = m / 10;
    while n > 0
        invariant
            n > 0 ==> digits_of(m as nat) == digits_of(n as nat) + acc@,
            n == 0 ==> digits_of(m as nat) == acc@,
        decreases n,
    {
        let head = String::from_str(digit_str(n % 10));
        let ghost prev = acc@;
        acc = head.concat(acc.as_str());
        proof {
            if n >= 10 {
                assert(digits_of(n as nat) + prev =~= digits_of((n / 10) as nat) + acc@);
            } else {
                assert(digits_of(n as nat) + prev =~= acc@);
            }
        }
        n = n / 10;
    }
    acc
}

/// The decimal text of an amount in minor units.
pub fn amount_to_string(a: i64) -> (r: String)
    ensures
        r@ == decimal_of(a as int),
{
    if a < 0 {
        let m: u64 = (-(a as i128)) as u64;
        let digits = digits_string(m);
        let r = String::from_str("-").concat(digits.as_str());
        proof {
            reveal_strlit("-");
            assert(r@ =~= decimal_of(a as int));
        }
        r
    } else {
        digits_string(a as u64)
    }
}

fn digit_of(c: char) -> (r: Option<u8>)
    ensures
        r == (if is_digit(c) {
            Some(digit_value(c) as u8)
        } else {
            None::<u8>
        }),
{
    if c == '0' {
        Some(0)
    } else if c == '1' {
        Some(1)
    } else if c == '2' {
        Some(2)
    } else if c == '3' {
        Some(3)
    } else if c == '4' {
        Some(4)
    } else if c == '5' {
        Some(5)
    } else if c == '6' {
        Some(6)
    } else if c == '7' {
        Some(7)
    } else if c == '8' {
        Some(8)
    } else if c == '9' {
        Some(9)
    } else {
        None
    }
}

/// Reads the digits of `s` from position `start` on, while their value stays
/// at most `2^63`.
fn read_digits(s: &str, start: usize) -> (r: Option<u64>)
    requires
        start <= s@.len(),
    ensures
        ({
            let t = s@.subrange(start as int, s@.len() as int);
            r == (if canonical_digits(t) && value_of(t) <= 0x8000_0000_0000_0000 {
                Some(value_of(t) as u64)
            } else {
                None::<u64>
            })
        }),
{
    let len = s.unicode_len();
    let ghost t = s@.subrange(start as int, s@.len() as int);
    if start == len {
        return None;
    }
    let first = s.get_char(start);
    if len - start > 1 && first == '0' {
        return None;
    }
    let mut acc: u64 = 0;
    let mut i: usize = start;
    while i < len
        invariant
            start <= i <= len,
            len == s@.len(),
            t == s@.subrange(start as int, s@.len() as int),
            t.len() > 0,
            t.len() == 1 || t[0] != '0',
            all_digits(t.subrange(0, i - start)),
            acc == value_of(t.subrange(0, i - start)),
            acc <= 0x8000_0000_0000_0000,
        decreases len - i,
    {
        let c = s.get_char(i);
        let k = i - start;
        assert(t.subrange(0, k + 1).drop_last() =~= t.subrange(0, k as int));
        assert(t[k as int] == c);
        match digit_of(c) {
            None => {
                assert(!all_digits(t)) by {
                    assert(!is_digit(t[k as int]));
                }
                return None;
            },
            Some(d) => {
                if acc > 922_337_203_685_477_580 || (acc == 922_337_203_685_477_580 && d > 8) {
                    proof {
                        lemma_value_prefix(t, k + 1);
                    }
                    return None;
                }
                acc = acc * 10 + d as u64;
                assert(all_digits(t.subrange(0, k + 1))) by {
                    assert forall|j: int| 0 <= j < k + 1 implies is_digit(
                        #[trigger] t.subrange(0, k + 1)[j],
                    ) by {
                        if j < k {
                            assert(t.subrange(0, k + 1)[j] == t.subrange(0, k as int)[j]);
                        }
                    }
                }
            },
        }
        i = i + 1;
    }
    assert(t.subrange(0, t.len() as int) =~= t);
    Some(acc)
}

/// Reads an amount in minor units back from its decimal text; `None` for any
/// text that is not the decimal text of an `i64`.
pub fn parse_amount(s: &str) -> (r: Option<i64>)
    ensures
        r == parse_decimal(s@),
{
    let len = s.unicode_len();
    if len > 1 && s.get_char(0) == '-' {
        let ghost t = s@.subrange(1, s@.len() as int);
        assert(t =~= s@.drop_first());
        assert(!is_digit(s@[0]));
        match read_digits(s, 1) {
            None => None,
            Some(m) => {
                if m == 0 {
                    None
                } else {
                    Some((-(m as i128)) as i64)
                }
            },
        }
    } else {
        let ghost t = s@.subrange(0, s@.len() as int);
        assert(t =~= s@);
        match read_digits(s, 0) {
            None => None,
            Some(m) => {
                if m > 0x7fff_ffff_ffff_ffff {
                    None
                } else {
                    Some(m as i64)
                }
            },
        }
    }
}

} // verus!
