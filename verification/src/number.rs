//! Numbers as text: reading and writing decimal integers, and telling
//! whether a text writes a number with a fraction.
use vstd::prelude::*;
use vstd::slice::slice_subrange;

verus! {

// ---------------------------------------------------------------------------
// Decimal integers
// ---------------------------------------------------------------------------
/// `c` is one of the ten decimal digits.
pub open spec fn is_digit(c: char) -> bool {
    '0' as u32 <= c as u32 <= '9' as u32
}

/// The number that the digit `c` stands for.
pub open spec fn digit_value(c: char) -> int {
    c as u32 - '0' as u32
}

/// Every character of `s` is a decimal digit.
pub open spec fn all_digits(s: Seq<char>) -> bool {
    forall|i: int| 0 <= i < s.len() ==> is_digit(#[trigger] s[i])
}

/// The number that the digits `s` write, most significant first.
pub open spec fn digits_value(s: Seq<char>) -> nat
    decreases s.len(),
{
    if s.len() == 0 {
        0
    } else {
        (digits_value(s.drop_last()) * 10 + digit_value(s.last())) as nat
    }
}

/// How many decimal digits `s` begins with.
pub open spec fn leading_digits(s: Seq<char>) -> nat
    decreases s.len(),
{
    if s.len() > 0 && is_digit(s[0]) {
        1 + leading_digits(s.skip(1))
    } else {
        0
    }
}

/// `s` without one leading sign.
pub open spec fn unsigned_part(s: Seq<char>) -> Seq<char> {
    if s.len() > 0 && (s[0] == '+' || s[0] == '-') {
        s.skip(1)
    } else {
        s
    }
}

/// The integer that `s` writes: an optional sign, then at least one digit and
/// nothing else.
pub open spec fn parse_int(s: Seq<char>) -> Option<int> {
    let digits = unsigned_part(s);
    if digits.len() > 0 && all_digits(digits) {
        Some(
            if s[0] == '-' {
                -(digits_value(digits) as int)
            } else {
                digits_value(digits) as int
            },
        )
    } else {
        None
    }
}

/// The `i32` that `s` writes, if it writes an integer in the range of `i32`.
pub open spec fn parse_i32(s: Seq<char>) -> Option<i32> {
    match parse_int(s) {
        Some(n) => if i32::MIN <= n <= i32::MAX {
            Some(n as i32)
        } else {
            None
        },
        None => None,
    }
}

/// A number written with more digits is not smaller.
pub proof fn lemma_digits_value_grows(s: Seq<char>, k: int)
    requires
        0 <= k <= s.len(),
        all_digits(s),
    ensures
        digits_value(s.take(k)) <= digits_value(s),
    decreases s.len() - k,
{
    if k < s.len() {
        lemma_digits_value_grows(s, k + 1);
        assert(s.take(k + 1).drop_last() =~= s.take(k));
        assert(is_digit(s[k]));
        assert(s.take(k + 1).last() == s[k]);
    } else {
        assert(s.take(k) =~= s);
    }
}

/// Whether `c` is a decimal digit.
pub fn is_decimal_digit(c: char) -> (r: bool)
    ensures
        r == is_digit(c),
{
    let n: u32 = c as u32;
    48 <= n && n <= 57
}

/// The number that the digits `s` write, where it is at most `limit`.
pub fn read_digits(s: &[char], limit: u64) -> (r: Option<u64>)
    requires
        limit * 10 + 9 <= u64::MAX,
    ensures
        r matches Some(n) ==> all_digits(s@) && n == digits_value(s@) && n <= limit,
        r is None ==> !all_digits(s@) || digits_value(s@) > limit,
{
    let mut acc: u64 = 0;
    let mut i: usize = 0;
    assert(s@.take(0) =~= Seq::<char>::empty());
    while i < s.len()
        invariant
            i <= s.len(),
            limit * 10 + 9 <= u64::MAX,
            all_digits(s@.take(i as int)),
            acc == digits_value(s@.take(i as int)),
            acc <= limit,
        decreases s.len() - i,
    {
        let c = s[i];
        if !is_decimal_digit(c) {
            assert(!is_digit(s@[i as int]));
            return None;
        }
        let d: u64 = (c as u32 - 48) as u64;
        acc = acc * 10 + d;
        proof {
            assert(s@.take(i + 1).drop_last() =~= s@.take(i as int));
            assert(s@.take(i + 1).last() == s@[i as int]);
            assert forall|j: int| 0 <= j < i + 1 implies is_digit(#[trigger] s@.take(i + 1)[j]) by {
                if j < i {
                    assert(s@.take(i as int)[j] == s@.take(i + 1)[j]);
                }
            }
        }
        if acc > limit {
            proof {
                if all_digits(s@) {
                    lemma_digits_value_grows(s@, i + 1);
                }
            }
            return None;
        }
        i = i + 1;
    }
    assert(s@.take(s@.len() as int) =~= s@);
    Some(acc)
}

/// How many decimal digits `s` begins with.
pub fn count_leading_digits(s: &[char]) -> (n: usize)
    ensures
        n == leading_digits(s@),
        n <= s.len(),
{
    let mut n: usize = 0;
    assert(s@.skip(0) =~= s@);
    while n < s.len() && is_decimal_digit(s[n])
        invariant
            n <= s.len(),
            leading_digits(s@) == n + leading_digits(s@.skip(n as int)),
        decreases s.len() - n,
    {
        assert(s@.skip(n as int).skip(1) =~= s@.skip(n + 1));
        n = n + 1;
    }
    n
}

/// `s` without one leading sign.
fn without_sign(s: &[char]) -> (r: &[char])
    ensures
        r@ == unsigned_part(s@),
{
    if s.len() > 0 && (s[0] == '+' || s[0] == '-') {
        let r = slice_subrange(s, 1, s.len());
        assert(r@ =~= s@.skip(1));
        r
    } else {
        s
    }
}

/// Reads `s` as an `i32`.
pub fn read_i32(s: &[char]) -> (r: Option<i32>)
    ensures
        r == parse_i32(s@),
{
    let digits = without_sign(s);
    if digits.len() == 0 {
        return None;
    }
    let negative = s[0] == '-';
    match read_digits(digits, 0x8000_0000) {
        None => None,
        Some(m) => {
            if negative {
                let v: i64 = -(m as i64);
                Some(v as i32)
            } else if m <= 0x7fff_ffff {
                Some(m as i32)
            } else {
                None
            }
        },
    }
}

/// The character that writes the digit `d`.
pub open spec fn digit_char(d: int) -> char {
    if d == 0 {
        '0'
    } else if d == 1 {
        '1'
    } else if d == 2 {
        '2'
    } else if d == 3 {
        '3'
    } else if d == 4 {
        '4'
    } else if d == 5 {
        '5'
    } else if d == 6 {
        '6'
    } else if d == 7 {
        '7'
    } else if d == 8 {
        '8'
    } else {
        '9'
    }
}

/// The decimal digits of `n`, without leading zeros.
pub open spec fn decimal_nat(n: nat) -> Seq<char>
    decreases n,
{
    if n < 10 {
        seq![digit_char(n as int)]
    } else {
        decimal_nat(n / 10).push(digit_char((n % 10) as int))
    }
}

/// `n` in decimal, with a minus sign before a negative number.
pub open spec fn decimal(n: int) -> Seq<char> {
    if n < 0 {
        seq!['-'] + decimal_nat((-n) as nat)
    } else {
        decimal_nat(n as nat)
    }
}

fn digit_to_char(d: u64) -> (c: char)
    requires
        d < 10,
    ensures
        c == digit_char(d as int),
{
    if d == 0 {
        '0'
    } else if d == 1 {
        '1'
    } else if d == 2 {
        '2'
    } else if d == 3 {
        '3'
    } else if d == 4 {
        '4'
    } else if d == 5 {
        '5'
    } else if d == 6 {
        '6'
    } else if d == 7 {
        '7'
    } else if d == 8 {
        '8'
    } else {
        '9'
    }
}

fn push_decimal(out: &mut String, n: u64)
    ensures
        final(out)@ == old(out)@ + decimal_nat(n as nat),
    decreases n,
{
    if n >= 10 {
        push_decimal(out, n / 10);
    }
    out.push(digit_to_char(n % 10));
    assert(out@ =~= old(out)@ + decimal_nat(n as nat));
}

/// Writes `n` in decimal.
pub fn format_i32(n: i32) -> (r: String)
    ensures
        r@ == decimal(n as int),
{
    let mut r = String::new();
    if n < 0 {
        r.push('-');
        let m: u64 = (-(n as i64)) as u64;
        push_decimal(&mut r, m);
        assert(r@ =~= seq!['-'] + decimal_nat((-n) as nat));
    } else {
        push_decimal(&mut r, n as u64);
        assert(r@ =~= decimal_nat(n as nat));
    }
    r
}


// ---------------------------------------------------------------------------
// Decimal numbers with a fraction
// ---------------------------------------------------------------------------
/// `c` is the letter written `small` or `capital`.
pub open spec fn is_letter(c: char, small: char, capital: char) -> bool {
    c == small || c == capital
}

/// `s` is an exponent: the letter e, an optional sign, and at least one
/// digit with nothing after.
pub open spec fn is_exponent(s: Seq<char>) -> bool {
    &&& s.len() > 0
    &&& is_letter(s[0], 'e', 'E')
    &&& unsigned_part(s.skip(1)).len() > 0
    &&& all_digits(unsigned_part(s.skip(1)))
}

/// `s` is digits with at most one point among them and at least one digit,
/// then possibly an exponent.
pub open spec fn is_decimal_number(s: Seq<char>) -> bool {
    let whole = leading_digits(s);
    let rest = s.skip(whole as int);
    if rest.len() > 0 && rest[0] == '.' {
        let fraction = leading_digits(rest.skip(1));
        let tail = rest.skip(1 + fraction as int);
        (whole > 0 || fraction > 0) && (tail.len() == 0 || is_exponent(tail))
    } else {
        whole > 0 && (rest.len() == 0 || is_exponent(rest))
    }
}

/// `s` is one of the words "inf", "infinity" and "nan", in letters of any case.
pub open spec fn is_special_number(s: Seq<char>) -> bool {
    ||| (s.len() == 3 && is_letter(s[0], 'i', 'I') && is_letter(s[1], 'n', 'N') && is_letter(
        s[2],
        'f',
        'F',
    ))
    ||| (s.len() == 8 && is_letter(s[0], 'i', 'I') && is_letter(s[1], 'n', 'N') && is_letter(
        s[2],
        'f',
        'F',
    ) && is_letter(s[3], 'i', 'I') && is_letter(s[4], 'n', 'N') && is_letter(s[5], 'i', 'I')
        && is_letter(s[6], 't', 'T') && is_letter(s[7], 'y', 'Y'))
    ||| (s.len() == 3 && is_letter(s[0], 'n', 'N') && is_letter(s[1], 'a', 'A') && is_letter(
        s[2],
        'n',
        'N',
    ))
}

/// `s` writes a number with a fraction: an optional sign, then a decimal
/// number or one of the words for infinity and for what is no number.
pub open spec fn writes_float(s: Seq<char>) -> bool {
    is_special_number(unsigned_part(s)) || is_decimal_number(unsigned_part(s))
}

/// A text is all digits exactly where its leading digits are all of it.
pub proof fn lemma_leading_digits_all(s: Seq<char>)
    ensures
        leading_digits(s) <= s.len(),
        all_digits(s) <==> leading_digits(s) == s.len(),
    decreases s.len(),
{
    if s.len() > 0 {
        lemma_leading_digits_all(s.skip(1));
        if is_digit(s[0]) {
            if all_digits(s.skip(1)) {
                assert forall|i: int| 0 <= i < s.len() implies is_digit(#[trigger] s[i]) by {
                    if i > 0 {
                        assert(s.skip(1)[i - 1] == s[i]);
                    }
                }
            }
            if all_digits(s) {
                assert forall|i: int| 0 <= i < s.skip(1).len() implies is_digit(
                    #[trigger] s.skip(1)[i],
                ) by {
                    assert(s.skip(1)[i] == s[i + 1]);
                }
            }
        } else {
            if all_digits(s) {
                assert(is_digit(s[0]));
            }
        }
    }
}

fn letter(c: char, small: char, capital: char) -> (r: bool)
    ensures
        r == is_letter(c, small, capital),
{
    c == small || c == capital
}

fn is_exponent_text(s: &[char]) -> (r: bool)
    ensures
        r == is_exponent(s@),
{
    if s.len() == 0 || !letter(s[0], 'e', 'E') {
        return false;
    }
    let after = slice_subrange(s, 1, s.len());
    assert(after@ =~= s@.skip(1));
    let digits = without_sign(after);
    proof {
        lemma_leading_digits_all(digits@);
    }
    digits.len() > 0 && count_leading_digits(digits) == digits.len()
}

fn is_decimal_number_text(s: &[char]) -> (r: bool)
    ensures
        r == is_decimal_number(s@),
{
    let whole = count_leading_digits(s);
    let rest = slice_subrange(s, whole, s.len());
    assert(rest@ =~= s@.skip(whole as int));
    if rest.len() > 0 && rest[0] == '.' {
        let after_point = slice_subrange(rest, 1, rest.len());
        assert(after_point@ =~= rest@.skip(1));
        let fraction = count_leading_digits(after_point);
        let tail = slice_subrange(after_point, fraction, after_point.len());
        assert(tail@ =~= rest@.skip(1 + fraction));
        (whole > 0 || fraction > 0) && (tail.len() == 0 || is_exponent_text(tail))
    } else {
        whole > 0 && (rest.len() == 0 || is_exponent_text(rest))
    }
}

fn is_special_number_text(s: &[char]) -> (r: bool)
    ensures
        r == is_special_number(s@),
{
    if s.len() == 3 {
        (letter(s[0], 'i', 'I') && letter(s[1], 'n', 'N') && letter(s[2], 'f', 'F')) || (letter(
            s[0],
            'n',
            'N',
        ) && letter(s[1], 'a', 'A') && letter(s[2], 'n', 'N'))
    } else if s.len() == 8 {
        letter(s[0], 'i', 'I') && letter(s[1], 'n', 'N') && letter(s[2], 'f', 'F') && letter(
            s[3],
            'i',
            'I',
        ) && letter(s[4], 'n', 'N') && letter(s[5], 'i', 'I') && letter(s[6], 't', 'T') && letter(
            s[7],
            'y',
            'Y',
        )
    } else {
        false
    }
}

/// Whether `s` writes a number with a fraction.
pub fn is_float_text(s: &[char]) -> (r: bool)
    ensures
        r == writes_float(s@),
{
    let body = without_sign(s);
    is_special_number_text(body) || is_decimal_number_text(body)
}

} // verus!
