//! Decimal text of integers: formatting and strict parsing.

use vstd::prelude::*;

verus! {

/// The character that writes the decimal digit `d`.
pub open spec fn digit_char(d: int) -> char {
    if d == 0 {
        '0'
    } else if d == 1 {
        '1'
    } else if d == 2 {
        '2'
    } else if d == 3 {
        '3'
    } else if d == 4 {
        '4'
    } else if d == 5 {
        '5'
    } else if d == 6 {
        '6'
    } else if d == 7 {
        '7'
    } else if d == 8 {
        '8'
    } else {
        '9'
    }
}

/// The digit that `c` writes, or -1 when `c` is no decimal digit.
pub open spec fn digit_value(c: char) -> int {
    if c == '0' {
        0
    } else if c == '1' {
        1
    } else if c == '2' {
        2
    } else if c == '3' {
        3
    } else if c == '4' {
        4
    } else if c == '5' {
        5
    } else if c == '6' {
        6
    } else if c == '7' {
        7
    } else if c == '8' {
        8
    } else if c == '9' {
        9
    } else {
        -1
    }
}

/// Decimal digits of `n`, most significant first, without leading zeros.
pub open spec fn nat_text(n: nat) -> Seq<char>
    decreases n,
{
    if n < 10 {
        seq![digit_char(n as int)]
    } else {
        nat_text(n / 10).push(digit_char((n % 10) as int))
    }
}

/// Decimal text of `n`, with a leading '-' when it is negative.
pub open spec fn int_text(n: int) -> Seq<char> {
    if n < 0 {
        seq!['-'] + nat_text((-n) as nat)
    } else {
        nat_text(n as nat)
    }
}

/// The number that a sequence of digits writes.
pub open spec fn digits_value(s: Seq<char>) -> int
    decreases s.len(),
{
    if s.len() == 0 {
        0
    } else {
        digits_value(s.drop_last()) * 10 + digit_value(s.last())
    }
}

pub open spec fn all_digits(s: Seq<char>) -> bool {
    forall|i: int| 0 <= i < s.len() ==> 0 <= #[trigger] digit_value(s[i])
}

pub open spec fn pow10(k: nat) -> nat
    decreases k,
{
    if k == 0 {
        1
    } else {
        10 * pow10((k - 1) as nat)
    }
}

proof fn lemma_digit_round_trip(d: int)
    requires
        0 <= d < 10,
    ensures
        digit_value(digit_char(d)) == d,
{
}

/// The digits of `n` are digits, there is at least one, and they read back as `n`.
pub proof fn lemma_nat_text_value(n: nat)
    ensures
        nat_text(n).len() >= 1,
        all_digits(nat_text(n)),
        digits_value(nat_text(n)) == n,
    decreases n,
{
    if n < 10 {
        lemma_digit_round_trip(n as int);
        assert(nat_text(n).drop_last() =~= Seq::<char>::empty());
        assert(digits_value(Seq::<char>::empty()) == 0);
    } else {
        lemma_nat_text_value(n / 10);
        lemma_digit_round_trip((n % 10) as int);
        assert(nat_text(n).drop_last() =~= nat_text(n / 10));
        assert((n / 10) * 10 + n % 10 == n) by (nonlinear_arith);
        assert forall|i: int| 0 <= i < nat_text(n).len() implies 0 <= #[trigger] digit_value(
            nat_text(n)[i],
        ) by {
            if i < nat_text(n / 10).len() {
                assert(nat_text(n)[i] == nat_text(n / 10)[i]);
            }
        }
    }
}

/// A number below `10^k` has at most `k` digits.
pub proof fn lemma_nat_text_len(n: nat, k: nat)
    requires
        k >= 1,
        n < pow10(k),
    ensures
        nat_text(n).len() <= k,
    decreases n,
{
    if n >= 10 {
        assert(k >= 2) by {
            if k == 1 {
                assert(pow10(1) == 10 * pow10(0));
            }
        }
        assert(pow10(k) == 10 * pow10((k - 1) as nat));
        lemma_nat_text_len(n / 10, (k - 1) as nat);
    }
}

/// The part of a decimal text after an optional leading '-'.
pub open spec fn magnitude_text(s: Seq<char>) -> Seq<char> {
    if s.len() > 0 && s[0] == '-' {
        s.subrange(1, s.len() as int)
    } else {
        s
    }
}

/// What the text of a 32-bit integer looks like.
pub proof fn lemma_int_text_shape(w: i32)
    ensures
        1 <= int_text(w as int).len() <= 11,
        (int_text(w as int)[0] == '-') <==> w < 0,
        magnitude_text(int_text(w as int)).len() >= 1,
        all_digits(magnitude_text(int_text(w as int))),
        digits_value(magnitude_text(int_text(w as int))) == if w < 0 {
            -(w as int)
        } else {
            w as int
        },
{
    let m: nat = if w < 0 {
        (-(w as int)) as nat
    } else {
        w as nat
    };
    lemma_nat_text_value(m);
    reveal_with_fuel(pow10, 11);
    lemma_nat_text_len(m, 10);
    let t = nat_text(m);
    assert(0 <= digit_value(t[0]));
    if w < 0 {
        assert(int_text(w as int) =~= seq!['-'] + t);
        assert(magnitude_text(int_text(w as int)) =~= t);
    } else {
        assert(int_text(w as int) == t);
    }
}

/// The digit that `c` writes, if it is a decimal digit.
pub fn digit_of(c: char) -> (r: Option<u64>)
    ensures
        r matches Some(d) ==> d < 10 && digit_value(c) == d && digit_char(d as int) == c,
        r is None ==> digit_value(c) == -1,
{
    match c {
        '0' => Some(0),
        '1' => Some(1),
        '2' => Some(2),
        '3' => Some(3),
        '4' => Some(4),
        '5' => Some(5),
        '6' => Some(6),
        '7' => Some(7),
        '8' => Some(8),
        '9' => Some(9),
        _ => None,
    }
}

fn digit_str(d: u64) -> (r: &'static str)
    requires
        d < 10,
    ensures
        r@ == seq![digit_char(d as int)],
{
    proof {
        reveal_strlit("0");
        reveal_strlit("1");
        reveal_strlit("2");
        reveal_strlit("3");
        reveal_strlit("4");
        reveal_strlit("5");
        reveal_strlit("6");
        reveal_strlit("7");
        reveal_strlit("8");
        reveal_strlit("9");
    }
    if d == 0 {
        "0"
    } else if d == 1 {
        "1"
    } else if d == 2 {
        "2"
    } else if d == 3 {
        "3"
    } else if d == 4 {
        "4"
    } else if d == 5 {
        "5"
    } else if d == 6 {
        "6"
    } else if d == 7 {
        "7"
    } else if d == 8 {
        "8"
    } else {
        "9"
    }
}

/// Appends the decimal digits of `n` to `out`.
pub fn push_nat_text(n: u64, out: &mut String)
    ensures
        final(out)@ == old(out)@ + nat_text(n as nat),
    decreases n,
{
    if n >= 10 {
        push_nat_text(n / 10, out);
    }
    out.append(digit_str(n % 10));
    proof {
        if n >= 10 {
            assert(nat_text(n as nat) == nat_text((n / 10) as nat).push(digit_char((n % 10) as int)));
        }
    }
    assert(final(out)@ =~= old(out)@ + nat_text(n as nat));
}

/// Appends the decimal text of `n` to `out`.
pub fn push_int_text(n: i32, out: &mut String)
    ensures
        final(out)@ == old(out)@ + int_text(n as int),
{
    if n < 0 {
        out.append("-");
        proof {
            reveal_strlit("-");
        }
        let m: u64 = (-(n as i64)) as u64;
        push_nat_text(m, out);
        assert(final(out)@ =~= old(out)@ + int_text(n as int));
    } else {
        push_nat_text(n as u64, out);
    }
}

/// The decimal text of `n`.
pub fn int_to_text(n: i32) -> (r: String)
    ensures
        r@ == int_text(n as int),
{
    let mut out = String::new();
    push_int_text(n, &mut out);
    assert(out@ =~= int_text(n as int));
    out
}

/// Whether two texts hold the same characters.
pub fn text_eq(a: &str, b: &str) -> (r: bool)
    ensures
        r == (a@ == b@),
{
    let n = a.unicode_len();
    if n != b.unicode_len() {
        return false;
    }
    let mut i: usize = 0;
    while i < n
        invariant
            n == a@.len() == b@.len(),
            i <= n,
            a@.subrange(0, i as int) == b@.subrange(0, i as int),
        decreases n - i,
    {
        if a.get_char(i) != b.get_char(i) {
            return false;
        }
        assert(a@.subrange(0, i + 1) =~= a@.subrange(0, i as int).push(a@[i as int]));
        assert(b@.subrange(0, i + 1) =~= b@.subrange(0, i as int).push(b@[i as int]));
        i += 1;
    }
    assert(a@ =~= a@.subrange(0, n as int));
    assert(b@ =~= b@.subrange(0, n as int));
    true
}

/// The digits of a signed decimal text: what follows an optional leading
/// '+' or '-'.
pub open spec fn unsigned_part(s: Seq<char>) -> Seq<char> {
    if s.len() > 0 && (s[0] == '-' || s[0] == '+') {
        s.subrange(1, s.len() as int)
    } else {
        s
    }
}

pub open spec fn is_negative_text(s: Seq<char>) -> bool {
    s.len() > 0 && s[0] == '-'
}

/// Signed decimal: an optional '+' or '-', then at least one digit;
/// leading zeros are allowed.
pub open spec fn is_decimal(s: Seq<char>) -> bool {
    unsigned_part(s).len() >= 1 && all_digits(unsigned_part(s))
}

/// The number that a signed decimal text writes.
pub open spec fn decimal_value(s: Seq<char>) -> int {
    if is_negative_text(s) {
        -digits_value(unsigned_part(s))
    } else {
        digits_value(unsigned_part(s))
    }
}

/// Whether `s` writes, in signed decimal, a number that fits in 32 bits.
pub open spec fn parses_as_i32(s: Seq<char>) -> bool {
    is_decimal(s) && i32::MIN <= decimal_value(s) <= i32::MAX
}

/// The text of an integer reads back as that integer.
pub proof fn lemma_int_text_parses(w: i32)
    ensures
        parses_as_i32(int_text(w as int)),
        decimal_value(int_text(w as int)) == w,
{
    lemma_int_text_shape(w);
    let s = int_text(w as int);
    if w >= 0 {
        assert(0 <= digit_value(s[0]));
        assert(unsigned_part(s) == magnitude_text(s));
    } else {
        assert(unsigned_part(s) == magnitude_text(s));
    }
}

proof fn lemma_digits_value_step(s: Seq<char>, i: int)
    requires
        0 <= i < s.len(),
    ensures
        digits_value(s.subrange(0, i + 1)) == digits_value(s.subrange(0, i)) * 10 + digit_value(
            s[i],
        ),
{
    assert(s.subrange(0, i + 1).drop_last() =~= s.subrange(0, i));
}


/// Reads a 32-bit integer in signed decimal, as `str::parse::<i32>` does:
/// an optional '+' or '-', then one or more digits, leading zeros allowed.
/// Any other text, or a number out of range, is refused.
pub fn parse_int(s: &str) -> (r: Option<i32>)
    ensures
        r is Some <==> parses_as_i32(s@),
        r matches Some(v) ==> v == decimal_value(s@),
{
    let len = s.unicode_len();
    if len == 0 {
        return None;
    }
    let c0 = s.get_char(0);
    let neg = c0 == '-';
    let start: usize = if c0 == '-' || c0 == '+' {
        1
    } else {
        0
    };
    if start == len {
        return None;
    }
    let ghost body = s@.subrange(start as int, len as int);
    assert(body == unsigned_part(s@));
    let mut acc: u64 = 0;
    let mut big = false;
    let mut i: usize = start;
    assert(body.subrange(0, 0) =~= Seq::<char>::empty());
    while i < len
        invariant
            s@.len() == len,
            start <= i <= len,
            start <= 1,
            body == s@.subrange(start as int, len as int),
            body == unsigned_part(s@),
            all_digits(body.subrange(0, i - start)),
            !big ==> acc == digits_value(body.subrange(0, i - start)) && acc <= 2147483648,
            big ==> digits_value(body.subrange(0, i - start)) > 2147483648,
        decreases len - i,
    {
        let c = s.get_char(i);
        match digit_of(c) {
            None => {
                proof {
                    assert(body[i - start] == c);
                    assert(digit_value(body[i - start]) == -1);
                }
                return None;
            },
            Some(d) => {
                proof {
                    lemma_digits_value_step(body, i - start);
                    assert(body.subrange(0, i - start + 1) =~= body.subrange(0, i - start).push(c));
                }
                if !big {
                    let next = acc * 10 + d;
                    if next > 2147483648 {
                        big = true;
                    } else {
                        acc = next;
                    }
                }
            },
        }
        i += 1;
    }
    assert(body.subrange(0, len - start) =~= body);
    if big || (!neg && acc > 2147483647) {
        return None;
    }
    let v: i32 = if neg {
        (-(acc as i64)) as i32
    } else {
        acc as i32
    };
    Some(v)
}

/// Whether `s` begins with `prefix`.
pub fn has_prefix(s: &str, prefix: &str) -> (r: bool)
    ensures
        r == prefix@.is_prefix_of(s@),
{
    let n = prefix.unicode_len();
    if n > s.unicode_len() {
        return false;
    }
    let head = s.substring_char(0, n);
    text_eq(head, prefix)
}

/// Whether `c` occurs in `s`.
pub fn has_char(s: &str, c: char) -> (r: bool)
    ensures
        r == s@.contains(c),
{
    let n = s.unicode_len();
    let mut i: usize = 0;
    while i < n
        invariant
            n == s@.len(),
            i <= n,
            forall|j: int| 0 <= j < i ==> s@[j] != c,
        decreases n - i,
    {
        if s.get_char(i) == c {
            return true;
        }
        i += 1;
    }
    false
}

} // verus!
