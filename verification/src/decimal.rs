//! Decimal numbers: how they are written and read.

use vstd::prelude::*;

use crate::text::chars_of;

verus! {

/// The character of a digit below ten.
pub open spec fn digit_char(d: nat) -> char {
    (48 + d) as char
}

/// Whether `c` is one of `0` to `9`.
pub open spec fn is_digit(c: char) -> bool {
    48 <= c as u32 <= 57
}

/// The value of a digit character.
pub open spec fn digit_value(c: char) -> nat {
    (c as u32 - 48) as nat
}

/// `n` in decimal, without leading zeros.
pub open spec fn decimal(n: nat) -> Seq<char>
    decreases n,
{
    if n < 10 {
        seq![digit_char(n)]
    } else {
        decimal(n / 10).push(digit_char(n % 10))
    }
}

/// `z` zeros.
pub open spec fn zeros(z: nat) -> Seq<char> {
    Seq::new(z, |i: int| '0')
}

/// `n` in decimal, with zeros in front up to `width` characters.
pub open spec fn padded(n: nat, width: nat) -> Seq<char> {
    let d = decimal(n);
    if d.len() >= width {
        d
    } else {
        zeros((width - d.len()) as nat) + d
    }
}

/// Whether every character of `s` is a digit.
pub open spec fn all_digits(s: Seq<char>) -> bool {
    forall|i: int| 0 <= i < s.len() ==> is_digit(#[trigger] s[i])
}

/// The value of a row of digits.
pub open spec fn digits_value(s: Seq<char>) -> nat
    decreases s.len(),
{
    if s.len() == 0 {
        0
    } else {
        digits_value(s.drop_last()) * 10 + digit_value(s.last())
    }
}

/// The number that a row of digits writes; none where it is empty or holds
/// another character.
pub open spec fn digits_number(s: Seq<char>) -> Option<nat> {
    if s.len() > 0 && all_digits(s) {
        Some(digits_value(s))
    } else {
        None
    }
}

/// The number that `s` writes, read as one that is never negative: an optional
/// `+`, then digits only.
pub open spec fn unsigned_number(s: Seq<char>) -> Option<nat> {
    if s.len() > 0 && s[0] == '+' {
        digits_number(s.skip(1))
    } else {
        digits_number(s)
    }
}

/// The number that `s` writes: an optional `+` or `-`, then digits only.
pub open spec fn signed_number(s: Seq<char>) -> Option<int> {
    if s.len() > 0 && s[0] == '-' {
        match digits_number(s.skip(1)) {
            Some(n) => Some(-(n as int)),
            None => None,
        }
    } else {
        match unsigned_number(s) {
            Some(n) => Some(n as int),
            None => None,
        }
    }
}

/// `s` read as a `u32`.
pub open spec fn u32_number(s: Seq<char>) -> Option<u32> {
    match unsigned_number(s) {
        Some(n) => if n <= u32::MAX {
            Some(n as u32)
        } else {
            None
        },
        None => None,
    }
}

/// `s` read as an `i64`.
pub open spec fn i64_number(s: Seq<char>) -> Option<i64> {
    match signed_number(s) {
        Some(n) => if i64::MIN <= n <= i64::MAX {
            Some(n as i64)
        } else {
            None
        },
        None => None,
    }
}

proof fn lemma_digits_value_prefix(s: Seq<char>, k: int)
    requires
        0 <= k <= s.len(),
    ensures
        digits_value(s.take(k)) <= digits_value(s),
    decreases s.len(),
{
    if k == s.len() {
        assert(s.take(k) =~= s);
    } else {
        assert(s.drop_last().take(k) =~= s.take(k));
        lemma_digits_value_prefix(s.drop_last(), k);
    }
}

/// What was written in decimal reads back as it was.
pub proof fn lemma_decimal_reads_back(n: nat)
    ensures
        decimal(n).len() > 0,
        all_digits(decimal(n)),
        digits_value(decimal(n)) == n,
        unsigned_number(decimal(n)) == Some(n),
    decreases n,
{
    if n < 10 {
        let s = seq![digit_char(n)];
        assert(s.drop_last() =~= Seq::<char>::empty());
        assert(digits_value(s.drop_last()) == 0);
        assert(s.last() == digit_char(n));
    } else {
        lemma_decimal_reads_back(n / 10);
        let s = decimal(n);
        assert(s.drop_last() =~= decimal(n / 10));
        assert(s.last() == digit_char(n % 10));
        assert forall|i: int| 0 <= i < s.len() implies is_digit(#[trigger] s[i]) by {
            if i < s.len() - 1 {
                assert(s[i] == decimal(n / 10)[i]);
            }
        }
    }
    assert(is_digit(decimal(n)[0]));
}

/// A `u32` written in decimal reads back as it was.
pub proof fn lemma_u32_reads_back(n: u32)
    ensures
        u32_number(decimal(n as nat)) == Some(n),
{
    lemma_decimal_reads_back(n as nat);
}

/// The text of one digit.
fn digit_text(d: u32) -> (r: &'static str)
    requires
        d < 10,
    ensures
        r@ == seq![digit_char(d as nat)],
{
    proof {
        reveal_strlit("0");
        reveal_strlit("1");
        reveal_strlit("2");
        reveal_strlit("3");
        reveal_strlit("4");
        reveal_strlit("5");
        reveal_strlit("6");
        reveal_strlit("7");
        reveal_strlit("8");
        reveal_strlit("9");
    }
    match d {
        0 => "0",
        1 => "1",
        2 => "2",
        3 => "3",
        4 => "4",
        5 => "5",
        6 => "6",
        7 => "7",
        8 => "8",
        _ => "9",
    }
}

/// Writes `n` in decimal.
pub fn write_u64(n: u64) -> (r: String)
    ensures
        r@ == decimal(n as nat),
    decreases n,
{
    let mut out: String = if n < 10 {
        String::new()
    } else {
        write_u64(n / 10)
    };
    out.append(digit_text((n % 10) as u32));
    assert(out@ =~= decimal(n as nat));
    out
}

/// Writes `n` in decimal: `n.to_string()`.
pub fn write_u32(n: u32) -> (r: String)
    ensures
        r@ == decimal(n as nat),
{
    write_u64(n as u64)
}

/// Writes `n` in decimal with zeros in front up to `width` characters.
pub fn write_padded(n: u32, width: usize) -> (r: String)
    ensures
        r@ == padded(n as nat, width as nat),
{
    let d: String = write_u32(n);
    let len: usize = d.as_str().unicode_len();
    let mut out: String = String::new();
    let mut k: usize = len;
    assert(out@ =~= zeros(0));
    while k < width
        invariant
            len <= k,
            len < width ==> k <= width,
            len >= width ==> k == len,
            out@ == zeros((k - len) as nat),
        decreases width - k,
    {
        proof {
            reveal_strlit("0");
        }
        out.append("0");
        k = k + 1;
        assert(out@ =~= zeros((k - len) as nat));
    }
    out.append(d.as_str());
    assert(len >= width ==> out@ =~= d@);
    out
}

/// Reads the digits of `x` from `from` on, as far as they stay at most `bound`.
fn read_digits(x: &Vec<char>, from: usize, bound: u64) -> (r: Option<u64>)
    requires
        from <= x@.len(),
        bound <= 0x8000_0000_0000_0000,
    ensures
        r == (match digits_number(x@.skip(from as int)) {
            Some(n) => if n <= bound {
                Some(n as u64)
            } else {
                None
            },
            None => None,
        }),
{
    let n: usize = x.len();
    let ghost s = x@.skip(from as int);
    if from == n {
        return None;
    }
    let mut acc: u128 = 0;
    let mut i: usize = from;
    assert(s.take(0) =~= Seq::<char>::empty());
    while i < n
        invariant
            n == x@.len(),
            from <= i <= n,
            s == x@.skip(from as int),
            bound <= 0x8000_0000_0000_0000,
            acc <= bound,
            forall|j: int| 0 <= j < i - from ==> is_digit(#[trigger] s[j]),
            acc == digits_value(s.take(i - from)),
        decreases n - i,
    {
        let c: char = x[i];
        let u: u32 = c as u32;
        assert(s[i - from] == c);
        if u < 48 || u > 57 {
            assert(!is_digit(s[i - from]));
            return None;
        }
        assert(s.take(i - from + 1).drop_last() =~= s.take(i - from));
        acc = acc * 10 + (u - 48) as u128;
        if acc > bound as u128 {
            proof {
                lemma_digits_value_prefix(s, i - from + 1);
            }
            return None;
        }
        i = i + 1;
    }
    assert(s.take(s.len() as int) =~= s);
    Some(acc as u64)
}

/// Reads a `u32`: `s.parse::<u32>().ok()`.
pub fn read_u32(s: &str) -> (r: Option<u32>)
    ensures
        r == u32_number(s@),
{
    let x: Vec<char> = chars_of(s);
    assert(s@.skip(0) =~= s@);
    let v: Option<u64> = if x.len() > 0 && x[0] == '+' {
        read_digits(&x, 1, u32::MAX as u64)
    } else {
        read_digits(&x, 0, u32::MAX as u64)
    };
    match v {
        Some(n) => Some(n as u32),
        None => None,
    }
}

/// Reads an `i64`: `s.parse::<i64>().ok()`.
pub fn read_i64(s: &str) -> (r: Option<i64>)
    ensures
        r == i64_number(s@),
{
    let x: Vec<char> = chars_of(s);
    assert(s@.skip(0) =~= s@);
    if x.len() > 0 && x[0] == '-' {
        match read_digits(&x, 1, 0x8000_0000_0000_0000) {
            Some(n) => Some((-(n as i128)) as i64),
            None => None,
        }
    } else {
        let v: Option<u64> = if x.len() > 0 && x[0] == '+' {
            read_digits(&x, 1, i64::MAX as u64)
        } else {
            read_digits(&x, 0, i64::MAX as u64)
        };
        match v {
            Some(n) => Some(n as i64),
            None => None,
        }
    }
}

proof fn lemma_zeros_count_nothing(z: nat, d: Seq<char>)
    requires
        all_digits(d),
    ensures
        all_digits(zeros(z) + d),
        digits_value(zeros(z) + d) == digits_value(d),
    decreases z + d.len(),
{
    let s = zeros(z) + d;
    assert forall|i: int| 0 <= i < s.len() implies is_digit(#[trigger] s[i]) by {
        if i >= z {
            assert(s[i] == d[i - z]);
        }
    }
    if d.len() > 0 {
        assert(s.drop_last() =~= zeros(z) + d.drop_last());
        assert(all_digits(d.drop_last())) by {
            assert forall|i: int| 0 <= i < d.drop_last().len() implies is_digit(
                #[trigger] d.drop_last()[i],
            ) by {
                assert(d.drop_last()[i] == d[i]);
            }
        }
        lemma_zeros_count_nothing(z, d.drop_last());
    } else if z > 0 {
        assert(s =~= zeros(z));
        assert(s.drop_last() =~= zeros((z - 1) as nat) + d);
        lemma_zeros_count_nothing((z - 1) as nat, d);
    } else {
        assert(s =~= d);
    }
}

/// A number that was filled up with zeros reads back as it was, and has at least the
/// digits that were asked for.
pub proof fn law_padded_reads_back(n: nat, width: nat)
    ensures
        unsigned_number(padded(n, width)) == Some(n),
        padded(n, width).len() >= width,
        padded(n, width).len() == width || padded(n, width) == decimal(n),
{
    lemma_decimal_reads_back(n);
    let d = decimal(n);
    if d.len() < width {
        lemma_zeros_count_nothing((width - d.len()) as nat, d);
        assert(is_digit(padded(n, width)[0]));
    }
}

/// Every number of 64 bits reads back as it was, with its sign, and so does one with
/// a plus; a number that needs more bits does not read as one.
pub proof fn law_i64_reads_back(n: nat)
    ensures
        n <= i64::MAX ==> i64_number(decimal(n)) == Some(n as i64),
        n <= i64::MAX ==> i64_number(seq!['+'] + decimal(n)) == Some(n as i64),
        n <= i64::MAX + 1 ==> i64_number(seq!['-'] + decimal(n)) == Some((-n) as i64),
        n > i64::MAX ==> i64_number(decimal(n)) is None,
        n > i64::MAX + 1 ==> i64_number(seq!['-'] + decimal(n)) is None,
        n > u32::MAX ==> u32_number(decimal(n)) is None,
        n <= u32::MAX ==> u32_number(seq!['+'] + decimal(n)) == Some(n as u32),
{
    lemma_decimal_reads_back(n);
    assert(is_digit(decimal(n)[0]));
    assert((seq!['-'] + decimal(n)).skip(1) =~= decimal(n));
    assert((seq!['+'] + decimal(n)).skip(1) =~= decimal(n));
}

/// A text with anything but digits behind its first character is not a number.
pub proof fn law_only_digits_are_numbers(s: Seq<char>, i: int)
    requires
        0 < i < s.len(),
        !('0' as u32 <= s[i] as u32 <= '9' as u32),
    ensures
        u32_number(s) is None,
        i64_number(s) is None,
{
    assert(!is_digit(s[i]));
    assert(s.skip(1)[i - 1] == s[i]);
}

/// No number is written with a zero in front, but zero itself.
pub proof fn law_no_leading_zero(n: nat)
    ensures
        n > 0 ==> decimal(n)[0] != '0',
        decimal(0) == seq!['0'],
    decreases n,
{
    if n >= 10 {
        law_no_leading_zero(n / 10);
        lemma_decimal_reads_back(n / 10);
    }
}

} // verus!
