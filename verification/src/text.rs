//! Small verified helpers over strings that several modules share.

use vstd::prelude::*;

verus! {

/// Whether `s` holds the character `c` somewhere.
pub fn contains_char(s: &str, c: char) -> (found: bool)
    ensures
        found == s@.contains(c),
{
    let mut found = false;
    let ghost chars = s@;
    for x in it: s.chars()
        invariant
            it.seq() == chars,
            found == chars.take(it.index() as int).contains(c),
    {
        assert(x == chars[it.index() as int]);
        assert(chars.take(it.index() + 1) == chars.take(it.index() as int).push(x));
        proof {
            vstd::seq_lib::lemma_seq_contains_after_push(chars.take(it.index() as int), x, c);
        }
        if x == c {
            found = true;
        }
    }
    proof {
        assert(chars.take(chars.len() as int) == chars);
    }
    found
}

} // verus!

verus! {

/// Whether two texts are equal.
pub fn str_eq(a: &str, b: &str) -> (eq: bool)
    ensures
        eq == (a@ == b@),
{
    let a = a.to_owned();
    let b = b.to_owned();
    a == b
}

/// Whether `s` begins with `prefix`.
pub open spec fn has_prefix(s: Seq<char>, prefix: Seq<char>) -> bool {
    prefix.len() <= s.len() && s.take(prefix.len() as int) == prefix
}

/// A text begins with a prefix exactly when the prefix is no longer than
/// the text and each of its characters stands at the same place in it.
pub proof fn lemma_prefix_rule(s: Seq<char>, prefix: Seq<char>)
    ensures
        has_prefix(s, prefix) <==> (prefix.len() <= s.len() && forall|i: int|
            0 <= i < prefix.len() ==> s[i] == prefix[i]),
        has_prefix(prefix + s, prefix),
{
    if prefix.len() <= s.len() && forall|i: int| 0 <= i < prefix.len() ==> s[i] == prefix[i] {
        assert(s.take(prefix.len() as int) =~= prefix);
    }
    if has_prefix(s, prefix) {
        assert forall|i: int| 0 <= i < prefix.len() implies s[i] == prefix[i] by {
            assert(s.take(prefix.len() as int)[i] == s[i]);
        }
    }
    assert((prefix + s).take(prefix.len() as int) =~= prefix);
}

/// What is left of `s` after `prefix`, when `s` begins with it.
pub fn strip_prefix<'a>(s: &'a str, prefix: &str) -> (r: Option<&'a str>)
    ensures
        has_prefix(s@, prefix@) ==> (r matches Some(rest) && rest@ == s@.skip(prefix@.len() as int)),
        !has_prefix(s@, prefix@) ==> r is None,
{
    let n = prefix.unicode_len();
    let len = s.unicode_len();
    if n > len {
        return None;
    }
    let mut i: usize = 0;
    while i < n
        invariant
            n == prefix@.len(),
            len == s@.len(),
            n <= len,
            i <= n,
            forall|j: int| 0 <= j < i ==> s@[j] == prefix@[j],
        decreases n - i,
    {
        if s.get_char(i) != prefix.get_char(i) {
            assert(s@.take(n as int)[i as int] != prefix@[i as int]);
            return None;
        }
        i = i + 1;
    }
    assert(s@.take(n as int) =~= prefix@);
    Some(s.substring_char(n, len))
}

} // verus!

verus! {

/// Why a text is not read as an integer (the kinds of `std::num::IntErrorKind`
/// that reading an unsigned integer can give).
#[derive(Debug, Clone, Copy, PartialEq, Eq, Structural)]
pub enum IntErrorKind {
    /// The text is empty.
    Empty,
    /// The text holds a character that is not a digit where a digit belongs.
    InvalidDigit,
    /// The number is too large for the type.
    PosOverflow,
}

/// The description of an integer parse error, as `ParseIntError` displays it.
pub open spec fn int_error_message(kind: IntErrorKind) -> Seq<char> {
    match kind {
        IntErrorKind::Empty => "cannot parse integer from empty string"@,
        IntErrorKind::InvalidDigit => "invalid digit found in string"@,
        IntErrorKind::PosOverflow => "number too large to fit in target type"@,
    }
}

impl IntErrorKind {
    pub fn message(&self) -> (m: &'static str)
        ensures
            m@ == int_error_message(*self),
    {
        match self {
            IntErrorKind::Empty => "cannot parse integer from empty string",
            IntErrorKind::InvalidDigit => "invalid digit found in string",
            IntErrorKind::PosOverflow => "number too large to fit in target type",
        }
    }
}

/// Whether `c` is an ASCII decimal digit.
pub open spec fn is_digit(c: char) -> bool {
    48 <= (c as u32) <= 57
}

/// The value of a decimal digit.
pub open spec fn digit_value(c: char) -> nat {
    ((c as u32) - 48) as nat
}

/// The digits of a number text: all of it, or what follows a leading `+`.
pub open spec fn unsigned_digits(s: Seq<char>) -> Seq<char> {
    if s.len() > 0 && s[0] == '+' {
        s.skip(1)
    } else {
        s
    }
}

/// Reads the digits from position `i` on, onto the value `acc` of those
/// before it, from left to right: the first character that is no digit
/// fails with `InvalidDigit`, the first digit that takes the value past
/// `u16::MAX` with `PosOverflow`.
pub open spec fn scan_u16(digits: Seq<char>, i: int, acc: nat) -> Result<u16, IntErrorKind>
    decreases digits.len() - i,
{
    if i < 0 || i >= digits.len() {
        Ok(acc as u16)
    } else if !is_digit(digits[i]) {
        Err(IntErrorKind::InvalidDigit)
    } else if acc * 10 + digit_value(digits[i]) > u16::MAX {
        Err(IntErrorKind::PosOverflow)
    } else {
        scan_u16(digits, i + 1, acc * 10 + digit_value(digits[i]))
    }
}

/// What `str::parse::<u16>` gives for a text: an empty text fails with
/// `Empty`, a lone sign with `InvalidDigit`; otherwise the digits after an
/// optional `+` are read from left to right.
pub open spec fn parse_u16_spec(s: Seq<char>) -> Result<u16, IntErrorKind> {
    if s.len() == 0 {
        Err(IntErrorKind::Empty)
    } else if s.len() == 1 && (s[0] == '+' || s[0] == '-') {
        Err(IntErrorKind::InvalidDigit)
    } else {
        scan_u16(unsigned_digits(s), 0, 0)
    }
}

/// Reads a text as a `u16`, as `str::parse::<u16>` does.
pub fn parse_u16(s: &str) -> (r: Result<u16, IntErrorKind>)
    ensures
        r == parse_u16_spec(s@),
{
    let n = s.unicode_len();
    if n == 0 {
        return Err(IntErrorKind::Empty);
    }
    let first = s.get_char(0);
    if n == 1 && (first == '+' || first == '-') {
        return Err(IntErrorKind::InvalidDigit);
    }
    let start: usize = if first == '+' {
        1
    } else {
        0
    };
    let ghost digits = unsigned_digits(s@);
    assert(digits =~= s@.skip(start as int));
    let mut acc: u32 = 0;
    let mut i: usize = start;
    while i < n
        invariant
            n == s@.len(),
            digits == s@.skip(start as int),
            digits == unsigned_digits(s@),
            start <= i <= n,
            acc <= u16::MAX,
            scan_u16(digits, 0, 0) == scan_u16(digits, i - start, acc as nat),
        decreases n - i,
    {
        let c = s.get_char(i);
        assert(c == digits[i - start]);
        let code = c as u32;
        if code < 48 || code > 57 {
            return Err(IntErrorKind::InvalidDigit);
        }
        let next = acc * 10 + (code - 48);
        if next > 65535 {
            return Err(IntErrorKind::PosOverflow);
        }
        acc = next;
        i = i + 1;
    }
    Ok(acc as u16)
}

} // verus!

verus! {

/// The character of a decimal digit.
pub open spec fn digit_char(d: nat) -> char {
    ((48 + d) as u32) as char
}

/// The decimal text of a number, without leading zeros.
pub open spec fn decimal_text(n: nat) -> Seq<char>
    decreases n,
{
    if n < 10 {
        seq![digit_char(n)]
    } else {
        decimal_text(n / 10).push(digit_char(n % 10))
    }
}

/// A number below `10^8` has at most 8 decimal digits.
pub proof fn lemma_decimal_text_len(n: nat)
    requires
        n < 100_000_000,
    ensures
        decimal_text(n).len() <= 8,
{
    reveal_with_fuel(ten_pow, 9);
    assert(ten_pow(8) == 100_000_000);
    lemma_decimal_text_len_below(n, 8);
}

/// A number below `10^k` has at most `k` decimal digits.
proof fn lemma_decimal_text_len_below(n: nat, k: nat)
    requires
        k >= 1,
        n < ten_pow(k),
    ensures
        decimal_text(n).len() <= k,
    decreases n,
{
    if n >= 10 {
        assert(ten_pow(k) == 10 * ten_pow((k - 1) as nat));
        assert(n / 10 < ten_pow((k - 1) as nat)) by (nonlinear_arith)
            requires
                n < 10 * ten_pow((k - 1) as nat),
        ;
        assert(k - 1 >= 1) by {
            if k == 1 {
                assert(ten_pow(0) == 1);
            }
        }
        lemma_decimal_text_len_below(n / 10, (k - 1) as nat);
    }
}

/// `10^k`.
spec fn ten_pow(k: nat) -> nat
    decreases k,
{
    if k == 0 {
        1
    } else {
        10 * ten_pow((k - 1) as nat)
    }
}

/// The text of one decimal digit.
fn digit_str(d: u64) -> (s: &'static str)
    requires
        d < 10,
    ensures
        s@ == seq![digit_char(d as nat)],
{
    proof {
        reveal_strlit("0");
        reveal_strlit("1");
        reveal_strlit("2");
        reveal_strlit("3");
        reveal_strlit("4");
        reveal_strlit("5");
        reveal_strlit("6");
        reveal_strlit("7");
        reveal_strlit("8");
        reveal_strlit("9");
    }
    let s = match d {
        0 => "0",
        1 => "1",
        2 => "2",
        3 => "3",
        4 => "4",
        5 => "5",
        6 => "6",
        7 => "7",
        8 => "8",
        _ => "9",
    };
    assert(s@ =~= seq![digit_char(d as nat)]);
    s
}

/// Writes a number in decimal.
pub fn decimal_string(n: u64) -> (s: String)
    ensures
        s@ == decimal_text(n as nat),
    decreases n,
{
    if n < 10 {
        String::from_str(digit_str(n))
    } else {
        let head = decimal_string(n / 10);
        let r = head.concat(digit_str(n % 10));
        assert(r@ =~= decimal_text(n as nat));
        r
    }
}

/// The character of a digit is a digit of that value.
proof fn lemma_digit_char(d: nat)
    requires
        d < 10,
    ensures
        is_digit(digit_char(d)),
        digit_value(digit_char(d)) == d,
        digit_char(d) != '+',
        digit_char(d) != '-',
{
    assert(((48 + d) as u32) as char as u32 == (48 + d) as u32);
}

/// The decimal text of a number is a non-empty string of digits.
proof fn lemma_decimal_text_digits(n: nat)
    ensures
        decimal_text(n).len() >= 1,
        forall|i: int| 0 <= i < decimal_text(n).len() ==> #[trigger] is_digit(decimal_text(n)[i]),
        decimal_text(n)[0] != '+',
        decimal_text(n)[0] != '-',
    decreases n,
{
    if n < 10 {
        lemma_digit_char(n);
    } else {
        lemma_decimal_text_digits(n / 10);
        lemma_digit_char(n % 10);
        let s = decimal_text(n / 10);
        assert(decimal_text(n) == s.push(digit_char(n % 10)));
        assert forall|i: int| 0 <= i < decimal_text(n).len() implies #[trigger] is_digit(
            decimal_text(n)[i],
        ) by {
            if i < s.len() {
                assert(decimal_text(n)[i] == s[i]);
            }
        }
        assert(decimal_text(n)[0] == s[0]);
    }
}

/// Reading digits that end without failure, with one more character after
/// them, reads that character onto the value of the digits.
proof fn lemma_scan_push(s: Seq<char>, i: int, acc: nat, v: u16, c: char)
    requires
        0 <= i <= s.len(),
        acc <= u16::MAX,
        scan_u16(s, i, acc) == Ok::<u16, IntErrorKind>(v),
    ensures
        scan_u16(s.push(c), i, acc) == scan_u16(seq![c], 0, v as nat),
    decreases s.len() - i,
{
    reveal_with_fuel(scan_u16, 2);
    if i == s.len() {
        assert(s.push(c)[i] == c);
        assert(seq![c][0] == c);
    } else {
        assert(s.push(c)[i] == s[i]);
        let next = acc * 10 + digit_value(s[i]);
        lemma_scan_push(s, i + 1, next, v, c);
    }
}

/// The decimal text of a number up to `u16::MAX` reads back as it.
proof fn lemma_scan_decimal_text(n: nat)
    requires
        n <= u16::MAX,
    ensures
        scan_u16(decimal_text(n), 0, 0) == Ok::<u16, IntErrorKind>(n as u16),
    decreases n,
{
    reveal_with_fuel(scan_u16, 2);
    if n < 10 {
        lemma_digit_char(n);
        assert(decimal_text(n)[0] == digit_char(n));
    } else {
        lemma_scan_decimal_text(n / 10);
        lemma_digit_char(n % 10);
        let s = decimal_text(n / 10);
        lemma_scan_push(s, 0, 0, (n / 10) as u16, digit_char(n % 10));
        assert((n / 10) * 10 + n % 10 == n) by (nonlinear_arith);
        assert(seq![digit_char(n % 10)][0] == digit_char(n % 10));
    }
}

/// Reading a `u16` gives back every number from its decimal text, also
/// after a `+`; an empty text is `Empty`, and a text that starts with `-` is
/// `InvalidDigit` (there is no negative `u16`).
pub proof fn lemma_parse_u16_reads_numbers(n: u16, rest: Seq<char>)
    ensures
        parse_u16_spec(decimal_text(n as nat)) == Ok::<u16, IntErrorKind>(n),
        parse_u16_spec(seq!['+'] + decimal_text(n as nat)) == Ok::<u16, IntErrorKind>(n),
        parse_u16_spec(Seq::empty()) == Err::<u16, IntErrorKind>(IntErrorKind::Empty),
        parse_u16_spec(seq!['-'] + rest) == Err::<u16, IntErrorKind>(IntErrorKind::InvalidDigit),
{
    lemma_decimal_text_digits(n as nat);
    lemma_scan_decimal_text(n as nat);
    let d = decimal_text(n as nat);
    assert(unsigned_digits(d) == d);
    let plus = seq!['+'] + d;
    assert(plus[0] == '+');
    assert(plus.skip(1) =~= d);
    let minus = seq!['-'] + rest;
    assert(minus[0] == '-');
    assert(!is_digit('-'));
}

} // verus!
