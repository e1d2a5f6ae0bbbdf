//! Decimal and hexadecimal rendering of integers, and the decimal parser
//! that the agent uses for port numbers typed into its user interface.
use vstd::prelude::*;

verus! {

/// `String::push` appends one character.
pub assume_specification[ std::string::String::push ](s: &mut std::string::String, ch: char)
    ensures
        final(s)@ == old(s)@.push(ch),
;

/// The character that renders the digit `d` (`0`-`9`, then `a`-`f`).
pub open spec fn digit_char(d: nat) -> char {
    if d < 10 {
        (48 + d) as char
    } else {
        (87 + d) as char
    }
}

/// Decimal rendering of `n`, without leading zeros.
pub open spec fn decimal(n: nat) -> Seq<char>
    decreases n,
{
    if n < 10 {
        seq![digit_char(n)]
    } else {
        decimal(n / 10).push(digit_char(n % 10))
    }
}

/// Lower-case hexadecimal rendering of `n`, without leading zeros.
pub open spec fn hex_lower(n: nat) -> Seq<char>
    decreases n,
{
    if n < 16 {
        seq![digit_char(n)]
    } else {
        hex_lower(n / 16).push(digit_char(n % 16))
    }
}

fn exec_digit_char(d: u64) -> (c: char)
    requires
        d < 16,
    ensures
        c == digit_char(d as nat),
{
    if d < 10 {
        ((48 + d) as u8) as char
    } else {
        ((87 + d) as u8) as char
    }
}

/// Appends the decimal rendering of `n` to `s`.
pub fn push_decimal(s: &mut String, n: u64)
    ensures
        final(s)@ == old(s)@ + decimal(n as nat),
    decreases n,
{
    if n >= 10 {
        push_decimal(s, n / 10);
    }
    s.push(exec_digit_char(n % 10));
    proof {
        assert(old(s)@ + decimal(n as nat) =~= final(s)@) by {
            if n >= 10 {
                assert(decimal(n as nat) == decimal((n / 10) as nat).push(digit_char((n % 10) as nat)));
            }
        }
    }
}

/// Appends the lower-case hexadecimal rendering of `n` to `s`.
pub fn push_hex_lower(s: &mut String, n: u64)
    ensures
        final(s)@ == old(s)@ + hex_lower(n as nat),
    decreases n,
{
    if n >= 16 {
        push_hex_lower(s, n / 16);
    }
    s.push(exec_digit_char(n % 16));
    proof {
        assert(old(s)@ + hex_lower(n as nat) =~= final(s)@) by {
            if n >= 16 {
                assert(hex_lower(n as nat) == hex_lower((n / 16) as nat).push(digit_char((n % 16) as nat)));
            }
        }
    }
}

/// Why a text is not a `u16`, with the kinds that `u16::from_str` reports.
#[derive(Debug, Clone, Copy, PartialEq, Eq)]
pub enum IntParseError {
    Empty,
    InvalidDigit,
    PosOverflow,
}

pub open spec fn is_decimal_digit(c: char) -> bool {
    '0' <= c && c <= '9'
}

pub open spec fn digit_value(c: char) -> nat {
    (c as nat - 48) as nat
}

/// Reads the decimal digits `s` from left to right, stopping at the first
/// character that is not a digit or at the first digit that takes the value
/// past `u16::MAX`.
pub open spec fn fold_decimal_u16(s: Seq<char>) -> Result<nat, IntParseError>
    decreases s.len(),
{
    if s.len() == 0 {
        Ok(0)
    } else {
        match fold_decimal_u16(s.drop_last()) {
            Err(e) => Err(e),
            Ok(acc) => if !is_decimal_digit(s.last()) {
                Err(IntParseError::InvalidDigit)
            } else if acc * 10 + digit_value(s.last()) > 65535 {
                Err(IntParseError::PosOverflow)
            } else {
                Ok(acc * 10 + digit_value(s.last()))
            },
        }
    }
}

/// What `u16::from_str` gives on the text `s`: an optional leading `+`,
/// then decimal digits.
pub open spec fn spec_parse_u16(s: Seq<char>) -> Result<u16, IntParseError> {
    if s.len() == 0 {
        Err(IntParseError::Empty)
    } else if s.len() == 1 && s[0] == '+' {
        Err(IntParseError::InvalidDigit)
    } else {
        let digits = if s[0] == '+' { s.drop_first() } else { s };
        match fold_decimal_u16(digits) {
            Ok(v) => Ok(v as u16),
            Err(e) => Err(e),
        }
    }
}

proof fn lemma_fold_bounded(s: Seq<char>)
    ensures
        fold_decimal_u16(s) matches Ok(v) ==> v <= 65535,
    decreases s.len(),
{
    if s.len() > 0 {
        lemma_fold_bounded(s.drop_last());
    }
}

proof fn lemma_fold_error_prefix(s: Seq<char>, k: int)
    requires
        0 <= k <= s.len(),
        fold_decimal_u16(s.take(k)) is Err,
    ensures
        fold_decimal_u16(s) == fold_decimal_u16(s.take(k)),
    decreases s.len(),
{
    if k < s.len() {
        assert(s.drop_last().take(k) =~= s.take(k));
        lemma_fold_error_prefix(s.drop_last(), k);
    } else {
        assert(s.take(k) =~= s);
    }
}

/// Parses `s` as `u16::from_str` does.
pub fn parse_u16(s: &str) -> (r: Result<u16, IntParseError>)
    ensures
        r == spec_parse_u16(s@),
{
    let len = s.unicode_len();
    if len == 0 {
        return Err(IntParseError::Empty);
    }
    let first = s.get_char(0);
    if len == 1 && first == '+' {
        return Err(IntParseError::InvalidDigit);
    }
    let start: usize = if first == '+' { 1 } else { 0 };
    let ghost digits = if s@[0] == '+' { s@.drop_first() } else { s@ };
    let mut acc: u32 = 0;
    let mut i: usize = start;
    while i < len
        invariant
            len == s@.len(),
            start <= i <= len,
            start == 1 || start == 0,
            digits =~= s@.subrange(start as int, len as int),
            s@.len() > 0,
            !(s@.len() == 1 && s@[0] == '+'),
            digits == (if s@[0] == '+' { s@.drop_first() } else { s@ }),
            fold_decimal_u16(digits.take(i - start)) == Ok::<nat, IntParseError>(acc as nat),
        decreases len - i,
    {
        let c = s.get_char(i);
        let ghost prefix = digits.take(i - start + 1);
        assert(prefix.drop_last() =~= digits.take(i - start));
        assert(prefix.last() == c);
        proof {
            lemma_fold_bounded(digits.take(i - start));
        }
        if !('0' <= c && c <= '9') {
            proof {
                lemma_fold_error_prefix(digits, i - start + 1);
            }
            return Err(IntParseError::InvalidDigit);
        }
        let d: u32 = (c as u32) - 48;
        if acc * 10 + d > 65535 {
            proof {
                lemma_fold_error_prefix(digits, i - start + 1);
            }
            return Err(IntParseError::PosOverflow);
        }
        acc = acc * 10 + d;
        i = i + 1;
    }
    assert(digits.take(len - start) =~= digits);
    Ok(acc as u16)
}

/// The message that `ParseIntError` displays for each kind of error.
pub open spec fn spec_int_error_text(e: IntParseError) -> Seq<char> {
    match e {
        IntParseError::Empty => "cannot parse integer from empty string"@,
        IntParseError::InvalidDigit => "invalid digit found in string"@,
        IntParseError::PosOverflow => "number too large to fit in target type"@,
    }
}

impl IntParseError {
    /// The message of this error, as `ParseIntError` displays it.
    pub fn to_text(&self) -> (r: String)
        ensures
            r@ == spec_int_error_text(*self),
    {
        match self {
            IntParseError::Empty => String::from_str("cannot parse integer from empty string"),
            IntParseError::InvalidDigit => String::from_str("invalid digit found in string"),
            IntParseError::PosOverflow => String::from_str("number too large to fit in target type"),
        }
    }
}

proof fn lemma_digit_char(k: nat)
    requires
        k < 10,
    ensures
        is_decimal_digit(digit_char(k)),
        digit_value(digit_char(k)) == k,
{
    assert(((48 + k) as char) as nat == 48 + k);
}

proof fn lemma_decimal_digits(n: nat)
    ensures
        decimal(n).len() >= 1,
        forall|i: int| 0 <= i < decimal(n).len() ==> #[trigger] is_decimal_digit(decimal(n)[i]),
        fold_decimal_u16(decimal(n)) == (if n <= 65535 {
            Ok::<nat, IntParseError>(n)
        } else {
            fold_decimal_u16(decimal(n))
        }),
    decreases n,
{
    lemma_digit_char(n % 10);
    if n >= 10 {
        lemma_decimal_digits(n / 10);
        let s = decimal(n);
        assert(s.drop_last() =~= decimal(n / 10));
        assert(s.last() == digit_char(n % 10));
        assert(forall|i: int| 0 <= i < s.len() - 1 ==> s[i] == decimal(n / 10)[i]);
        if n <= 65535 {
            assert((n / 10) * 10 + n % 10 == n) by (nonlinear_arith);
            assert(fold_decimal_u16(s.drop_last()) == Ok::<nat, IntParseError>(n / 10));
            assert(fold_decimal_u16(s) == Ok::<nat, IntParseError>(n));
        }
    } else {
        let s = decimal(n);
        assert(s.drop_last() =~= Seq::<char>::empty());
        assert(fold_decimal_u16(s.drop_last()) == Ok::<nat, IntParseError>(0));
        assert(s.last() == digit_char(n));
    }
}

/// Parsing the decimal rendering of a `u16` gives it back.
pub proof fn lemma_parse_decimal_roundtrip(n: u16)
    ensures
        spec_parse_u16(decimal(n as nat)) == Ok::<u16, IntParseError>(n),
{
    lemma_decimal_digits(n as nat);
    assert(is_decimal_digit(decimal(n as nat)[0]));
}

} // verus!
