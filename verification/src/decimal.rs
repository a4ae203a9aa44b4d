//! Unsigned decimal notation: reading a `u64` from text and writing it back.
use vstd::prelude::*;
use vstd::std_specs::iter::IteratorSpec;

verus! {

broadcast use vstd::string::group_string_axioms;

/// Why a text is not a `u64` in decimal notation.
#[derive(Clone, Copy, Debug, PartialEq, Eq, Structural)]
pub enum ParseError {
    /// The text has no characters.
    Empty,
    /// A character is not a decimal digit, or a sign stands alone.
    InvalidDigit,
    /// The digits denote a number above `u64::MAX`.
    PosOverflow,
}

/// Whether `c` is one of `0` to `9`.
pub open spec fn is_digit(c: char) -> bool {
    '0' <= c && c <= '9'
}

/// The number that the digit `c` denotes.
pub open spec fn digit_value(c: char) -> nat {
    (c as u32 - '0' as u32) as nat
}

/// The digit that denotes `d`, for `d < 10`.
pub open spec fn digit_char(d: nat) -> char {
    (d + '0' as u32) as char
}

/// Whether every character of `s` is a decimal digit.
pub open spec fn all_digits(s: Seq<char>) -> bool {
    forall|i: int| 0 <= i < s.len() ==> is_digit(#[trigger] s[i])
}

/// The number that a sequence of digits denotes, most significant digit first.
pub open spec fn digits_value(s: Seq<char>) -> nat
    decreases s.len(),
{
    if s.len() == 0 {
        0
    } else {
        digits_value(s.drop_last()) * 10 + digit_value(s.last())
    }
}

/// Whether some prefix of `s` consists of digits that denote a number above `u64::MAX`.
pub open spec fn overflows(s: Seq<char>) -> bool {
    exists|k: int|
        0 <= k <= s.len() && all_digits(#[trigger] s.take(k)) && digits_value(s.take(k))
            > u64::MAX
}

/// What an unsigned digit sequence reads as: too large a number is reported
/// where it arises before any character that is no digit.
pub open spec fn parse_digits(s: Seq<char>) -> Result<u64, ParseError> {
    if overflows(s) {
        Err(ParseError::PosOverflow)
    } else if !all_digits(s) {
        Err(ParseError::InvalidDigit)
    } else {
        Ok(digits_value(s) as u64)
    }
}

/// What a text reads as: an optional `+`, then at least one digit, nothing else.
pub open spec fn parse_u64_spec(s: Seq<char>) -> Result<u64, ParseError> {
    if s.len() == 0 {
        Err(ParseError::Empty)
    } else if s.len() == 1 && s[0] == '+' {
        Err(ParseError::InvalidDigit)
    } else if s[0] == '+' {
        parse_digits(s.skip(1))
    } else {
        parse_digits(s)
    }
}

/// The decimal notation of `n`, without sign or leading zeros.
pub open spec fn decimal_text(n: nat) -> Seq<char>
    decreases n,
{
    if n < 10 {
        seq![digit_char(n)]
    } else {
        decimal_text(n / 10).push(digit_char(n % 10))
    }
}

/// The decimal notation of `n`: a `-` before the digits of a negative number.
pub open spec fn signed_decimal_text(n: int) -> Seq<char> {
    if n < 0 {
        seq!['-'] + decimal_text((-n) as nat)
    } else {
        decimal_text(n as nat)
    }
}

impl ParseError {
    /// The line shown to the user for this error.
    pub open spec fn message_spec(self) -> Seq<char> {
        match self {
            ParseError::Empty => "cannot parse integer from empty string"@,
            ParseError::InvalidDigit => "invalid digit found in string"@,
            ParseError::PosOverflow => "number too large to fit in target type"@,
        }
    }

    /// The line shown to the user for this error.
    pub fn message(&self) -> (text: String)
        ensures
            text@ == self.message_spec(),
    {
        match self {
            ParseError::Empty => "cannot parse integer from empty string".to_string(),
            ParseError::InvalidDigit => "invalid digit found in string".to_string(),
            ParseError::PosOverflow => "number too large to fit in target type".to_string(),
        }
    }
}

/// The value of one more digit behind a digit sequence.
pub proof fn lemma_digits_value_push(s: Seq<char>, c: char)
    ensures
        digits_value(s.push(c)) == digits_value(s) * 10 + digit_value(c),
{
    assert(s.push(c).drop_last() =~= s);
}

/// The number that the digit `c` denotes.
fn digit_of(c: char) -> (d: u64)
    requires
        is_digit(c),
    ensures
        d == digit_value(c),
        d < 10,
{
    (c as u32 - '0' as u32) as u64
}

/// The digit that denotes `d`.
fn digit_for(d: u64) -> (c: char)
    requires
        d < 10,
    ensures
        c == digit_char(d as nat),
        is_digit(c),
        digit_value(c) == d,
{
    (d as u8 + 48u8) as char
}

/// The digits of a number are digits, and denote it.
pub proof fn lemma_decimal_text_value(n: nat)
    ensures
        decimal_text(n).len() >= 1,
        all_digits(decimal_text(n)),
        digits_value(decimal_text(n)) == n,
    decreases n,
{
    if n < 10 {
        assert(decimal_text(n).drop_last() =~= Seq::<char>::empty());
        assert(digits_value(decimal_text(n).drop_last()) == 0);
    } else {
        lemma_decimal_text_value(n / 10);
        lemma_digits_value_push(decimal_text(n / 10), digit_char(n % 10));
    }
}

/// The first digits of a digit sequence denote no more than all of them.
pub proof fn lemma_prefix_value(s: Seq<char>, k: int)
    requires
        0 <= k <= s.len(),
    ensures
        digits_value(s.take(k)) <= digits_value(s),
    decreases s.len() - k,
{
    if k == s.len() {
        assert(s.take(k) =~= s);
    } else {
        lemma_prefix_value(s, k + 1);
        assert(s.take(k + 1).drop_last() =~= s.take(k));
        assert(digits_value(s.take(k + 1)) == digits_value(s.take(k)) * 10 + digit_value(
            s.take(k + 1).last(),
        ));
    }
}

/// A number written in decimal notation reads as that number.
pub proof fn lemma_parse_decimal_text(n: u64)
    ensures
        parse_u64_spec(decimal_text(n as nat)) == Ok::<u64, ParseError>(n),
{
    let text = decimal_text(n as nat);
    lemma_decimal_text_value(n as nat);
    assert(is_digit(text[0]));
    assert forall|k: int| 0 <= k <= text.len() implies digits_value(#[trigger] text.take(k))
        <= u64::MAX by {
        lemma_prefix_value(text, k);
    }
    assert(!overflows(text));
}

/// Whatever a text reads as, it reads as a number only if it is an optional
/// `+` before nothing but digits, at least one of them.
pub proof fn lemma_parse_accepts(s: Seq<char>)
    ensures
        parse_u64_spec(s) is Ok <==> {
            let digits = if s.len() > 0 && s[0] == '+' {
                s.skip(1)
            } else {
                s
            };
            digits.len() > 0 && all_digits(digits) && digits_value(digits) <= u64::MAX
        },
{
    let digits = if s.len() > 0 && s[0] == '+' {
        s.skip(1)
    } else {
        s
    };
    if s.len() > 0 {
        if all_digits(digits) && digits_value(digits) <= u64::MAX {
            assert forall|k: int| 0 <= k <= digits.len() implies digits_value(
                #[trigger] digits.take(k),
            ) <= u64::MAX by {
                lemma_prefix_value(digits, k);
            }
        }
        if all_digits(digits) && digits_value(digits) > u64::MAX {
            assert(digits.take(digits.len() as int) =~= digits);
        }
    }
}

/// Reads a `u64` from `text` in decimal notation.
pub fn parse_u64(text: &str) -> (r: Result<u64, ParseError>)
    ensures
        r == parse_u64_spec(text@),
{
    let mut it = text.chars();
    let mut cur: char = match it.next() {
        None => {
            return Err(ParseError::Empty);
        },
        Some(c) => c,
    };
    let ghost digits = if cur == '+' {
        text@.skip(1)
    } else {
        text@
    };
    if cur == '+' {
        match it.next() {
            None => {
                return Err(ParseError::InvalidDigit);
            },
            Some(c) => {
                cur = c;
            },
        }
    }
    let mut acc: u64 = 0;
    let ghost mut i: int = 0;
    assert(digits.take(0) =~= Seq::<char>::empty());
    loop
        invariant
            0 <= i < digits.len(),
            cur == digits[i],
            IteratorSpec::remaining(&it) == digits.skip(i + 1),
            IteratorSpec::obeys_prophetic_iter_laws(&it),
            all_digits(digits.take(i)),
            acc == digits_value(digits.take(i)),
            forall|k: int| 0 <= k <= i ==> digits_value(#[trigger] digits.take(k)) <= u64::MAX,
            parse_u64_spec(text@) == parse_digits(digits),
        decreases digits.len() - i,
    {
        if !('0' <= cur && cur <= '9') {
            proof {
                assert(!all_digits(digits));
                assert forall|k: int| 0 <= k <= digits.len() && all_digits(
                    #[trigger] digits.take(k),
                ) implies digits_value(digits.take(k)) <= u64::MAX by {
                    if k > i {
                        assert(digits.take(k)[i] == digits[i]);
                    }
                }
            }
            return Err(ParseError::InvalidDigit);
        }
        let d = digit_of(cur);
        proof {
            assert(digits.take(i + 1) =~= digits.take(i).push(cur));
            lemma_digits_value_push(digits.take(i), cur);
            assert(all_digits(digits.take(i + 1))) by {
                assert forall|j: int| 0 <= j < i + 1 implies is_digit(
                    #[trigger] digits.take(i + 1)[j],
                ) by {
                    if j < i {
                        assert(digits.take(i)[j] == digits[j]);
                    }
                }
            }
        }
        let shifted = match acc.checked_mul(10) {
            Some(v) => v,
            None => {
                return Err(ParseError::PosOverflow);
            },
        };
        acc = match shifted.checked_add(d) {
            Some(v) => v,
            None => {
                return Err(ParseError::PosOverflow);
            },
        };
        proof {
            i = i + 1;
        }
        match it.next() {
            None => {
                proof {
                    assert(digits.take(i) =~= digits);
                    assert forall|k: int| 0 <= k <= digits.len() && all_digits(
                        #[trigger] digits.take(k),
                    ) implies digits_value(digits.take(k)) <= u64::MAX by {}
                }
                return Ok(acc);
            },
            Some(c) => {
                cur = c;
            },
        }
    }
}

/// Appends the decimal notation of `n` to `out`.
fn push_decimal(out: &mut String, n: u64)
    ensures
        final(out)@ == old(out)@ + decimal_text(n as nat),
    decreases n,
{
    if n >= 10 {
        push_decimal(out, n / 10);
    }
    out.push(digit_for(n % 10));
    proof {
        let before = old(out)@;
        if n >= 10 {
            assert(before + decimal_text(n as nat / 10).push(digit_char(n as nat % 10)) =~= (before
                + decimal_text(n as nat / 10)).push(digit_char(n as nat % 10)));
        } else {
            assert(before + seq![digit_char(n as nat)] =~= before.push(digit_char(n as nat)));
        }
    }
}

/// Writes `n` in decimal notation.
pub fn format_u64(n: u64) -> (text: String)
    ensures
        text@ == decimal_text(n as nat),
{
    let mut out = String::new();
    push_decimal(&mut out, n);
    assert(Seq::<char>::empty() + decimal_text(n as nat) =~= decimal_text(n as nat));
    out
}

/// Writes `n` in decimal notation, with a `-` before a negative number.
pub fn format_i64(n: i64) -> (text: String)
    ensures
        text@ == signed_decimal_text(n as int),
{
    if n < 0 {
        let magnitude: u64 = (-(n + 1)) as u64 + 1;
        let mut out = String::new();
        out.push('-');
        push_decimal(&mut out, magnitude);
        assert(out@ =~= signed_decimal_text(n as int));
        out
    } else {
        format_u64(n as u64)
    }
}

} // verus!
