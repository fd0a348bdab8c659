//! Numbers as cells hold them, and the text forms they are read from.

use vstd::prelude::*;
use vstd::string::*;
use crate::text::chars_of;

verus! {

/// A number that keeps apart what was an integer and what was not.
///
/// A number that is no integer is carried as the text that writes it: fraction
/// and exponent are never computed with here.
#[derive(Clone, PartialEq, Eq, Debug)]
pub enum Number {
    /// An integer that is not negative.
    PosInt(u64),
    /// An integer below zero.
    NegInt(i64),
    /// A number with a fraction or an exponent, as it is written.
    Float(String),
}

/// What a `Number` holds, as plain values.
pub enum NumberView {
    PosInt(u64),
    NegInt(i64),
    Float(Seq<char>),
}

impl View for Number {
    type V = NumberView;

    open spec fn view(&self) -> NumberView {
        match self {
            Number::PosInt(u) => NumberView::PosInt(*u),
            Number::NegInt(i) => NumberView::NegInt(*i),
            Number::Float(t) => NumberView::Float(t@),
        }
    }
}

/// Whether `c` is one of the ten decimal digits.
pub open spec fn is_digit(c: char) -> bool {
    '0' <= c && c <= '9'
}

/// The value of the decimal digit `c`.
pub open spec fn digit_value(c: char) -> nat
    recommends
        is_digit(c),
{
    (c as u32 - '0' as u32) as nat
}

/// Whether `s` holds decimal digits and nothing else.
pub open spec fn all_digits(s: Seq<char>) -> bool {
    forall|i: int| 0 <= i < s.len() ==> is_digit(#[trigger] s[i])
}

/// The number that the decimal digits `s` write, leading zeros allowed.
pub open spec fn digits_value(s: Seq<char>) -> nat
    decreases s.len(),
{
    if s.len() == 0 {
        0
    } else {
        10 * digits_value(s.drop_last()) + digit_value(s.last())
    }
}

/// Whether `text` opens with a sign.
pub open spec fn has_sign(text: Seq<char>) -> bool {
    text.len() > 0 && (text[0] == '-' || text[0] == '+')
}

/// The digits of `text`, that is `text` without its sign.
pub open spec fn unsigned_part(text: Seq<char>) -> Seq<char> {
    if has_sign(text) {
        text.subrange(1, text.len() as int)
    } else {
        text
    }
}

/// The integer that `text` writes: an optional sign, then one decimal digit
/// or more, and nothing else. `None` where `text` is not of that form or
/// the integer does not fit in 64 bits.
pub open spec fn integer_of(text: Seq<char>) -> Option<i64> {
    let digits = unsigned_part(text);
    let magnitude = digits_value(digits) as int;
    let value = if has_sign(text) && text[0] == '-' {
        -magnitude
    } else {
        magnitude
    };
    if digits.len() == 0 || !all_digits(digits) || value < i64::MIN || value > i64::MAX {
        None
    } else {
        Some(value as i64)
    }
}

/// The decimal digit that writes `d`.
pub open spec fn digit_char(d: nat) -> char
    recommends
        d < 10,
{
    if d == 0 {
        '0'
    } else if d == 1 {
        '1'
    } else if d == 2 {
        '2'
    } else if d == 3 {
        '3'
    } else if d == 4 {
        '4'
    } else if d == 5 {
        '5'
    } else if d == 6 {
        '6'
    } else if d == 7 {
        '7'
    } else if d == 8 {
        '8'
    } else {
        '9'
    }
}

/// The decimal digits of `n`, without leading zeros.
pub open spec fn decimal_of(n: nat) -> Seq<char>
    decreases n,
{
    if n < 10 {
        seq![digit_char(n)]
    } else {
        decimal_of(n / 10).push(digit_char(n % 10))
    }
}

/// The text of the integer `i`: a minus sign where it is negative, then its
/// decimal digits.
pub open spec fn integer_text(i: int) -> Seq<char> {
    if i < 0 {
        seq!['-'] + decimal_of((-i) as nat)
    } else {
        decimal_of(i as nat)
    }
}

impl NumberView {
    /// Integers are held in one way only: no negative one as `PosInt`, and
    /// none from zero up as `NegInt`.
    pub open spec fn wf(self) -> bool {
        self matches NumberView::NegInt(i) ==> i < 0
    }

    /// Whether the number is an integer.
    pub open spec fn is_integer(self) -> bool {
        !(self is Float)
    }

    /// The number that holds the integer `i`.
    pub open spec fn of_int(i: i64) -> NumberView {
        if i < 0 {
            NumberView::NegInt(i)
        } else {
            NumberView::PosInt(i as u64)
        }
    }

    /// The text of the number: decimal digits for an integer, and for any
    /// other number the text it is carried as.
    pub open spec fn text(self) -> Seq<char> {
        match self {
            NumberView::PosInt(u) => integer_text(u as int),
            NumberView::NegInt(i) => integer_text(i as int),
            NumberView::Float(t) => t,
        }
    }
}

impl Number {
    /// Integers are held in one way only.
    pub open spec fn wf(self) -> bool {
        self@.wf()
    }

    /// Tests `wf` at run time.
    pub fn is_valid(&self) -> (ok: bool)
        ensures
            ok == self.wf(),
    {
        match self {
            Number::NegInt(i) => *i < 0,
            _ => true,
        }
    }

    /// The number that holds the integer `i`.
    pub fn from_i64(i: i64) -> (n: Number)
        ensures
            n@ == NumberView::of_int(i),
            n.wf(),
    {
        if i < 0 {
            Number::NegInt(i)
        } else {
            Number::PosInt(i as u64)
        }
    }

    /// The number that holds the integer `u`.
    pub fn from_u64(u: u64) -> (n: Number)
        ensures
            n@ == NumberView::PosInt(u),
            n.wf(),
    {
        Number::PosInt(u)
    }

    /// A copy of the number.
    pub fn duplicate(&self) -> (n: Number)
        ensures
            n@ == self@,
    {
        match self {
            Number::PosInt(u) => Number::PosInt(*u),
            Number::NegInt(i) => Number::NegInt(*i),
            Number::Float(t) => Number::Float(t.clone()),
        }
    }

    /// Writes the number as text.
    pub fn to_text(&self) -> (text: String)
        ensures
            text@ == self@.text(),
    {
        match self {
            Number::PosInt(u) => unsigned_to_text(*u),
            Number::NegInt(i) => integer_to_text(*i),
            Number::Float(t) => t.clone(),
        }
    }
}

/// The value of a digit, for a character that is one.
fn digit_of(c: char) -> (d: Option<u8>)
    ensures
        d is Some <==> is_digit(c),
        d matches Some(v) ==> v as nat == digit_value(c) && v < 10,
{
    if '0' <= c && c <= '9' {
        Some((c as u32 - '0' as u32) as u8)
    } else {
        None
    }
}

/// One more digit multiplies what was read by ten and adds the digit.
proof fn lemma_digits_step(s: Seq<char>, i: int)
    requires
        0 <= i < s.len(),
    ensures
        digits_value(s.take(i + 1)) == 10 * digits_value(s.take(i)) + digit_value(s[i]),
{
    assert(s.take(i + 1).drop_last() == s.take(i));
    assert(s.take(i + 1).last() == s[i]);
}

/// Reads an integer from `text`: an optional sign, then decimal digits.
///
/// Leading zeros are accepted, spaces are not, and an integer that does not
/// fit in 64 bits is no integer.
pub fn parse_integer(text: &str) -> (value: Option<i64>)
    ensures
        value == integer_of(text@),
{
    let chars = chars_of(text);
    let n = chars.len();
    let mut start: usize = 0;
    let mut negative = false;
    if n > 0 && (chars[0] == '-' || chars[0] == '+') {
        negative = chars[0] == '-';
        start = 1;
    }
    let ghost digits = unsigned_part(text@);
    assert(digits == text@.subrange(start as int, n as int));
    if start == n {
        return None;
    }
    let limit: u128 = 0x8000_0000_0000_0000;
    let mut acc: u128 = 0;
    let mut too_large = false;
    let mut i: usize = start;
    while i < n
        invariant
            start <= i <= n,
            n == chars@.len(),
            chars@ == text@,
            digits == text@.subrange(start as int, n as int),
            digits == unsigned_part(text@),
            limit == 0x8000_0000_0000_0000,
            all_digits(digits.take(i - start)),
            !too_large ==> acc == digits_value(digits.take(i - start)) && acc <= limit,
            too_large ==> digits_value(digits.take(i - start)) > limit,
        decreases n - i,
    {
        let ghost k = i - start;
        assert(digits[k] == chars@[i as int]);
        proof {
            lemma_digits_step(digits, k);
        }
        match digit_of(chars[i]) {
            None => {
                assert(!all_digits(digits)) by {
                    assert(!is_digit(digits[k]));
                }
                return None;
            },
            Some(d) => {
                if !too_large {
                    acc = acc * 10 + d as u128;
                    if acc > limit {
                        too_large = true;
                    }
                }
                assert(all_digits(digits.take(k + 1))) by {
                    assert forall|j: int| 0 <= j < k + 1 implies is_digit(
                        #[trigger] digits.take(k + 1)[j],
                    ) by {
                        if j < k {
                            assert(digits.take(k)[j] == digits.take(k + 1)[j]);
                        }
                    }
                }
            },
        }
        i = i + 1;
    }
    assert(digits.take(n - start) == digits);
    if too_large {
        None
    } else if negative {
        if acc == limit {
            Some(i64::MIN)
        } else {
            Some(-(acc as i64))
        }
    } else if acc == limit {
        None
    } else {
        Some(acc as i64)
    }
}

/// The digit that writes `d`, as a text.
fn digit_text(d: u8) -> (text: &'static str)
    requires
        d < 10,
    ensures
        text@ == seq![digit_char(d as nat)],
{
    proof {
        reveal_strlit("0");
        reveal_strlit("1");
        reveal_strlit("2");
        reveal_strlit("3");
        reveal_strlit("4");
        reveal_strlit("5");
        reveal_strlit("6");
        reveal_strlit("7");
        reveal_strlit("8");
        reveal_strlit("9");
    }
    let text = if d == 0 {
        "0"
    } else if d == 1 {
        "1"
    } else if d == 2 {
        "2"
    } else if d == 3 {
        "3"
    } else if d == 4 {
        "4"
    } else if d == 5 {
        "5"
    } else if d == 6 {
        "6"
    } else if d == 7 {
        "7"
    } else if d == 8 {
        "8"
    } else {
        "9"
    };
    assert(text@ =~= seq![digit_char(d as nat)]);
    text
}

/// Appends the decimal digits of `n` to `out`.
fn push_decimal(n: u64, out: &mut String)
    ensures
        final(out)@ == old(out)@ + decimal_of(n as nat),
    decreases n,
{
    if n < 10 {
        out.append(digit_text(n as u8));
    } else {
        push_decimal(n / 10, out);
        out.append(digit_text((n % 10) as u8));
        assert(decimal_of(n as nat) =~= decimal_of((n / 10) as nat) + seq![
            digit_char((n % 10) as nat),
        ]);
    }
}

/// Writes the integer `i` in decimal.
pub fn integer_to_text(i: i64) -> (text: String)
    ensures
        text@ == integer_text(i as int),
{
    let mut out = String::new();
    if i < 0 {
        proof {
            reveal_strlit("-");
        }
        out.append("-");
        assert(out@ =~= seq!['-']);
        let magnitude: u64 = if i == i64::MIN {
            0x8000_0000_0000_0000
        } else {
            (-i) as u64
        };
        push_decimal(magnitude, &mut out);
    } else {
        push_decimal(i as u64, &mut out);
    }
    out
}

/// Writes the integer `u` in decimal.
pub fn unsigned_to_text(u: u64) -> (text: String)
    ensures
        text@ == integer_text(u as int),
{
    let mut out = String::new();
    push_decimal(u, &mut out);
    out
}

/// The decimal digits of a number are digits, begin with no sign, and write
/// that number.
proof fn lemma_decimal_of(n: nat)
    ensures
        decimal_of(n).len() > 0,
        all_digits(decimal_of(n)),
        digits_value(decimal_of(n)) == n,
    decreases n,
{
    let text = decimal_of(n);
    if n < 10 {
        assert(text.drop_last() =~= Seq::<char>::empty());
        assert(text.last() == digit_char(n));
        assert(digit_value(digit_char(n)) == n);
        assert(is_digit(digit_char(n)));
        assert(digits_value(text.drop_last()) == 0);
    } else {
        lemma_decimal_of(n / 10);
        let d = n % 10;
        assert(text.drop_last() =~= decimal_of(n / 10));
        assert(text.last() == digit_char(d));
        assert(digit_value(digit_char(d)) == d);
        assert(is_digit(digit_char(d)));
        assert forall|j: int| 0 <= j < text.len() implies is_digit(#[trigger] text[j]) by {
            if j < text.len() - 1 {
                assert(text[j] == decimal_of(n / 10)[j]);
            }
        }
    }
}

/// What is written of an integer reads back as that integer.
pub proof fn written_integers_read_back(i: i64)
    ensures
        integer_of(integer_text(i as int)) == Some(i),
{
    let text = integer_text(i as int);
    if i < 0 {
        let digits = decimal_of((-i) as nat);
        lemma_decimal_of((-i) as nat);
        assert(text[0] == '-');
        assert(unsigned_part(text) =~= digits);
    } else {
        lemma_decimal_of(i as nat);
        assert(is_digit(text[0]));
        assert(!has_sign(text));
    }
}

/// What a number that may be absent holds.
pub open spec fn number_view(number: Option<Number>) -> Option<NumberView> {
    match number {
        Some(n) => Some(n@),
        None => None,
    }
}

/// The number that `serde_json` reads from a text, `None` where it reads none.
pub uninterp spec fn json_number_of(text: Seq<char>) -> Option<NumberView>;

/// Whether `number` is what is read of `text` where `text` is an integer
/// as this library writes integers: just that integer.
pub open spec fn reads_integers(text: Seq<char>, number: Option<NumberView>) -> bool {
    &&& forall|u: u64|
        text == #[trigger] integer_text(u as int) ==> number == Some(NumberView::PosInt(u))
    &&& forall|i: i64|
        i < 0 && text == #[trigger] integer_text(i as int) ==> number == Some(
            NumberView::NegInt(i),
        )
}

/// Calls `FromStr` of `serde_json::Number`: the whole text must be one JSON
/// number. An integer that fits 64 bits comes back as that integer, held in
/// one way only; any other number as the text that `serde_json` writes for
/// it; and what is no JSON number, or too large for one, as `None`. The
/// decimal digits of an integer, after a minus sign for one below zero and
/// without leading zeros, are read as that integer.
#[verifier::external_body]
fn read_json_number(text: &str) -> (number: Option<Number>)
    ensures
        number_view(number) == json_number_of(text@),
        number matches Some(n) ==> n.wf(),
        reads_integers(text@, number_view(number)),
{
    match text.parse::<serde_json::Number>() {
        Ok(n) => Some(match (n.as_u64(), n.as_i64()) {
            (Some(u), _) => Number::PosInt(u),
            (None, Some(i)) => Number::NegInt(i),
            (None, None) => Number::Float(n.to_string()),
        }),
        Err(_) => None,
    }
}

/// Reads a number from `text` as JSON writes numbers: no sign but a minus,
/// no leading zeros, an optional fraction and exponent.
pub fn parse_number(text: &str) -> (number: Option<Number>)
    ensures
        number_view(number) == json_number_of(text@),
        number matches Some(n) ==> n.wf(),
        reads_integers(text@, number_view(number)),
{
    read_json_number(text)
}

} // verus!
