//! Unsigned decimal numbers as text.

use vstd::prelude::*;
use vstd::std_specs::iter::IteratorSpec;

verus! {

/// Why a text is no unsigned number of the wanted size.
#[derive(Clone, Copy, Debug, PartialEq, Eq, Structural)]
pub enum NumberFault {
    /// The text is empty.
    Empty,
    /// A character that is no decimal digit stands where one is due.
    InvalidDigit,
    /// The number is larger than the largest value allowed.
    TooLarge,
}

impl NumberFault {
    /// The message for this fault.
    pub open spec fn text(self) -> Seq<char> {
        match self {
            NumberFault::Empty => "cannot parse integer from empty string"@,
            NumberFault::InvalidDigit => "invalid digit found in string"@,
            NumberFault::TooLarge => "number too large to fit in target type"@,
        }
    }

    /// Describes this fault.
    pub fn message(self) -> (text: &'static str)
        ensures
            text@ == self.text(),
    {
        match self {
            NumberFault::Empty => "cannot parse integer from empty string",
            NumberFault::InvalidDigit => "invalid digit found in string",
            NumberFault::TooLarge => "number too large to fit in target type",
        }
    }
}

/// Tells whether `c` is one of the ten decimal digits.
pub open spec fn is_digit(c: char) -> bool {
    '0' <= c && c <= '9'
}

/// The number that a digit stands for.
pub open spec fn digit_value(c: char) -> nat {
    (c as nat - '0' as nat) as nat
}

/// The number that a run of digits stands for, the most significant digit first.
pub open spec fn digits_value(digits: Seq<char>) -> nat
    decreases digits.len(),
{
    if digits.len() == 0 {
        0
    } else {
        digits_value(digits.drop_last()) * 10 + digit_value(digits.last())
    }
}

/// How many digits `text` starts with.
pub open spec fn leading_digits(text: Seq<char>) -> nat
    decreases text.len(),
{
    if text.len() == 0 {
        0
    } else {
        let shorter = leading_digits(text.drop_last());
        if shorter == text.len() - 1 && is_digit(text.last()) {
            text.len()
        } else {
            shorter
        }
    }
}

/// What follows the sign, for a text that may start with a plus sign.
pub open spec fn after_sign(text: Seq<char>) -> Seq<char> {
    if text.len() > 0 && text[0] == '+' {
        text.skip(1)
    } else {
        text
    }
}

/// The unsigned number, `max` at most, that `text` spells: an optional plus sign and then
/// digits alone, at least one of them.
///
/// The fault is the one met first from the left.
pub open spec fn number(text: Seq<char>, max: nat) -> Result<nat, NumberFault> {
    let body = after_sign(text);
    let run = body.take(leading_digits(body) as int);
    if text.len() == 0 {
        Err(NumberFault::Empty)
    } else if digits_value(run) > max {
        Err(NumberFault::TooLarge)
    } else if run.len() == 0 || run.len() < body.len() {
        Err(NumberFault::InvalidDigit)
    } else {
        Ok(digits_value(run))
    }
}

/// The decimal digit for a number below ten.
pub open spec fn digit_char(n: nat) -> char {
    ('0' as nat + n) as char
}

/// The digits that spell `n`, without leading zeros.
pub open spec fn numeral(n: nat) -> Seq<char>
    decreases n,
{
    if n < 10 {
        seq![digit_char(n)]
    } else {
        numeral(n / 10).push(digit_char(n % 10))
    }
}

/// The numeral of `n`, with a minus sign in front where `n` is negative.
pub open spec fn signed_numeral(n: int) -> Seq<char> {
    if n < 0 {
        "-"@ + numeral((-n) as nat)
    } else {
        numeral(n as nat)
    }
}

/// The run of leading digits of a prefix is cut short only where that of the whole text is.
proof fn lemma_leading_digits_of_prefix(text: Seq<char>, at: int)
    requires
        0 <= at <= text.len(),
    ensures
        leading_digits(text.take(at)) <= at,
        leading_digits(text.take(at)) <= leading_digits(text) <= text.len(),
        leading_digits(text.take(at)) < at ==> leading_digits(text) == leading_digits(
            text.take(at),
        ),
    decreases text.len(),
{
    if at == text.len() {
        assert(text.take(at) =~= text);
        if at > 0 {
            lemma_leading_digits_of_prefix(text.drop_last(), at - 1);
        }
    } else {
        let head = text.drop_last();
        lemma_leading_digits_of_prefix(head, at);
        assert(head.take(at) =~= text.take(at));
    }
}

/// More digits never make a smaller number.
proof fn lemma_digits_value_grows(digits: Seq<char>, at: int)
    requires
        0 <= at <= digits.len(),
    ensures
        digits_value(digits.take(at)) <= digits_value(digits),
    decreases digits.len(),
{
    if at == digits.len() {
        assert(digits.take(at) =~= digits);
    } else {
        let head = digits.drop_last();
        lemma_digits_value_grows(head, at);
        assert(head.take(at) =~= digits.take(at));
    }
}

/// Reads an unsigned decimal number that is `max` at most.
pub fn parse_number(text: &str, max: u64) -> (parsed: Result<u64, NumberFault>)
    ensures
        match parsed {
            Ok(value) => number(text@, max as nat) == Ok::<nat, NumberFault>(value as nat),
            Err(fault) => number(text@, max as nat) == Err::<nat, NumberFault>(fault),
        },
{
    let ghost body = after_sign(text@);
    let mut rest = text.chars();
    let mut next = rest.next();
    if next.is_none() {
        return Err(NumberFault::Empty);
    }
    if next == Some('+') {
        next = rest.next();
    }
    if next.is_none() {
        return Err(NumberFault::InvalidDigit);
    }
    let mut value: u64 = 0;
    let ghost mut at: int = 0;
    loop
        invariant
            body == after_sign(text@),
            text@.len() > 0,
            body.len() > 0,
            0 <= at <= body.len(),
            rest.obeys_prophetic_iter_laws(),
            at < body.len() ==> next == Some(body[at]) && rest.remaining() == body.skip(at + 1),
            at == body.len() ==> next is None,
            leading_digits(body.take(at)) == at,
            digits_value(body.take(at)) == value,
            value <= max,
        decreases body.len() - at,
    {
        match next {
            None => {
                assert(body.take(at) =~= body);
                return Ok(value);
            },
            Some(c) => {
                proof {
                    assert(body.take(at + 1).drop_last() =~= body.take(at));
                    lemma_leading_digits_of_prefix(body, at + 1);
                }
                if c < '0' || '9' < c {
                    return Err(NumberFault::InvalidDigit);
                }
                let digit: u64 = c as u64 - '0' as u64;
                if digit > max || value > (max - digit) / 10 {
                    proof {
                        let run = body.take(leading_digits(body) as int);
                        lemma_digits_value_grows(run, at + 1);
                        assert(run.take(at + 1) =~= body.take(at + 1));
                    }
                    return Err(NumberFault::TooLarge);
                }
                value = value * 10 + digit;
                next = rest.next();
                proof {
                    at = at + 1;
                }
            },
        }
    }
}

/// The text of one decimal digit.
fn digit_text(digit: u64) -> (text: &'static str)
    requires
        digit < 10,
    ensures
        text@ == seq![digit_char(digit as nat)],
{
    proof {
        reveal_strlit("0");
        reveal_strlit("1");
        reveal_strlit("2");
        reveal_strlit("3");
        reveal_strlit("4");
        reveal_strlit("5");
        reveal_strlit("6");
        reveal_strlit("7");
        reveal_strlit("8");
        reveal_strlit("9");
    }
    if digit == 0 {
        "0"
    } else if digit == 1 {
        "1"
    } else if digit == 2 {
        "2"
    } else if digit == 3 {
        "3"
    } else if digit == 4 {
        "4"
    } else if digit == 5 {
        "5"
    } else if digit == 6 {
        "6"
    } else if digit == 7 {
        "7"
    } else if digit == 8 {
        "8"
    } else {
        "9"
    }
}

/// Spells a number in decimal digits.
pub fn number_text(n: u64) -> (text: String)
    ensures
        text@ == numeral(n as nat),
    decreases n,
{
    if n < 10 {
        digit_text(n).to_owned()
    } else {
        let mut text = number_text(n / 10);
        text.append(digit_text(n % 10));
        text
    }
}

/// Spells a signed number in decimal digits.
pub fn integer_text(n: i32) -> (text: String)
    ensures
        text@ == signed_numeral(n as int),
{
    if n < 0 {
        let mut text = "-".to_owned();
        let magnitude = number_text((-(n as i64)) as u64);
        text.append(magnitude.as_str());
        text
    } else {
        number_text(n as u64)
    }
}

/// A numeral is made of digits alone and spells the number it was made from.
proof fn lemma_numeral(n: nat)
    ensures
        numeral(n).len() >= 1,
        leading_digits(numeral(n)) == numeral(n).len(),
        digits_value(numeral(n)) == n,
        is_digit(numeral(n)[0]),
    decreases n,
{
    if n < 10 {
        let text = numeral(n);
        assert(text.drop_last() =~= Seq::<char>::empty());
        assert(digits_value(text.drop_last()) == 0);
        assert(leading_digits(text.drop_last()) == 0);
    } else {
        lemma_numeral(n / 10);
        assert(numeral(n).drop_last() =~= numeral(n / 10));
    }
}

/// Reading a numeral gives the number back exactly when it is within the limit; a larger
/// one is refused as too large.
pub proof fn law_number_reads_numeral(n: nat, max: nat)
    ensures
        n <= max ==> number(numeral(n), max) == Ok::<nat, NumberFault>(n),
        n > max ==> number(numeral(n), max) == Err::<nat, NumberFault>(NumberFault::TooLarge),
{
    lemma_numeral(n);
    let text = numeral(n);
    assert(after_sign(text) =~= text);
    assert(text.take(text.len() as int) =~= text);
}

/// A text is accepted exactly when, past an optional plus sign, it is a nonempty run of
/// digits whose value is within the limit; it then stands for that value.
pub proof fn law_number_accepts_digits_in_range(text: Seq<char>, max: nat)
    ensures
        number(text, max) is Ok <==> {
            let body = after_sign(text);
            &&& body.len() > 0
            &&& forall|i: int| 0 <= i < body.len() ==> is_digit(#[trigger] body[i])
            &&& digits_value(body) <= max
        },
        number(text, max) is Ok ==> number(text, max)->Ok_0 == digits_value(after_sign(text)),
{
    let body = after_sign(text);
    lemma_leading_digits_mean_all(body);
    lemma_leading_digits_of_prefix(body, 0);
    assert(body.take(body.len() as int) =~= body);
}

/// A text is all digits exactly when its leading run reaches its end.
proof fn lemma_leading_digits_mean_all(text: Seq<char>)
    ensures
        leading_digits(text) == text.len() <==> forall|i: int|
            0 <= i < text.len() ==> is_digit(#[trigger] text[i]),
        leading_digits(text) <= text.len(),
    decreases text.len(),
{
    if text.len() > 0 {
        let head = text.drop_last();
        lemma_leading_digits_mean_all(head);
        if leading_digits(text) == text.len() {
            assert forall|i: int| 0 <= i < text.len() implies is_digit(#[trigger] text[i]) by {
                if i < head.len() {
                    assert(is_digit(head[i]));
                }
            }
        }
        if forall|i: int| 0 <= i < text.len() ==> is_digit(#[trigger] text[i]) {
            assert forall|i: int| 0 <= i < head.len() implies is_digit(#[trigger] head[i]) by {
                assert(is_digit(text[i]));
            }
            assert(is_digit(text[text.len() - 1]));
        }
    }
}

/// A number is read digit by digit from the left. The first character decides alone, past
/// one plus sign; each further digit multiplies what was read by ten and adds itself; and
/// the first fault stays the fault, however the text goes on.
pub proof fn law_number_is_read_from_the_left(text: Seq<char>, c: char, max: nat)
    ensures
        number(Seq::<char>::empty(), max) == Err::<nat, NumberFault>(NumberFault::Empty),
        number(seq!['+'], max) == Err::<nat, NumberFault>(NumberFault::InvalidDigit),
        ({
            let first = if c < '0' || '9' < c {
                Err::<nat, NumberFault>(NumberFault::InvalidDigit)
            } else if c as nat - 48 > max {
                Err(NumberFault::TooLarge)
            } else {
                Ok((c as nat - 48) as nat)
            };
            &&& number(seq![c], max) == first
            &&& number(seq!['+', c], max) == first
        }),
        number(text, max) matches Ok(value) ==> number(text.push(c), max) == (if c < '0' || '9'
            < c {
            Err::<nat, NumberFault>(NumberFault::InvalidDigit)
        } else if value * 10 + (c as nat - 48) > max {
            Err(NumberFault::TooLarge)
        } else {
            Ok((value * 10 + (c as nat - 48)) as nat)
        }),
        number(text, max) is Err && text.len() > 0 && text != seq!['+'] ==> number(
            text.push(c),
            max,
        ) == number(text, max),
{
    lemma_one_character(c);
    assert(seq!['+'].skip(1) =~= Seq::<char>::empty());
    assert(seq!['+', c].skip(1) =~= seq![c]);
    assert(seq![c].take(1) =~= seq![c]);
    assert(seq![c].drop_last() =~= Seq::<char>::empty());
    if text.len() > 0 {
        let body = after_sign(text);
        let longer = body.push(c);
        assert(text.push(c).skip(1) =~= text.skip(1).push(c));
        assert(after_sign(text.push(c)) == longer);
        assert(longer.drop_last() =~= body);
        lemma_leading_digits_mean_all(body);
        lemma_leading_digits_mean_all(longer);
        assert(body.take(body.len() as int) =~= body);
        assert(longer.take(longer.len() as int) =~= longer);
        assert(longer.take(leading_digits(body) as int) =~= body.take(leading_digits(body) as int));
        if number(text, max) == Err::<nat, NumberFault>(NumberFault::TooLarge) {
            lemma_digits_value_grows(longer, leading_digits(body) as int);
        }
        if body.len() == 0 {
            assert(text =~= seq!['+']);
        }
    }
}

/// What the readings of a text of one character come to.
proof fn lemma_one_character(c: char)
    ensures
        leading_digits(seq![c]) == if is_digit(c) {
            1nat
        } else {
            0nat
        },
        digits_value(seq![c]) == digit_value(c),
        digits_value(Seq::<char>::empty()) == 0,
        leading_digits(Seq::<char>::empty()) == 0,
{
    reveal_with_fuel(leading_digits, 2);
    reveal_with_fuel(digits_value, 2);
    assert(seq![c].drop_last() =~= Seq::<char>::empty());
}

/// A numeral is the one of the number's tens followed by the digit of its ones, and a number
/// below ten is one digit.
pub proof fn law_numeral_is_made_of_digits(tens: nat, ones: nat)
    requires
        ones < 10,
    ensures
        numeral(ones).len() == 1,
        numeral(ones)[0] as nat == 48 + ones,
        tens > 0 ==> numeral(tens * 10 + ones) == numeral(tens) + numeral(ones),
{
    if tens > 0 {
        let n = tens * 10 + ones;
        assert(n / 10 == tens && n % 10 == ones);
        assert(numeral(n) =~= numeral(tens) + numeral(ones));
    }
}

/// Only a negative number has a sign, and it is followed by the numeral without it.
pub proof fn law_negative_numbers_have_a_sign(n: nat)
    ensures
        signed_numeral(n as int) == numeral(n),
        n > 0 ==> signed_numeral(-n) == seq!['-'] + numeral(n),
{
    reveal_strlit("-");
    assert("-"@ =~= seq!['-']);
}

/// The messages of the faults.
pub proof fn law_fault_messages(fault: NumberFault, text: &'static str)
    requires
        call_ensures(NumberFault::message, (fault,), text),
    ensures
        fault is Empty ==> text@ == "cannot parse integer from empty string"@,
        fault is InvalidDigit ==> text@ == "invalid digit found in string"@,
        fault is TooLarge ==> text@ == "number too large to fit in target type"@,
{
}

} // verus!
