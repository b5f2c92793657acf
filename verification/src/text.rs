//! Text helpers: comparing strings, writing numbers, composing error messages.

use vstd::prelude::*;
use vstd::string::StringExecFns;

verus! {

/// Two texts with the same UTF-8 bytes are the same text.
proof fn lemma_encoding_is_injective(a: Seq<char>, b: Seq<char>)
    requires
        vstd::utf8::encode_utf8(a) == vstd::utf8::encode_utf8(b),
    ensures
        a == b,
{
    vstd::utf8::encode_utf8_decode_utf8(a);
    vstd::utf8::encode_utf8_decode_utf8(b);
}

/// Whether two string slices hold the same text.
pub(crate) fn same_text(a: &str, b: &str) -> (same: bool)
    ensures
        same == (a@ == b@),
{
    let left = a.as_bytes();
    let right = b.as_bytes();
    if left.len() != right.len() {
        return false;
    }
    let mut i: usize = 0;
    while i < left.len()
        invariant
            i <= left@.len(),
            left@.len() == right@.len(),
            left@ == vstd::utf8::encode_utf8(a@),
            right@ == vstd::utf8::encode_utf8(b@),
            forall|j: int| 0 <= j < i ==> left@[j] == right@[j],
        decreases left@.len() - i,
    {
        if left[i] != right[i] {
            return false;
        }
        i += 1;
    }
    proof {
        assert(left@ =~= right@);
        lemma_encoding_is_injective(a@, b@);
    }
    true
}

/// The decimal digits of `n`.
pub open spec fn decimal(n: nat) -> Seq<char>
    decreases n,
{
    if n < 10 {
        seq![(('0' as u32) + n) as char]
    } else {
        decimal(n / 10) + seq![(('0' as u32) + n % 10) as char]
    }
}

fn digit(n: usize) -> (text: String)
    requires
        n < 10,
    ensures
        text@ == seq![(('0' as u32) + n) as char],
{
    proof {
        reveal_strlit("0");
        reveal_strlit("1");
        reveal_strlit("2");
        reveal_strlit("3");
        reveal_strlit("4");
        reveal_strlit("5");
        reveal_strlit("6");
        reveal_strlit("7");
        reveal_strlit("8");
        reveal_strlit("9");
    }
    let digit = match n {
        0 => "0",
        1 => "1",
        2 => "2",
        3 => "3",
        4 => "4",
        5 => "5",
        6 => "6",
        7 => "7",
        8 => "8",
        _ => "9",
    };
    assert(digit@ =~= seq![(('0' as u32) + n) as char]);
    digit.to_string()
}

/// Writes `n` in decimal.
pub(crate) fn decimal_text(n: usize) -> (text: String)
    ensures
        text@ == decimal(n as nat),
    decreases n,
{
    if n < 10 {
        digit(n)
    } else {
        let mut text = decimal_text(n / 10);
        let last = digit(n % 10);
        text.append(last.as_str());
        text
    }
}

/// `context`, a colon, a blank and `error`.
pub open spec fn message(context: Seq<char>, error: Seq<char>) -> Seq<char> {
    context + ": "@ + error
}

/// Composes the message for a failure of what `context` describes.
pub fn failure_message(context: &str, error: &str) -> (text: String)
    ensures
        text@ == message(context@, error@),
{
    joined(context, ": ", error)
}

/// The two texts one after the other.
pub(crate) fn followed(first: &str, second: &str) -> (text: String)
    ensures
        text@ == first@ + second@,
{
    let mut text = first.to_string();
    text.append(second);
    text
}

/// The three texts one after the other.
pub(crate) fn joined(first: &str, second: &str, third: &str) -> (text: String)
    ensures
        text@ == first@ + second@ + third@,
{
    let mut text = first.to_string();
    text.append(second);
    text.append(third);
    text
}

/// The number that a row of decimal digits stands for.
pub open spec fn digits_value(text: Seq<char>) -> int
    decreases text.len(),
{
    if text.len() == 0 {
        0
    } else {
        10 * digits_value(text.drop_last()) + (text.last() as int - '0' as int)
    }
}

/// What is written for a number is made of digits, stands for the number, and begins with a zero
/// only if it is one; so different numbers are written differently.
pub proof fn law_decimal_stands_for_its_number(n: nat)
    ensures
        digits_value(decimal(n)) == n,
        decimal(n).len() > 0,
        forall|i: int|
            0 <= i < decimal(n).len() ==> '0' as int <= #[trigger] decimal(n)[i] as int
                <= '9' as int,
        decimal(n)[0] == '0' ==> n == 0,
        n < 10 ==> decimal(n).len() == 1,
    decreases n,
{
    if n < 10 {
        let text = decimal(n);
        assert(text.drop_last() =~= Seq::<char>::empty());
        assert(digits_value(text.drop_last()) == 0);
    } else {
        law_decimal_stands_for_its_number(n / 10);
        let text = decimal(n);
        assert(text.drop_last() =~= decimal(n / 10));
        assert(forall|i: int| 0 <= i < text.len() - 1 ==> text[i] == decimal(n / 10)[i]);
    }
}

/// The message for a failure is what failed, a colon, a blank, and why, and nothing else.
pub proof fn law_message_tells_what_and_why(context: Seq<char>, error: Seq<char>)
    ensures
        message(context, error).len() == context.len() + 2 + error.len(),
        message(context, error).take(context.len() as int) == context,
        message(context, error)[context.len() as int] == ':',
        message(context, error)[context.len() as int + 1] == ' ',
        message(context, error).skip(context.len() as int + 2) == error,
{
    reveal_strlit(": ");
    let text = message(context, error);
    assert(text.take(context.len() as int) =~= context);
    assert(text.skip(context.len() as int + 2) =~= error);
}

} // verus!
