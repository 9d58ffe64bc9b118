//! The canonical text of a term, and the decimal text of an integer.

use vstd::prelude::*;
use crate::term::Term;

verus! {

/// The character of the decimal digit `d`, for `0 <= d <= 9`.
pub open spec fn digit(d: int) -> char
    recommends
        0 <= d <= 9,
{
    "0123456789"@[d]
}

/// The decimal digits of `n`, most significant first, without leading
/// zeros; zero is the single digit `0`.
pub open spec fn digits(n: nat) -> Seq<char>
    decreases n,
{
    if n < 10 {
        seq![digit(n as int)]
    } else {
        digits(n / 10).push(digit((n % 10) as int))
    }
}

/// The decimal text of `v`: a minus sign where `v` is negative, then
/// the digits of its magnitude.
pub open spec fn decimal(v: int) -> Seq<char> {
    if v < 0 {
        seq!['-'] + digits((-v) as nat)
    } else {
        digits(v as nat)
    }
}

/// Whether `c` is one of the ten decimal digits.
pub open spec fn is_digit(c: char) -> bool {
    '0' as int <= c as int <= '9' as int
}

/// The number that a sequence of decimal digits denotes.
pub open spec fn denoted(text: Seq<char>) -> int
    decreases text.len(),
{
    if text.len() == 0 {
        0
    } else {
        denoted(text.drop_last()) * 10 + (text.last() as int - '0' as int)
    }
}

/// The digits of `n` are its decimal numeral: at least one character,
/// each a decimal digit, the first not `0` unless `n` is zero, and
/// together they denote `n`.
pub proof fn lemma_digits_denote(n: nat)
    ensures
        digits(n).len() >= 1,
        forall|i: int| 0 <= i < digits(n).len() ==> is_digit(#[trigger] digits(n)[i]),
        n > 0 ==> digits(n)[0] != '0',
        denoted(digits(n)) == n,
    decreases n,
{
    reveal_strlit("0123456789");
    if n < 10 {
        let text = seq![digit(n as int)];
        assert(text.drop_last().len() == 0);
        assert(denoted(text) == denoted(text.drop_last()) * 10 + (text.last() as int - '0' as int));
    } else {
        let front = digits(n / 10);
        let text = front.push(digit((n % 10) as int));
        lemma_digits_denote(n / 10);
        assert(text.drop_last() =~= front);
        assert(text[0] == front[0]);
    }
}

impl Term {
    /// The canonical text of the term. Operands are rendered first and
    /// then joined by the syntax of the construct around them; nothing
    /// is parenthesised beyond what that syntax holds.
    pub open spec fn rendering(self) -> Seq<char>
        decreases self,
    {
        match self {
            Term::Number(v) => decimal(v),
            Term::Add(l, r) => l.rendering() + " + "@ + r.rendering(),
            Term::Multiply(l, r) => l.rendering() + " * "@ + r.rendering(),
            Term::Boolean(b) => if b {
                "true"@
            } else {
                "false"@
            },
            Term::LessThan(l, r) => l.rendering() + " < "@ + r.rendering(),
            Term::Variable(name) => name,
            Term::DoNothing => "do-nothing"@,
            Term::Assign(name, e) => name + " = "@ + e.rendering(),
            Term::If(c, t, e) => "if ("@ + c.rendering() + ") "@ + t.rendering() + " else "@
                + e.rendering(),
            Term::Sequence(first, second) => first.rendering() + "; "@ + second.rendering(),
            Term::While(c, body) => "while ("@ + c.rendering() + ") "@ + body.rendering(),
        }
    }
}

/// The text of one decimal digit.
fn digit_text(d: u64) -> (text: &'static str)
    requires
        d <= 9,
    ensures
        text@ == seq![digit(d as int)],
{
    proof {
        reveal_strlit("0123456789");
        reveal_strlit("0");
        reveal_strlit("1");
        reveal_strlit("2");
        reveal_strlit("3");
        reveal_strlit("4");
        reveal_strlit("5");
        reveal_strlit("6");
        reveal_strlit("7");
        reveal_strlit("8");
        reveal_strlit("9");
    }
    let text = if d == 0 {
        "0"
    } else if d == 1 {
        "1"
    } else if d == 2 {
        "2"
    } else if d == 3 {
        "3"
    } else if d == 4 {
        "4"
    } else if d == 5 {
        "5"
    } else if d == 6 {
        "6"
    } else if d == 7 {
        "7"
    } else if d == 8 {
        "8"
    } else {
        "9"
    };
    assert(text@ =~= seq![digit(d as int)]);
    text
}

/// The decimal digits of `n` as a string.
fn digits_string(n: u64) -> (text: String)
    ensures
        text@ == digits(n as nat),
    decreases n,
{
    if n < 10 {
        String::from_str(digit_text(n))
    } else {
        let mut text = digits_string(n / 10);
        text.append(digit_text(n % 10));
        assert(text@ =~= digits((n / 10) as nat).push(digit((n % 10) as int)));
        text
    }
}

/// The decimal text of `v` as a string.
pub fn decimal_string(v: i64) -> (text: String)
    ensures
        text@ == decimal(v as int),
{
    if v < 0 {
        let magnitude: u64 = (-(v + 1)) as u64 + 1;
        proof {
            reveal_strlit("-");
        }
        let text = String::from_str("-").concat(digits_string(magnitude).as_str());
        assert(text@ =~= seq!['-'] + digits((-v) as nat));
        text
    } else {
        digits_string(v as u64)
    }
}

} // verus!
