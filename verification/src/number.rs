use vstd::prelude::*;
use vstd::string::*;
use crate::text::{is_digit, char_is_digit};

verus! {

/// How many decimal digits stand in `s` from position `from` on, without a gap.
pub open spec fn digit_run(s: Seq<char>, from: int) -> nat
    decreases s.len() - from,
{
    if 0 <= from < s.len() && is_digit(s[from]) {
        1 + digit_run(s, from + 1)
    } else {
        0
    }
}

/// The lower-case form of an ASCII letter; any other character is itself.
pub open spec fn lower_ascii(c: char) -> char {
    if 'A' <= c && c <= 'Z' {
        ((c as u8) + 32) as char
    } else {
        c
    }
}

/// Whether the characters of `s` from `from` on spell `word`, whatever their case.
pub open spec fn spells(s: Seq<char>, from: int, word: Seq<char>) -> bool {
    &&& s.len() - from == word.len()
    &&& forall|i: int| 0 <= i < word.len() ==> lower_ascii(#[trigger] s[from + i]) == word[i]
}

/// Whether `s`, from `from` on, is one of the words for a value that is no number:
/// `inf`, `infinity` or `nan`.
pub open spec fn is_special(s: Seq<char>, from: int) -> bool {
    ||| spells(s, from, seq!['i', 'n', 'f'])
    ||| spells(s, from, seq!['i', 'n', 'f', 'i', 'n', 'i', 't', 'y'])
    ||| spells(s, from, seq!['n', 'a', 'n'])
}

/// Whether `s`, from `from` on, is an exponent: `e` or `E`, an optional sign, and
/// one digit or more up to the end.
pub open spec fn is_exponent(s: Seq<char>, from: int) -> bool {
    let digits = if from + 1 < s.len() && (s[from + 1] == '+' || s[from + 1] == '-') {
        from + 2
    } else {
        from + 1
    };
    &&& from < s.len()
    &&& (s[from] == 'e' || s[from] == 'E')
    &&& digits < s.len()
    &&& digits + digit_run(s, digits) == s.len()
}

/// Whether `s`, from `from` on, is a number: digits with at most one point among
/// them, at least one digit before or after it, and an optional exponent.
pub open spec fn is_number(s: Seq<char>, from: int) -> bool {
    let whole = digit_run(s, from);
    let point = from + whole;
    let pointed = point < s.len() && s[point] == '.';
    let fraction = if pointed {
        digit_run(s, point + 1)
    } else {
        0
    };
    let end = if pointed {
        point + 1 + fraction
    } else {
        point
    };
    &&& whole + fraction >= 1
    &&& (end == s.len() || is_exponent(s, end))
}

/// Whether `s` is a decimal floating-point literal: an optional sign, then a
/// number or one of the words `inf`, `infinity`, `nan`. No space is allowed.
pub open spec fn float_text(s: Seq<char>) -> bool {
    let from: int = if s.len() > 0 && (s[0] == '+' || s[0] == '-') {
        1
    } else {
        0
    };
    is_special(s, from) || is_number(s, from)
}

/// The lower-case form of an ASCII letter.
fn to_lower(c: char) -> (r: char)
    ensures
        r == lower_ascii(c),
{
    if 'A' <= c && c <= 'Z' {
        ((c as u8) + 32) as char
    } else {
        c
    }
}

/// Finds where the run of digits that starts at `from` ends.
fn skip_digits(text: &str, len: usize, from: usize) -> (end: usize)
    requires
        len == text@.len(),
        from <= len,
    ensures
        end == from + digit_run(text@, from as int),
        end <= len,
{
    let mut i: usize = from;
    while i < len
        invariant
            from <= i <= len,
            len == text@.len(),
            digit_run(text@, from as int) == (i - from) + digit_run(text@, i as int),
        decreases len - i,
    {
        let c = text.get_char(i);
        if !char_is_digit(c) {
            return i;
        }
        i += 1;
    }
    i
}

/// Tests whether the characters from `from` on spell `word`, whatever their case.
fn spells_word(text: &str, len: usize, from: usize, word: &str) -> (r: bool)
    requires
        len == text@.len(),
        from <= len,
    ensures
        r == spells(text@, from as int, word@),
{
    let n = word.unicode_len();
    if len - from != n {
        return false;
    }
    let mut i: usize = 0;
    while i < n
        invariant
            0 <= i <= n,
            n == word@.len(),
            len == text@.len(),
            len - from == n,
            forall|j: int| 0 <= j < i ==> lower_ascii(#[trigger] text@[from + j]) == word@[j],
        decreases n - i,
    {
        let c = text.get_char(from + i);
        let w = word.get_char(i);
        if to_lower(c) != w {
            return false;
        }
        i += 1;
    }
    true
}

/// Tests whether the characters from `from` on are an exponent.
fn exponent_at(text: &str, len: usize, from: usize) -> (r: bool)
    requires
        len == text@.len(),
        from <= len,
    ensures
        r == is_exponent(text@, from as int),
{
    if from >= len {
        return false;
    }
    let mark = text.get_char(from);
    if mark != 'e' && mark != 'E' {
        return false;
    }
    let mut digits: usize = from + 1;
    if digits < len {
        let sign = text.get_char(digits);
        if sign == '+' || sign == '-' {
            digits = from + 2;
        }
    }
    if digits >= len {
        return false;
    }
    let end = skip_digits(text, len, digits);
    end == len
}

/// Tests whether the characters from `from` on are a number.
fn number_at(text: &str, len: usize, from: usize) -> (r: bool)
    requires
        len == text@.len(),
        from <= len,
    ensures
        r == is_number(text@, from as int),
{
    let point = skip_digits(text, len, from);
    let whole = point - from;
    let mut end = point;
    let mut fraction: usize = 0;
    if point < len {
        let c = text.get_char(point);
        if c == '.' {
            end = skip_digits(text, len, point + 1);
            fraction = end - (point + 1);
        }
    }
    if whole == 0 && fraction == 0 {
        return false;
    }
    if end == len {
        return true;
    }
    exponent_at(text, len, end)
}

/// Tests whether `text` is a decimal floating-point literal.
pub fn is_float_text(text: &str) -> (r: bool)
    ensures
        r == float_text(text@),
{
    let len = text.unicode_len();
    let mut from: usize = 0;
    if len > 0 {
        let c = text.get_char(0);
        if c == '+' || c == '-' {
            from = 1;
        }
    }
    proof {
        reveal_strlit("inf");
        reveal_strlit("infinity");
        reveal_strlit("nan");
        assert("inf"@ =~= seq!['i', 'n', 'f']);
        assert("infinity"@ =~= seq!['i', 'n', 'f', 'i', 'n', 'i', 't', 'y']);
        assert("nan"@ =~= seq!['n', 'a', 'n']);
    }
    if spells_word(text, len, from, "inf") {
        return true;
    }
    if spells_word(text, len, from, "infinity") {
        return true;
    }
    if spells_word(text, len, from, "nan") {
        return true;
    }
    number_at(text, len, from)
}

/// A decimal number, kept as the text that denotes it.
#[derive(Debug, PartialEq, Eq)]
pub struct Decimal {
    pub text: String,
}

impl View for Decimal {
    type V = Seq<char>;

    open spec fn view(&self) -> Seq<char> {
        self.text@
    }
}

impl Decimal {
    /// The text is a decimal floating-point literal.
    pub open spec fn wf(&self) -> bool {
        float_text(self@)
    }

    /// Takes `text` as a number where it is a decimal floating-point literal.
    pub fn parse(text: &str) -> (r: Option<Decimal>)
        ensures
            r is Some == float_text(text@),
            r matches Some(d) ==> d@ == text@ && d.wf(),
    {
        if is_float_text(text) {
            Some(Decimal { text: String::from_str(text) })
        } else {
            None
        }
    }

    /// The text of the number.
    pub fn as_str(&self) -> (r: &str)
        ensures
            r@ == self@,
    {
        self.text.as_str()
    }
}

} // verus!
