use vstd::prelude::*;
use vstd::string::*;
use crate::text::{
    all_digits, digits_value, is_digit, numeral, parse_numeral, parse_signed_numeral, same_text,
    signed_numeral, without_last,
};

verus! {

/// The length of the bars of the endpoint that serves days, weeks and months.
#[derive(Clone, Copy, Debug, PartialEq, Eq, Structural)]
pub enum Granularity {
    Day,
    Week,
    Month,
}

impl Granularity {
    /// The word by which the endpoint knows this length.
    pub open spec fn keyword(self) -> Seq<char> {
        match self {
            Granularity::Day => "day"@,
            Granularity::Week => "week"@,
            Granularity::Month => "month"@,
        }
    }

    /// The keys under which a response may hold the bars, in the order in which
    /// they are tried: that of the prices adjusted for dividends and splits,
    /// then the plain one.
    pub open spec fn keys(self) -> Seq<Seq<char>> {
        match self {
            Granularity::Day => seq!["qfqday"@, "day"@],
            Granularity::Week => seq!["qfqweek"@, "week"@],
            Granularity::Month => seq!["qfqmonth"@, "month"@],
        }
    }

    /// The word by which the endpoint knows this length.
    pub fn word(self) -> (r: &'static str)
        ensures
            r@ == self.keyword(),
            r@ == self.keys()[1],
    {
        match self {
            Granularity::Day => "day",
            Granularity::Week => "week",
            Granularity::Month => "month",
        }
    }

    /// The key of the bars with adjusted prices.
    pub fn adjusted_key(self) -> (r: &'static str)
        ensures
            r@ == self.keys()[0],
    {
        match self {
            Granularity::Day => "qfqday",
            Granularity::Week => "qfqweek",
            Granularity::Month => "qfqmonth",
        }
    }
}

/// The length of bar that a frequency asks for: a week for `1w`, a month for
/// `1M`, a day for anything else.
pub open spec fn granularity(frequency: Seq<char>) -> Granularity {
    if frequency == "1w"@ {
        Granularity::Week
    } else if frequency == "1M"@ {
        Granularity::Month
    } else {
        Granularity::Day
    }
}

/// The text before the unit, which is the last character of a frequency.
pub open spec fn count_part(frequency: Seq<char>) -> Seq<char> {
    if frequency.len() == 0 {
        frequency
    } else {
        frequency.drop_last()
    }
}

/// How many minutes a bar of the minute endpoint spans: the numeral before the
/// unit; 1 where there is no numeral there or where it does not fit in 64 bits.
pub open spec fn minute_multiplier(frequency: Seq<char>) -> nat {
    match numeral(count_part(frequency), 0xffff_ffff_ffff_ffff) {
        Some(n) => n,
        None => 1,
    }
}

/// How many minutes a bar of the endpoint with moving averages spans: 240 for
/// `1d`, 1200 for `1w`, 7200 for `1M`; else the numeral before the unit, which
/// may have a sign; 240 where there is no numeral there or where it does not
/// fit in 64 bits with a sign.
pub open spec fn scale(frequency: Seq<char>) -> int {
    if frequency == "1d"@ {
        240
    } else if frequency == "1w"@ {
        1200
    } else if frequency == "1M"@ {
        7200
    } else {
        match signed_numeral(count_part(frequency)) {
            Some(n) => n,
            None => 240,
        }
    }
}

/// Whether bars of this many minutes are dated by the day alone: those of 240
/// minutes or more.
pub open spec fn daily(scale: int) -> bool {
    scale > 239
}

/// Finds the length of bar that a frequency asks for.
pub fn resolve_granularity(frequency: &str) -> (r: Granularity)
    ensures
        r == granularity(frequency@),
{
    if same_text(frequency, "1w") {
        Granularity::Week
    } else if same_text(frequency, "1M") {
        Granularity::Month
    } else {
        Granularity::Day
    }
}

/// Finds how many minutes a bar of the minute endpoint spans.
pub fn resolve_multiplier(frequency: &str) -> (r: u64)
    ensures
        r == minute_multiplier(frequency@),
{
    match parse_numeral(without_last(frequency), 0xffff_ffff_ffff_ffff) {
        Some(n) => n,
        None => 1,
    }
}

/// Finds how many minutes a bar of the endpoint with moving averages spans.
pub fn resolve_scale(frequency: &str) -> (r: i64)
    ensures
        r == scale(frequency@),
{
    if same_text(frequency, "1d") {
        240
    } else if same_text(frequency, "1w") {
        1200
    } else if same_text(frequency, "1M") {
        7200
    } else {
        match parse_signed_numeral(without_last(frequency)) {
            Some(n) => n,
            None => 240,
        }
    }
}

/// The three named frequencies stand for 240, 1200 and 7200 minutes.
pub proof fn lemma_scale_named()
    ensures
        scale("1d"@) == 240,
        scale("1w"@) == 1200,
        scale("1M"@) == 7200,
{
    reveal_strlit("1d");
    reveal_strlit("1w");
    reveal_strlit("1M");
    assert("1w"@[1] == 'w');
    assert("1d"@[1] == 'd');
    assert("1M"@[1] == 'M');
}

/// A numeral followed by the unit `m` stands for the number that it denotes.
pub proof fn lemma_scale_minutes(digits: Seq<char>)
    requires
        digits.len() > 0,
        all_digits(digits),
        digits_value(digits) <= 0x7fff_ffff_ffff_ffff,
    ensures
        scale(digits.push('m')) == digits_value(digits),
{
    let frequency = digits.push('m');
    reveal_strlit("1d");
    reveal_strlit("1w");
    reveal_strlit("1M");
    assert(frequency.last() == 'm');
    assert(frequency.len() == 2 ==> frequency[1] == 'm');
    assert("1w"@[1] == 'w');
    assert("1d"@[1] == 'd');
    assert("1M"@[1] == 'M');
    assert(count_part(frequency) == digits);
    assert(is_digit(digits[0]));
}

/// A frequency other than the three named ones, with no numeral before its
/// unit, stands for 240 minutes.
pub proof fn lemma_scale_fallback(frequency: Seq<char>)
    requires
        frequency != "1d"@,
        frequency != "1w"@,
        frequency != "1M"@,
        signed_numeral(count_part(frequency)) is None,
    ensures
        scale(frequency) == 240,
{
}

/// A numeral followed by the unit `m` asks the minute endpoint for bars of as
/// many minutes as it denotes.
pub proof fn lemma_multiplier_minutes(digits: Seq<char>)
    requires
        digits.len() > 0,
        all_digits(digits),
        digits_value(digits) <= 0xffff_ffff_ffff_ffff,
    ensures
        minute_multiplier(digits.push('m')) == digits_value(digits),
{
    assert(count_part(digits.push('m')) == digits);
}

/// A frequency with no numeral before its unit asks the minute endpoint for
/// bars of one minute.
pub proof fn lemma_multiplier_fallback(frequency: Seq<char>)
    requires
        numeral(count_part(frequency), 0xffff_ffff_ffff_ffff) is None,
    ensures
        minute_multiplier(frequency) == 1,
{
}

} // verus!
