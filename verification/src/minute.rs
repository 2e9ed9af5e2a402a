use vstd::prelude::*;
use vstd::string::*;
use crate::bar::{
    all_wf, bars_from_rows, outcome, patch_last_close, patched, row_bars, PriceBar, StockData,
};
use crate::error::Error;
use crate::frequency::{minute_multiplier, resolve_multiplier};
use crate::json::{descend, json_document, texts, Json};
use crate::number::{float_text, Decimal};
use crate::text::{decimal, unsigned_text};
use crate::time::TimeFormat;

verus! {

/// The key under which a response holds the bars of `multiplier` minutes.
pub open spec fn minute_key(multiplier: nat) -> Seq<char> {
    "m"@ + decimal(multiplier)
}

/// The address that serves `count` bars of `multiplier` minutes for `code`.
pub open spec fn minute_url_text(code: Seq<char>, multiplier: nat, count: nat) -> Seq<char> {
    "https://ifzq.gtimg.cn/appstock/app/kline/mkline?param="@ + code + ",m"@ + decimal(multiplier)
        + ",,"@ + decimal(count)
}

/// The rows of bars in a document for `code`: the array under the key of the
/// multiplier, in the holder of the code, which stands under `data`.
pub open spec fn minute_rows(document: Json, code: Seq<char>, multiplier: nat) -> Option<
    Seq<Json>,
> {
    match descend(document, seq!["data"@, code, minute_key(multiplier)]) {
        Some(found) => found.items(),
        None => None,
    }
}

/// The live quote of the closing price in a document for `code`: the number at
/// position 3 of what stands under `data`, the code, `qt` and the code again,
/// where there is a decimal number.
pub open spec fn live_quote(document: Json, code: Seq<char>) -> Option<Seq<char>> {
    match descend(document, seq!["data"@, code, "qt"@, code]) {
        Some(quotes) => match quotes.item(3) {
            Some(field) => match field.number() {
                Some(text) => if float_text(text) {
                    Some(text)
                } else {
                    None
                },
                None => None,
            },
            None => None,
        },
        None => None,
    }
}

/// The bars that a document denotes for `code` and bars of `multiplier`
/// minutes: those of its rows, the last with the live quote as its closing
/// price where the document holds a quote.
pub open spec fn minute_bars(document: Json, code: Seq<char>, multiplier: nat) -> Result<
    Seq<PriceBar>,
    Error,
> {
    match minute_rows(document, code, multiplier) {
        Some(rows) => match row_bars(TimeFormat::Minute, rows) {
            Ok(bars) => Ok(patched(bars, live_quote(document, code))),
            Err(e) => Err(e),
        },
        None => Err(Error::MalformedResponse),
    }
}

/// What a response to a request for `code` at `frequency` denotes, given the
/// document that its body is.
pub open spec fn minute_response(document: Option<Json>, code: Seq<char>, frequency: Seq<char>)
    -> Result<Seq<PriceBar>, Error> {
    match document {
        Some(d) => minute_bars(d, code, minute_multiplier(frequency)),
        None => Err(Error::MalformedResponse),
    }
}

/// With a live quote, the bars of a response are those of its rows but for the
/// closing price of the last, which is the quote; without one they are those
/// of its rows.
pub proof fn lemma_quote_patches_last(bars: Seq<PriceBar>, quote: Option<Seq<char>>)
    ensures
        patched(bars, quote).len() == bars.len(),
        forall|i: int| 0 <= i < bars.len() - 1 ==> #[trigger] patched(bars, quote)[i] == bars[i],
        quote is None ==> patched(bars, quote) == bars,
        bars.len() > 0 && quote is Some ==> {
            let last = patched(bars, quote).last();
            &&& last.close == quote->0
            &&& last.time == bars.last().time
            &&& last.open == bars.last().open
            &&& last.high == bars.last().high
            &&& last.low == bars.last().low
            &&& last.volume == bars.last().volume
            &&& last.moving_averages == bars.last().moving_averages
        },
{
}

/// The address to ask for `count` bars of `code` at `frequency`.
pub fn minute_url(code: &str, count: usize, frequency: &str) -> (r: String)
    ensures
        r@ == minute_url_text(code@, minute_multiplier(frequency@), count as nat),
{
    let multiplier = resolve_multiplier(frequency);
    let mut r = String::from_str("https://ifzq.gtimg.cn/appstock/app/kline/mkline?param=");
    r.append(code);
    r.append(",m");
    r.append(unsigned_text(multiplier).as_str());
    r.append(",,");
    r.append(unsigned_text(count as u64).as_str());
    r
}

/// Finds the live quote of the closing price in a document.
pub fn find_live_quote(document: &Json, code: &str) -> (r: Option<Decimal>)
    ensures
        match r {
            Some(q) => live_quote(*document, code@) == Some(q@) && q.wf(),
            None => live_quote(*document, code@) is None,
        },
{
    let path = ["data", code, "qt", code];
    assert(texts(path@) =~= seq!["data"@, code@, "qt"@, code@]);
    match document.follow(path.as_slice()) {
        Some(quotes) => match quotes.at(3) {
            Some(field) => match field.as_number() {
                Some(text) => Decimal::parse(text),
                None => None,
            },
            None => None,
        },
        None => None,
    }
}

/// Finds the rows of bars in a document.
pub fn find_minute_rows<'a>(document: &'a Json, code: &str, multiplier: u64) -> (r: Option<
    &'a Vec<Json>,
>)
    ensures
        match r {
            Some(rows) => minute_rows(*document, code@, multiplier as nat) == Some(rows@),
            None => minute_rows(*document, code@, multiplier as nat) is None,
        },
{
    let mut key = String::from_str("m");
    key.append(unsigned_text(multiplier).as_str());
    let path = ["data", code, key.as_str()];
    assert(texts(path@) =~= seq!["data"@, code@, minute_key(multiplier as nat)]);
    match document.follow(path.as_slice()) {
        Some(found) => found.as_array(),
        None => None,
    }
}

/// Reads the bars of a document for `code` and bars of `multiplier` minutes.
pub fn bars_of_minute_document(document: &Json, code: &str, multiplier: u64) -> (r: Result<
    Vec<StockData>,
    Error,
>)
    ensures
        outcome(r) == minute_bars(*document, code@, multiplier as nat),
        r matches Ok(bars) ==> all_wf(bars@),
{
    let rows = match find_minute_rows(document, code, multiplier) {
        Some(rows) => rows,
        None => return Err(Error::MalformedResponse),
    };
    let mut bars = match bars_from_rows(TimeFormat::Minute, rows) {
        Ok(bars) => bars,
        Err(e) => return Err(e),
    };
    patch_last_close(&mut bars, find_live_quote(document, code));
    Ok(bars)
}

/// Reads the minute bars for `code` from the body of a response to a request
/// of `frequency`.
pub fn get_price_min_tx(code: &str, frequency: &str, response: &str) -> (r: Result<
    Vec<StockData>,
    Error,
>)
    ensures
        outcome(r) == minute_response(json_document(response@), code@, frequency@),
        json_document(response@) is None ==> r == Err::<Vec<StockData>, Error>(
            Error::MalformedResponse,
        ),
        r matches Ok(bars) ==> all_wf(bars@),
{
    let multiplier = resolve_multiplier(frequency);
    match Json::parse(response) {
        Some(document) => bars_of_minute_document(&document, code, multiplier),
        None => Err(Error::MalformedResponse),
    }
}

} // verus!
