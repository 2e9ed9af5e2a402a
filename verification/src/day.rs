use vstd::prelude::*;
use vstd::string::*;
use crate::bar::{all_wf, bars_from_rows, outcome, row_bar, row_bars, PriceBar, StockData};
use crate::error::Error;
use crate::frequency::{granularity, resolve_granularity, Granularity};
use crate::json::{descend, first_present, json_document, texts, Json};
use crate::text::{decimal, same_text, unsigned_text};
use crate::time::{today, TimeFormat};

verus! {

/// The rows of bars in a document for `code`: the array under the first key of
/// `unit` that the holder of the code has, which stands under `data`.
pub open spec fn day_rows(document: Json, code: Seq<char>, unit: Granularity) -> Option<Seq<Json>> {
    match descend(document, seq!["data"@, code]) {
        Some(holder) => match first_present(holder, unit.keys()) {
            Some(found) => found.items(),
            None => None,
        },
        None => None,
    }
}

/// Finds the rows of bars in a document.
pub fn find_day_rows<'a>(document: &'a Json, code: &str, unit: Granularity) -> (r: Option<
    &'a Vec<Json>,
>)
    ensures
        match r {
            Some(rows) => day_rows(*document, code@, unit) == Some(rows@),
            None => day_rows(*document, code@, unit) is None,
        },
{
    let path = ["data", code];
    assert(texts(path@) =~= seq!["data"@, code@]);
    let keys = [unit.adjusted_key(), unit.word()];
    assert(texts(keys@) =~= unit.keys());
    match document.follow(path.as_slice()) {
        Some(holder) => match holder.first_of(keys.as_slice()) {
            Some(found) => found.as_array(),
            None => None,
        },
        None => None,
    }
}

/// The bars that a document denotes for `code` and `unit`.
pub open spec fn day_bars(document: Json, code: Seq<char>, unit: Granularity) -> Result<
    Seq<PriceBar>,
    Error,
> {
    match day_rows(document, code, unit) {
        Some(rows) => row_bars(TimeFormat::Day, rows),
        None => Err(Error::MalformedResponse),
    }
}

/// What a response to a request for `code` at `frequency` denotes, given the
/// document that its body is.
pub open spec fn day_response(document: Option<Json>, code: Seq<char>, frequency: Seq<char>)
    -> Result<Seq<PriceBar>, Error> {
    match document {
        Some(d) => day_bars(d, code, granularity(frequency)),
        None => Err(Error::MalformedResponse),
    }
}

/// The end date that a request carries: none where the caller gave none or
/// gave the date of today.
pub open spec fn effective_end(end_date: Option<Seq<char>>, today: Seq<char>) -> Seq<char> {
    match end_date {
        Some(date) => if date == today {
            Seq::<char>::empty()
        } else {
            date
        },
        None => Seq::<char>::empty(),
    }
}

/// The address that serves `count` bars of `unit` for `code`, up to the day
/// `end` or up to the latest bar where `end` is empty, with prices adjusted
/// forward for dividends and splits.
pub open spec fn day_url_text(code: Seq<char>, unit: Granularity, end: Seq<char>, count: nat)
    -> Seq<char> {
    "https://web.ifzq.gtimg.cn/appstock/app/fqkline/get?param="@ + code + ","@ + unit.keyword()
        + ",,"@ + end + ","@ + decimal(count) + ",qfq"@
}

/// The address of a request made on the day `today`.
pub open spec fn day_request(
    code: Seq<char>,
    end_date: Option<Seq<char>>,
    today: Seq<char>,
    count: nat,
    frequency: Seq<char>,
) -> Seq<char> {
    day_url_text(code, granularity(frequency), effective_end(end_date, today), count)
}

/// The characters of a text that may be absent.
pub open spec fn text_view(text: Option<&str>) -> Option<Seq<char>> {
    match text {
        Some(t) => Some(t@),
        None => None,
    }
}

/// An end date equal to the date of today asks for the same as no end date.
pub proof fn lemma_today_is_latest(
    code: Seq<char>,
    today: Seq<char>,
    count: nat,
    frequency: Seq<char>,
)
    ensures
        day_request(code, Some(today), today, count, frequency) == day_request(
            code,
            None,
            today,
            count,
            frequency,
        ),
{
}

/// The bars of a valid response are as many as the rows of its document, each
/// is dated by the day alone, and none has moving averages.
pub proof fn lemma_day_bars_shape(document: Json, code: Seq<char>, unit: Granularity)
    requires
        day_bars(document, code, unit) is Ok,
    ensures
        day_rows(document, code, unit) is Some,
        day_bars(document, code, unit)->Ok_0.len() == day_rows(document, code, unit)->0.len(),
        forall|i: int|
            0 <= i < day_bars(document, code, unit)->Ok_0.len() ==> {
                let bar = #[trigger] day_bars(document, code, unit)->Ok_0[i];
                bar.time is Date && bar.moving_averages is None
            },
{
    let rows = day_rows(document, code, unit)->0;
    let bars = day_bars(document, code, unit)->Ok_0;
    assert forall|i: int| 0 <= i < bars.len() implies {
        let bar = #[trigger] bars[i];
        bar.time is Date && bar.moving_averages is None
    } by {
        assert(row_bar(TimeFormat::Day, rows[i]) is Ok);
    }
}

/// Reads the bars of a document for `code` and `unit`.
pub fn bars_of_day_document(document: &Json, code: &str, unit: Granularity) -> (r: Result<
    Vec<StockData>,
    Error,
>)
    ensures
        outcome(r) == day_bars(*document, code@, unit),
        r matches Ok(bars) ==> all_wf(bars@),
{
    match find_day_rows(document, code, unit) {
        Some(rows) => bars_from_rows(TimeFormat::Day, rows),
        None => Err(Error::MalformedResponse),
    }
}

/// Reads the bars of days, weeks or months for `code` from the body of a
/// response to a request of `frequency`.
pub fn get_price_day_tx(code: &str, frequency: &str, response: &str) -> (r: Result<
    Vec<StockData>,
    Error,
>)
    ensures
        outcome(r) == day_response(json_document(response@), code@, frequency@),
        json_document(response@) is None ==> r == Err::<Vec<StockData>, Error>(
            Error::MalformedResponse,
        ),
        r matches Ok(bars) ==> all_wf(bars@),
{
    let unit = resolve_granularity(frequency);
    match Json::parse(response) {
        Some(document) => bars_of_day_document(&document, code, unit),
        None => Err(Error::MalformedResponse),
    }
}

/// The address to ask for `count` bars of `code` at `frequency` on the day
/// `today`, up to `end_date` where one is given.
pub fn day_url_on(code: &str, end_date: Option<&str>, today: &str, count: usize, frequency: &str)
    -> (r: String)
    ensures
        r@ == day_request(code@, text_view(end_date), today@, count as nat, frequency@),
{
    let unit = resolve_granularity(frequency);
    let end = match end_date {
        Some(date) => if same_text(date, today) {
            ""
        } else {
            date
        },
        None => "",
    };
    proof {
        reveal_strlit("");
        assert(""@ =~= Seq::<char>::empty());
    }
    let mut r = String::from_str("https://web.ifzq.gtimg.cn/appstock/app/fqkline/get?param=");
    r.append(code);
    r.append(",");
    r.append(unit.word());
    r.append(",,");
    r.append(end);
    r.append(",");
    r.append(unsigned_text(count as u64).as_str());
    r.append(",qfq");
    r
}

/// The address to ask now for `count` bars of `code` at `frequency`, up to
/// `end_date` where one is given. The date of today comes from the clock.
pub fn day_url(code: &str, end_date: Option<&str>, count: usize, frequency: &str) -> (r: String)
    ensures
        exists|today: Seq<char>|
            r@ == #[trigger] day_request(
                code@,
                text_view(end_date),
                today,
                count as nat,
                frequency@,
            ),
        end_date is None ==> r@ == day_url_text(
            code@,
            granularity(frequency@),
            Seq::<char>::empty(),
            count as nat,
        ),
{
    let now = today();
    day_url_on(code, end_date, now.as_str(), count, frequency)
}

} // verus!
