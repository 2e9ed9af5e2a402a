use vstd::prelude::*;
use vstd::string::*;
use crate::bar::{
    all_wf, averages_view, bars_view, outcome, plain_bar, MovingAverage, MovingAverageData,
    PriceBar, StockData,
};
use crate::error::Error;
use crate::frequency::{daily, resolve_scale, scale};
use crate::json::{json_document, Json};
use crate::number::{float_text, Decimal};
use crate::text::{decimal, signed_decimal, signed_text, unsigned_text};
use crate::time::{read_time, stamp_time, TimeFormat};

verus! {

/// The periods of a request, written in decimal with commas between them.
pub open spec fn joined(periods: Seq<i32>) -> Seq<char>
    decreases periods.len(),
{
    if periods.len() == 0 {
        Seq::<char>::empty()
    } else if periods.len() == 1 {
        signed_decimal(periods[0] as int)
    } else {
        joined(periods.drop_last()) + seq![','] + signed_decimal(periods.last() as int)
    }
}

/// The address that serves `count` bars of `scale` minutes for `code`, with
/// the moving averages over `periods`.
pub open spec fn sina_url_text(code: Seq<char>, scale: int, periods: Seq<i32>, count: nat) -> Seq<
    char,
> {
    "http://money.finance.sina.com.cn/quotes_service/api/json_v2.php/CN_MarketData.getKLineData?symbol="@
        + code + "&scale="@ + signed_decimal(scale) + "&ma="@ + joined(periods) + "&datalen="@
        + decimal(count)
}

/// The key of the moving average of the closing price over `period` bars.
pub open spec fn price_key(period: int) -> Seq<char> {
    "ma_price"@ + signed_decimal(period)
}

/// The key of the moving average of the volume over `period` bars.
pub open spec fn volume_key(period: int) -> Seq<char> {
    "ma_volume"@ + signed_decimal(period)
}

/// The characters of the string that a record holds under `key`.
pub open spec fn text_of(record: Json, key: Seq<char>) -> Option<Seq<char>> {
    match record.member(key) {
        Some(field) => field.text(),
        None => None,
    }
}

/// The text of the number that a record holds under `key`, where that text is
/// a decimal number.
pub open spec fn number_of(record: Json, key: Seq<char>) -> Option<Seq<char>> {
    match record.member(key) {
        Some(field) => match field.number() {
            Some(text) => if float_text(text) {
                Some(text)
            } else {
                None
            },
            None => None,
        },
        None => None,
    }
}

/// The moving average over `period` bars that a record holds: there is one
/// where the record has a number under the key of the price and a number under
/// the key of the volume.
pub open spec fn average_at(record: Json, period: int) -> Option<MovingAverage> {
    if number_of(record, price_key(period)) is Some && number_of(record, volume_key(period))
        is Some {
        Some(
            MovingAverage {
                name: period,
                value: number_of(record, price_key(period))->0,
                volume: number_of(record, volume_key(period))->0,
            },
        )
    } else {
        None
    }
}

/// The moving averages that a record holds for the periods asked for, in the
/// order of the periods; a period for which the record holds none is left out.
pub open spec fn averages(record: Json, periods: Seq<i32>) -> Seq<MovingAverage>
    decreases periods.len(),
{
    if periods.len() == 0 {
        Seq::<MovingAverage>::empty()
    } else {
        match average_at(record, periods.last() as int) {
            Some(found) => averages(record, periods.drop_last()).push(found),
            None => averages(record, periods.drop_last()),
        }
    }
}

/// A list of moving averages as a bar holds it: no list in place of an empty one.
pub open spec fn listed(found: Seq<MovingAverage>) -> Option<Seq<MovingAverage>> {
    if found.len() == 0 {
        None
    } else {
        Some(found)
    }
}

/// The bar that a record denotes: an object with the time under `day` and the
/// opening and closing price, the highest and the lowest price and the volume
/// under their names, each as a string. The time is a day where `by_day`
/// holds, a day and a time of day else. An error where one of the six is
/// absent or no string, where the time cannot be read, or where one of the
/// others is no decimal number.
pub open spec fn record_bar(by_day: bool, record: Json, periods: Seq<i32>) -> Result<
    PriceBar,
    Error,
> {
    let format = if by_day {
        TimeFormat::Day
    } else {
        TimeFormat::Second
    };
    if text_of(record, "day"@) is Some && text_of(record, "open"@) is Some && text_of(
        record,
        "close"@,
    ) is Some && text_of(record, "high"@) is Some && text_of(record, "low"@) is Some && text_of(
        record,
        "volume"@,
    ) is Some {
        match stamp_time(format, text_of(record, "day"@)->0) {
            Some(time) => match plain_bar(
                time,
                text_of(record, "open"@)->0,
                text_of(record, "close"@)->0,
                text_of(record, "high"@)->0,
                text_of(record, "low"@)->0,
                text_of(record, "volume"@)->0,
            ) {
                Ok(bar) => Ok(
                    PriceBar { moving_averages: listed(averages(record, periods)), ..bar },
                ),
                Err(e) => Err(e),
            },
            None => Err(Error::FieldParse),
        }
    } else {
        Err(Error::FieldParse)
    }
}

/// The bars that a list of records denotes, in the order of the records: an
/// error where any record denotes none.
pub open spec fn record_bars(by_day: bool, records: Seq<Json>, periods: Seq<i32>) -> Result<
    Seq<PriceBar>,
    Error,
> {
    if forall|i: int|
        0 <= i < records.len() ==> (#[trigger] record_bar(by_day, records[i], periods)) is Ok {
        Ok(Seq::new(records.len(), |i: int| record_bar(by_day, records[i], periods)->Ok_0))
    } else {
        Err(Error::FieldParse)
    }
}

/// The bars that a document denotes: it must be an array of records.
pub open spec fn sina_bars(document: Json, scale: int, periods: Seq<i32>) -> Result<
    Seq<PriceBar>,
    Error,
> {
    match document.items() {
        Some(records) => record_bars(daily(scale), records, periods),
        None => Err(Error::MalformedResponse),
    }
}

/// What a response to a request of `frequency` with `periods` denotes, given
/// the document that its body is.
pub open spec fn sina_response(document: Option<Json>, frequency: Seq<char>, periods: Seq<i32>)
    -> Result<Seq<PriceBar>, Error> {
    match document {
        Some(d) => sina_bars(d, scale(frequency), periods),
        None => Err(Error::MalformedResponse),
    }
}

/// Whether a bar holds a moving average over `period` bars.
pub open spec fn holds_period(bar: PriceBar, period: int) -> bool {
    match bar.moving_averages {
        Some(list) => exists|k: int| 0 <= k < list.len() && (#[trigger] list[k]).name == period,
        None => false,
    }
}

/// A moving average over `period` bars is among those found for a record if
/// and only if the period was asked for and the record holds that average.
/// Each average found is the one that the record holds for its period.
pub proof fn lemma_averages_found(record: Json, periods: Seq<i32>, period: int)
    ensures
        (exists|k: int|
            0 <= k < averages(record, periods).len() && (#[trigger] averages(
                record,
                periods,
            )[k]).name == period) <==> ((exists|j: int|
            0 <= j < periods.len() && #[trigger] periods[j] == period) && average_at(
            record,
            period,
        ) is Some),
        forall|k: int|
            0 <= k < averages(record, periods).len() ==> average_at(
                record,
                (#[trigger] averages(record, periods)[k]).name,
            ) == Some(averages(record, periods)[k]),
    decreases periods.len(),
{
    if periods.len() > 0 {
        let front = periods.drop_last();
        let last = periods.last() as int;
        lemma_averages_found(record, front, period);
        let found = averages(record, periods);
        let before = averages(record, front);
        if exists|k: int| 0 <= k < found.len() && (#[trigger] found[k]).name == period {
            let k = choose|k: int| 0 <= k < found.len() && (#[trigger] found[k]).name == period;
            if k < before.len() {
                assert(before[k].name == period);
                let j = choose|j: int| 0 <= j < front.len() && #[trigger] front[j] == period;
                assert(periods[j] == period);
            } else {
                assert(periods[periods.len() - 1] == period);
            }
        }
        if (exists|j: int| 0 <= j < periods.len() && #[trigger] periods[j] == period)
            && average_at(record, period) is Some {
            let j = choose|j: int| 0 <= j < periods.len() && #[trigger] periods[j] == period;
            if j < front.len() {
                assert(front[j] == period);
                let k = choose|k: int|
                    0 <= k < before.len() && (#[trigger] before[k]).name == period;
                assert(found[k].name == period);
            } else {
                assert(found[found.len() - 1].name == period);
            }
        }
    }
}

/// In the bar of a valid record, a period that was asked for has a moving
/// average if and only if the record holds a number under the key of its
/// price and a number under the key of its volume.
pub proof fn lemma_period_listed_iff_present(
    by_day: bool,
    record: Json,
    periods: Seq<i32>,
    period: i32,
)
    requires
        record_bar(by_day, record, periods) is Ok,
        periods.contains(period),
    ensures
        holds_period(record_bar(by_day, record, periods)->Ok_0, period as int) <==> (number_of(
            record,
            price_key(period as int),
        ) is Some && number_of(record, volume_key(period as int)) is Some),
{
    lemma_averages_found(record, periods, period as int);
    let j = choose|j: int| 0 <= j < periods.len() && periods[j] == period;
    assert(periods[j] == period as int);
    let found = averages(record, periods);
    let bar = record_bar(by_day, record, periods)->Ok_0;
    assert(bar.moving_averages == listed(found));
    if holds_period(bar, period as int) {
        let list = bar.moving_averages->0;
        let k = choose|k: int| 0 <= k < list.len() && (#[trigger] list[k]).name == period as int;
        assert(found[k].name == period as int);
    }
    if average_at(record, period as int) is Some {
        let k = choose|k: int|
            0 <= k < found.len() && (#[trigger] found[k]).name == period as int;
        assert(listed(found)->0[k].name == period as int);
    }
}

/// Writes the periods in decimal with commas between them.
pub fn join_periods(periods: &[i32]) -> (r: String)
    ensures
        r@ == joined(periods@),
{
    let mut r = String::new();
    let mut i: usize = 0;
    while i < periods.len()
        invariant
            i <= periods.len(),
            r@ == joined(periods@.take(i as int)),
        decreases periods.len() - i,
    {
        let ghost before = periods@.take(i as int);
        let ghost after = periods@.take(i + 1);
        assert(after.drop_last() == before);
        assert(after.last() == periods@[i as int]);
        if i > 0 {
            proof {
                reveal_strlit(",");
            }
            r.append(",");
        }
        let digits = signed_text(periods[i] as i64);
        r.append(digits.as_str());
        assert(r@ =~= joined(after));
        i += 1;
    }
    assert(periods@.take(i as int) == periods@);
    r
}

/// The address to ask for `count` bars of `code` at `frequency`, with the
/// moving averages over the periods in `mas`.
pub fn sina_url(code: &str, count: usize, frequency: &str, mas: &[i32]) -> (r: String)
    ensures
        r@ == sina_url_text(code@, scale(frequency@), mas@, count as nat),
{
    let minutes = resolve_scale(frequency);
    let mut r = String::from_str(
        "http://money.finance.sina.com.cn/quotes_service/api/json_v2.php/CN_MarketData.getKLineData?symbol=",
    );
    r.append(code);
    r.append("&scale=");
    r.append(signed_text(minutes).as_str());
    r.append("&ma=");
    r.append(join_periods(mas).as_str());
    r.append("&datalen=");
    r.append(unsigned_text(count as u64).as_str());
    r
}

/// The string that a record holds under `key`.
fn record_text<'a>(record: &'a Json, key: &str) -> (r: Option<&'a str>)
    ensures
        match r {
            Some(s) => text_of(*record, key@) == Some(s@),
            None => text_of(*record, key@) is None,
        },
{
    match record.get(key) {
        Some(field) => field.as_str(),
        None => None,
    }
}

/// The number that a record holds under `key`.
fn record_number(record: &Json, key: &str) -> (r: Option<Decimal>)
    ensures
        match r {
            Some(d) => number_of(*record, key@) == Some(d@) && d.wf(),
            None => number_of(*record, key@) is None,
        },
{
    match record.get(key) {
        Some(field) => match field.as_number() {
            Some(text) => Decimal::parse(text),
            None => None,
        },
        None => None,
    }
}

/// The moving average over `period` bars that a record holds, if it holds one.
pub fn moving_average(record: &Json, period: i32) -> (r: Option<MovingAverageData>)
    ensures
        match r {
            Some(found) => average_at(*record, period as int) == Some(found@) && found@.wf(),
            None => average_at(*record, period as int) is None,
        },
{
    let digits = signed_text(period as i64);
    let mut price_key = String::from_str("ma_price");
    price_key.append(digits.as_str());
    let mut volume_key = String::from_str("ma_volume");
    volume_key.append(digits.as_str());
    let value = record_number(record, price_key.as_str());
    let volume = record_number(record, volume_key.as_str());
    match value {
        Some(value) => match volume {
            Some(volume) => Some(MovingAverageData { name: period, value, volume }),
            None => None,
        },
        None => None,
    }
}

/// The moving averages that a record holds for the periods asked for; `None`
/// where it holds none of them.
pub fn moving_averages(record: &Json, periods: &[i32]) -> (r: Option<Vec<MovingAverageData>>)
    ensures
        match r {
            Some(list) => listed(averages(*record, periods@)) == Some(averages_view(list@)),
            None => listed(averages(*record, periods@)) is None,
        },
        r matches Some(list) ==> forall|i: int| 0 <= i < list@.len() ==> (#[trigger] list@[i])@.wf(),
{
    let mut list: Vec<MovingAverageData> = Vec::new();
    let mut i: usize = 0;
    while i < periods.len()
        invariant
            i <= periods.len(),
            averages_view(list@) == averages(*record, periods@.take(i as int)),
            forall|j: int| 0 <= j < list@.len() ==> (#[trigger] list@[j])@.wf(),
        decreases periods.len() - i,
    {
        let ghost before = periods@.take(i as int);
        let ghost after = periods@.take(i + 1);
        assert(after.drop_last() == before);
        assert(after.last() == periods@[i as int]);
        match moving_average(record, periods[i]) {
            Some(found) => {
                list.push(found);
            },
            None => {},
        }
        assert(averages_view(list@) =~= averages(*record, after));
        i += 1;
    }
    assert(periods@.take(i as int) == periods@);
    if list.len() == 0 {
        None
    } else {
        Some(list)
    }
}

impl StockData {
    /// Reads a bar from a record, with the moving averages over `periods`.
    pub fn from_record(by_day: bool, record: &Json, periods: &[i32]) -> (r: Result<
        StockData,
        Error,
    >)
        ensures
            match r {
                Ok(bar) => record_bar(by_day, *record, periods@) == Ok::<PriceBar, Error>(bar@),
                Err(e) => record_bar(by_day, *record, periods@) == Err::<PriceBar, Error>(e),
            },
            r matches Ok(bar) ==> bar@.wf(),
    {
        let format = if by_day {
            TimeFormat::Day
        } else {
            TimeFormat::Second
        };
        let stamp = match record_text(record, "day") {
            Some(s) => s,
            None => return Err(Error::FieldParse),
        };
        let open = match record_text(record, "open") {
            Some(s) => s,
            None => return Err(Error::FieldParse),
        };
        let close = match record_text(record, "close") {
            Some(s) => s,
            None => return Err(Error::FieldParse),
        };
        let high = match record_text(record, "high") {
            Some(s) => s,
            None => return Err(Error::FieldParse),
        };
        let low = match record_text(record, "low") {
            Some(s) => s,
            None => return Err(Error::FieldParse),
        };
        let volume = match record_text(record, "volume") {
            Some(s) => s,
            None => return Err(Error::FieldParse),
        };
        let time = match read_time(format, stamp) {
            Some(t) => t,
            None => return Err(Error::FieldParse),
        };
        match StockData::from_fields(time, open, close, high, low, volume) {
            Ok(bar) => Ok(
                StockData {
                    time: bar.time,
                    open: bar.open,
                    close: bar.close,
                    high: bar.high,
                    low: bar.low,
                    volume: bar.volume,
                    moving_averages: moving_averages(record, periods),
                },
            ),
            Err(e) => Err(e),
        }
    }
}

/// Reads a bar from each record, in order, and stops at the first record that
/// denotes none.
pub fn bars_from_records(by_day: bool, records: &Vec<Json>, periods: &[i32]) -> (r: Result<
    Vec<StockData>,
    Error,
>)
    ensures
        outcome(r) == record_bars(by_day, records@, periods@),
        r matches Ok(bars) ==> bars@.len() == records@.len() && all_wf(bars@),
{
    let mut bars: Vec<StockData> = Vec::new();
    let mut i: usize = 0;
    while i < records.len()
        invariant
            i <= records.len(),
            bars@.len() == i,
            forall|j: int|
                0 <= j < i ==> (#[trigger] record_bar(by_day, records@[j], periods@)) is Ok,
            forall|j: int|
                0 <= j < i ==> (#[trigger] bars@[j])@ == record_bar(
                    by_day,
                    records@[j],
                    periods@,
                )->Ok_0,
            all_wf(bars@),
        decreases records.len() - i,
    {
        match StockData::from_record(by_day, &records[i], periods) {
            Ok(bar) => {
                bars.push(bar);
            },
            Err(e) => {
                assert(!(record_bar(by_day, records@[i as int], periods@) is Ok));
                return Err(e);
            },
        }
        i += 1;
    }
    assert(bars_view(bars@) =~= record_bars(by_day, records@, periods@)->Ok_0);
    Ok(bars)
}

/// Reads the bars of a document that answers a request for bars of `minutes`
/// minutes with the moving averages over `periods`.
pub fn bars_of_document(document: &Json, minutes: i64, periods: &[i32]) -> (r: Result<
    Vec<StockData>,
    Error,
>)
    ensures
        outcome(r) == sina_bars(*document, minutes as int, periods@),
        r matches Ok(bars) ==> all_wf(bars@),
{
    match document.as_array() {
        Some(records) => bars_from_records(minutes > 239, records, periods),
        None => Err(Error::MalformedResponse),
    }
}

/// Reads the bars with moving averages from the body of a response to a
/// request of `frequency` with the periods in `mas`.
pub fn get_price_sina(frequency: &str, mas: &[i32], response: &str) -> (r: Result<
    Vec<StockData>,
    Error,
>)
    ensures
        outcome(r) == sina_response(json_document(response@), frequency@, mas@),
        json_document(response@) is None ==> r == Err::<Vec<StockData>, Error>(
            Error::MalformedResponse,
        ),
        r matches Ok(bars) ==> all_wf(bars@),
{
    let minutes = resolve_scale(frequency);
    match Json::parse(response) {
        Some(document) => bars_of_document(&document, minutes, mas),
        None => Err(Error::MalformedResponse),
    }
}

} // verus!
