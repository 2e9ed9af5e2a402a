use vstd::prelude::*;
use crate::error::Error;
use crate::json::Json;
use crate::number::{float_text, Decimal};
use crate::time::{read_time, stamp_time, StockTime, TimeFormat};

verus! {

/// A moving average over a number of bars: of the closing price and of the volume.
#[derive(Debug, PartialEq, Eq)]
pub struct MovingAverageData {
    /// Over how many bars the average runs.
    pub name: i32,
    /// The average of the closing price.
    pub value: Decimal,
    /// The average of the volume.
    pub volume: Decimal,
}

/// A price bar: the prices and the volume of one period of trading.
#[derive(Debug, PartialEq, Eq)]
pub struct StockData {
    pub time: StockTime,
    pub open: Decimal,
    pub close: Decimal,
    pub high: Decimal,
    pub low: Decimal,
    pub volume: Decimal,
    /// The moving averages found for this bar; `None` where there is none.
    pub moving_averages: Option<Vec<MovingAverageData>>,
}

/// What a `MovingAverageData` holds.
pub struct MovingAverage {
    pub name: int,
    pub value: Seq<char>,
    pub volume: Seq<char>,
}

/// What a `StockData` holds.
pub struct PriceBar {
    pub time: StockTime,
    pub open: Seq<char>,
    pub close: Seq<char>,
    pub high: Seq<char>,
    pub low: Seq<char>,
    pub volume: Seq<char>,
    pub moving_averages: Option<Seq<MovingAverage>>,
}

impl MovingAverage {
    /// Both averages are decimal numbers.
    pub open spec fn wf(self) -> bool {
        float_text(self.value) && float_text(self.volume)
    }
}

impl PriceBar {
    /// The time is well formed, the prices and the volume are decimal numbers,
    /// and a list of moving averages, where there is one, is not empty and
    /// holds well-formed averages.
    pub open spec fn wf(self) -> bool {
        &&& self.time.wf()
        &&& float_text(self.open)
        &&& float_text(self.close)
        &&& float_text(self.high)
        &&& float_text(self.low)
        &&& float_text(self.volume)
        &&& match self.moving_averages {
            Some(list) => list.len() > 0 && forall|i: int|
                0 <= i < list.len() ==> (#[trigger] list[i]).wf(),
            None => true,
        }
    }
}

impl View for MovingAverageData {
    type V = MovingAverage;

    open spec fn view(&self) -> MovingAverage {
        MovingAverage { name: self.name as int, value: self.value@, volume: self.volume@ }
    }
}

/// What a list of moving averages holds, item by item.
pub open spec fn averages_view(list: Seq<MovingAverageData>) -> Seq<MovingAverage> {
    Seq::new(list.len(), |i: int| list[i]@)
}

impl View for StockData {
    type V = PriceBar;

    open spec fn view(&self) -> PriceBar {
        PriceBar {
            time: self.time,
            open: self.open@,
            close: self.close@,
            high: self.high@,
            low: self.low@,
            volume: self.volume@,
            moving_averages: match self.moving_averages {
                Some(list) => Some(averages_view(list@)),
                None => None,
            },
        }
    }
}

/// What a list of bars holds, bar by bar.
pub open spec fn bars_view(bars: Seq<StockData>) -> Seq<PriceBar> {
    Seq::new(bars.len(), |i: int| bars[i]@)
}

/// Whether every bar of a list is well formed.
pub open spec fn all_wf(bars: Seq<StockData>) -> bool {
    forall|i: int| 0 <= i < bars.len() ==> (#[trigger] bars[i])@.wf()
}

/// What the result of a fetch holds: the bars, or the error.
pub open spec fn outcome(r: Result<Vec<StockData>, Error>) -> Result<Seq<PriceBar>, Error> {
    match r {
        Ok(bars) => Ok(bars_view(bars@)),
        Err(e) => Err(e),
    }
}

/// The bar without moving averages that a time and five texts make: an error
/// where one of the texts is no decimal number.
pub open spec fn plain_bar(
    time: StockTime,
    open: Seq<char>,
    close: Seq<char>,
    high: Seq<char>,
    low: Seq<char>,
    volume: Seq<char>,
) -> Result<PriceBar, Error> {
    if float_text(open) && float_text(close) && float_text(high) && float_text(low) && float_text(
        volume,
    ) {
        Ok(PriceBar { time, open, close, high, low, volume, moving_averages: None })
    } else {
        Err(Error::FieldParse)
    }
}

/// The characters of the string at position `index` of an array.
pub open spec fn text_at(row: Json, index: int) -> Option<Seq<char>> {
    match row.item(index) {
        Some(field) => field.text(),
        None => None,
    }
}

/// The bar that a row denotes: an array that starts with the time, the opening
/// and the closing price, the highest and the lowest price and the volume, each
/// as a string. An error where one of the six is absent or no string, where
/// the time cannot be read, or where one of the others is no decimal number.
pub open spec fn row_bar(format: TimeFormat, row: Json) -> Result<PriceBar, Error> {
    if text_at(row, 0) is Some && text_at(row, 1) is Some && text_at(row, 2) is Some && text_at(
        row,
        3,
    ) is Some && text_at(row, 4) is Some && text_at(row, 5) is Some {
        match stamp_time(format, text_at(row, 0)->0) {
            Some(time) => plain_bar(
                time,
                text_at(row, 1)->0,
                text_at(row, 2)->0,
                text_at(row, 3)->0,
                text_at(row, 4)->0,
                text_at(row, 5)->0,
            ),
            None => Err(Error::FieldParse),
        }
    } else {
        Err(Error::FieldParse)
    }
}

/// The bars that a list of rows denotes, in the order of the rows: an error
/// where any row denotes none.
pub open spec fn row_bars(format: TimeFormat, rows: Seq<Json>) -> Result<Seq<PriceBar>, Error> {
    if forall|i: int| 0 <= i < rows.len() ==> (#[trigger] row_bar(format, rows[i])) is Ok {
        Ok(Seq::new(rows.len(), |i: int| row_bar(format, rows[i])->Ok_0))
    } else {
        Err(Error::FieldParse)
    }
}

/// The text of a quote, where there is one.
pub open spec fn quote_text(quote: Option<Decimal>) -> Option<Seq<char>> {
    match quote {
        Some(q) => Some(q@),
        None => None,
    }
}

/// The bars after the live quote has been applied: with a quote and at least
/// one bar, the last bar has the quote as its closing price; nothing else
/// changes.
pub open spec fn patched(bars: Seq<PriceBar>, quote: Option<Seq<char>>) -> Seq<PriceBar> {
    match quote {
        Some(q) => if bars.len() > 0 {
            bars.update(bars.len() - 1, PriceBar { close: q, ..bars.last() })
        } else {
            bars
        },
        None => bars,
    }
}

impl StockData {
    /// Makes a bar without moving averages from a time and the texts of the
    /// four prices and the volume.
    pub fn from_fields(
        time: StockTime,
        open: &str,
        close: &str,
        high: &str,
        low: &str,
        volume: &str,
    ) -> (r: Result<StockData, Error>)
        ensures
            match r {
                Ok(bar) => plain_bar(time, open@, close@, high@, low@, volume@) == Ok::<
                    PriceBar,
                    Error,
                >(bar@),
                Err(e) => plain_bar(time, open@, close@, high@, low@, volume@) == Err::<
                    PriceBar,
                    Error,
                >(e),
            },
            r matches Ok(bar) ==> (time.wf() ==> bar@.wf()),
    {
        let open = match Decimal::parse(open) {
            Some(d) => d,
            None => return Err(Error::FieldParse),
        };
        let close = match Decimal::parse(close) {
            Some(d) => d,
            None => return Err(Error::FieldParse),
        };
        let high = match Decimal::parse(high) {
            Some(d) => d,
            None => return Err(Error::FieldParse),
        };
        let low = match Decimal::parse(low) {
            Some(d) => d,
            None => return Err(Error::FieldParse),
        };
        let volume = match Decimal::parse(volume) {
            Some(d) => d,
            None => return Err(Error::FieldParse),
        };
        Ok(StockData { time, open, close, high, low, volume, moving_averages: None })
    }

    /// Reads a bar from a row: an array of six strings or more.
    pub fn from_row(format: TimeFormat, row: &Json) -> (r: Result<StockData, Error>)
        ensures
            match r {
                Ok(bar) => row_bar(format, *row) == Ok::<PriceBar, Error>(bar@),
                Err(e) => row_bar(format, *row) == Err::<PriceBar, Error>(e),
            },
            r matches Ok(bar) ==> bar@.wf(),
    {
        let stamp = match field_text(row, 0) {
            Some(s) => s,
            None => return Err(Error::FieldParse),
        };
        let open = match field_text(row, 1) {
            Some(s) => s,
            None => return Err(Error::FieldParse),
        };
        let close = match field_text(row, 2) {
            Some(s) => s,
            None => return Err(Error::FieldParse),
        };
        let high = match field_text(row, 3) {
            Some(s) => s,
            None => return Err(Error::FieldParse),
        };
        let low = match field_text(row, 4) {
            Some(s) => s,
            None => return Err(Error::FieldParse),
        };
        let volume = match field_text(row, 5) {
            Some(s) => s,
            None => return Err(Error::FieldParse),
        };
        match read_time(format, stamp) {
            Some(time) => StockData::from_fields(time, open, close, high, low, volume),
            None => Err(Error::FieldParse),
        }
    }
}

/// The string at position `index` of a row.
fn field_text(row: &Json, index: usize) -> (r: Option<&str>)
    ensures
        match r {
            Some(s) => text_at(*row, index as int) == Some(s@),
            None => text_at(*row, index as int) is None,
        },
{
    match row.at(index) {
        Some(field) => field.as_str(),
        None => None,
    }
}

/// Reads a bar from each row, in order, and stops at the first row that
/// denotes none.
pub fn bars_from_rows(format: TimeFormat, rows: &Vec<Json>) -> (r: Result<Vec<StockData>, Error>)
    ensures
        outcome(r) == row_bars(format, rows@),
        r matches Ok(bars) ==> bars@.len() == rows@.len() && all_wf(bars@),
{
    let mut bars: Vec<StockData> = Vec::new();
    let mut i: usize = 0;
    while i < rows.len()
        invariant
            i <= rows.len(),
            bars@.len() == i,
            forall|j: int| 0 <= j < i ==> (#[trigger] row_bar(format, rows@[j])) is Ok,
            forall|j: int| 0 <= j < i ==> (#[trigger] bars@[j])@ == row_bar(format, rows@[j])->Ok_0,
            all_wf(bars@),
        decreases rows.len() - i,
    {
        match StockData::from_row(format, &rows[i]) {
            Ok(bar) => {
                bars.push(bar);
            },
            Err(e) => {
                assert(!(row_bar(format, rows@[i as int]) is Ok));
                return Err(e);
            },
        }
        i += 1;
    }
    assert(bars_view(bars@) =~= row_bars(format, rows@)->Ok_0);
    Ok(bars)
}

/// Puts the live quote, where there is one, in place of the closing price of
/// the last bar.
pub fn patch_last_close(bars: &mut Vec<StockData>, quote: Option<Decimal>)
    ensures
        bars_view(final(bars)@) == patched(bars_view(old(bars)@), quote_text(quote)),
        final(bars)@.len() == old(bars)@.len(),
        forall|i: int|
            0 <= i < old(bars)@.len() - 1 ==> (#[trigger] final(bars)@[i])@ == old(bars)@[i]@,
        old(bars)@.len() > 0 ==> final(bars)@.last()@ == (PriceBar {
            close: match quote {
                Some(q) => q@,
                None => old(bars)@.last()@.close,
            },
            ..old(bars)@.last()@
        }),
        all_wf(old(bars)@) && (quote matches Some(q) ==> q.wf()) ==> all_wf(final(bars)@),
{
    match quote {
        Some(q) => {
            match bars.pop() {
                Some(last) => {
                    let ghost before = bars@;
                    let renewed = StockData {
                        time: last.time,
                        open: last.open,
                        close: q,
                        high: last.high,
                        low: last.low,
                        volume: last.volume,
                        moving_averages: last.moving_averages,
                    };
                    bars.push(renewed);
                    assert(bars_view(bars@) =~= patched(bars_view(old(bars)@), Some(q@)));
                },
                None => {},
            }
        },
        None => {},
    }
}

} // verus!
