pub mod bar;
pub mod day;
pub mod error;
pub mod frequency;
pub mod json;
pub mod minute;
pub mod number;
pub mod sina;
pub mod text;
pub mod time;

pub use bar::{MovingAverageData, StockData};
pub use day::{day_url, day_url_on, get_price_day_tx};
pub use error::Error;
pub use json::Json;
pub use minute::{get_price_min_tx, minute_url};
pub use number::Decimal;
pub use sina::{get_price_sina, sina_url};
pub use time::{CalendarDate, CalendarDateTime, StockTime, TimeFormat};
