//! Japanese phonetic readings (yomi) of calendar moments.
//!
//! Each field of a moment (year, month, day, weekday, hour, minute, second)
//! has a renderer that turns a bounded integer into its reading, a string of
//! space-separated romanised tokens ending in the field's counter word.
//! Every renderer is proved equal to a spec function that states the
//! reading rule by rule, and a value outside a field's range is reported as
//! a `DomainViolation` instead of being clamped or wrapped.

mod date;
mod error;
mod lexicon;
mod moment;
mod time;
mod weekday;

pub use date::{
    day_ones_yomi, day_tens_yomi, day_to_yomi, day_word_yomi, day_yomi,
    lemma_year_yomi_ends_with_nen, month_to_yomi, month_word_yomi, month_yomi,
    positive_year_to_yomi, year_hundreds_yomi, year_ones_yomi, year_tail_yomi,
    year_thousands_yomi, year_yomi,
};
pub use error::DomainViolation;
pub use lexicon::{digit_yomi, ends_with, nonzero_digit_to_generic_yomi, tens_yomi};
pub use moment::{format_datetime, moment_yomi, CalendarMoment};
pub use time::{
    hour_ones_yomi, hour_tens_yomi, hour_to_yomi, hour_yomi, lemma_minute_tens_use_juppun,
    minute_ones_yomi, minute_to_yomi, minute_yomi, sec_to_yomi, second_yomi,
};
pub use weekday::{lemma_weekday_yomi_injective, weekday_to_yomi, weekday_yomi, Weekday};
