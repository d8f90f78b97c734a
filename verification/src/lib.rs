//! Conversion of instants between the time scales UTC, TAI and TT, and from
//! UT to the Modified Julian Date, with leap seconds taken into account as a
//! table of the differences TAI - UTC gives them.
//!
//! An instant is held as a count of seconds and a sub-second part
//! ([`datetime`]). A second numbered 60 is written as the second 59 with a
//! sub-second part of one second or more. The table of the differences
//! TAI - UTC ([`convtbl::TaiUtcTable`]) is read from lines of text and converts
//! UTC to TAI; the table for the way back ([`convtbl::UtcTaiTable`]) is
//! derived from it. The conversions come in pairs, one between instants and
//! one between texts in a format of the caller's choice.
//!
//! Everything is verified but for the calls into the `chrono` crate, which
//! reads and writes datetimes and knows the calendar. They are gathered in
//! [`calendar`]. What holds of the conversions as a whole is stated and
//! proved in [`laws`].
pub mod calendar;
pub mod convtbl;
pub mod datetime;
pub mod error;
pub mod exe;
pub mod laws;
pub mod tai2utc;
pub mod text;
pub mod tt;
pub mod tt2utc;
pub mod ut2mjd;
pub mod utc2tai;
pub mod utc2tt;

pub use convtbl::DiffTaiUtc;
pub use convtbl::DiffUtcTai;
pub use convtbl::TaiUtcTable;
pub use convtbl::UtcTaiTable;
pub use datetime::DateTime;
pub use datetime::normalize_leap;
pub use tai2utc::tai2utc;
pub use tai2utc::tai2utc_dt;
pub use tt::tai2tt;
pub use tt::tai2tt_dt;
pub use tt::tt2tai;
pub use tt::tt2tai_dt;
pub use tt2utc::tt2utc;
pub use tt2utc::tt2utc_dt;
pub use ut2mjd::ut2mjd;
pub use ut2mjd::ut2mjd_str;
pub use utc2tai::utc2tai;
pub use utc2tai::utc2tai_dt;
pub use utc2tt::utc2tt;
pub use utc2tt::utc2tt_dt;
