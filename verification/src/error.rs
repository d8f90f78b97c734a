//! Errors reported by the library.
use vstd::prelude::*;
use vstd::string::StringExecFns;

verus! {

/// What went wrong while a table was built or an instant was converted.
///
/// Each variant carries the text it is about.
#[derive(Debug, PartialEq)]
pub enum Error {
    /// A table line that does not consist of exactly two fields; holds the line.
    TaiUtcTableParseError(String),
    /// A table line whose first field is no datetime; holds that field.
    TaiUtcTableDatetimeParseError(String),
    /// A table line whose second field is no signed 64-bit integer; holds the line.
    TaiUtcTableDiffParseError(String),
    /// An instant that precedes the first row of the table; holds the instant.
    DatetimeTooLowError(String),
    /// A text that is no datetime in the given format; holds the text.
    DatetimeParseError(String),
    /// An instant whose conversion leaves the range of instants that can be
    /// written down; holds the instant.
    DatetimeOutOfRangeError(String),
    /// A converted instant that the given format cannot render; holds the
    /// text that was converted.
    DatetimeFormatError(String),
    /// A table file that cannot be opened; holds its path.
    LeapsTableIOError(String),
    /// A table file that is no text; holds its path.
    LeapsTableNotTextError(String),
}

/// The mathematical value of an [`Error`]: the same variants over sequences
/// of characters.
pub enum ErrorView {
    TaiUtcTableParseError(Seq<char>),
    TaiUtcTableDatetimeParseError(Seq<char>),
    TaiUtcTableDiffParseError(Seq<char>),
    DatetimeTooLowError(Seq<char>),
    DatetimeParseError(Seq<char>),
    DatetimeOutOfRangeError(Seq<char>),
    DatetimeFormatError(Seq<char>),
    LeapsTableIOError(Seq<char>),
    LeapsTableNotTextError(Seq<char>),
}

impl ErrorView {
    /// The text that the error carries.
    pub open spec fn subject(self) -> Seq<char> {
        match self {
            ErrorView::TaiUtcTableParseError(s) => s,
            ErrorView::TaiUtcTableDatetimeParseError(s) => s,
            ErrorView::TaiUtcTableDiffParseError(s) => s,
            ErrorView::DatetimeTooLowError(s) => s,
            ErrorView::DatetimeParseError(s) => s,
            ErrorView::DatetimeOutOfRangeError(s) => s,
            ErrorView::DatetimeFormatError(s) => s,
            ErrorView::LeapsTableIOError(s) => s,
            ErrorView::LeapsTableNotTextError(s) => s,
        }
    }

    /// The fixed words that introduce the subject in the error's message.
    pub open spec fn headline(self) -> Seq<char> {
        match self {
            ErrorView::TaiUtcTableParseError(_) => "Illegal definition of TAI-UTC difference: "@,
            ErrorView::TaiUtcTableDatetimeParseError(_) =>
                "Illegal definition of TAI-UTC difference (datetime): "@,
            ErrorView::TaiUtcTableDiffParseError(_) =>
                "Illegal definition of TAI-UTC difference (seconds): "@,
            ErrorView::DatetimeTooLowError(_) => "The datetime is too low: "@,
            ErrorView::DatetimeParseError(_) => "Cannot parse the datetime: "@,
            ErrorView::DatetimeOutOfRangeError(_) => "The datetime is out of range: "@,
            ErrorView::DatetimeFormatError(_) => "Cannot format the datetime: "@,
            ErrorView::LeapsTableIOError(_) => "The TAI-UTC table file isn't available: "@,
            ErrorView::LeapsTableNotTextError(_) =>
                "Cannot read the TAI-UTC table file as text: "@,
        }
    }

    /// The message shown to a user: the headline followed by the subject.
    pub open spec fn message(self) -> Seq<char> {
        self.headline() + self.subject()
    }

    /// The error as a conversion in several steps reports it: where it says
    /// that an instant is too low or out of range, it names `subject` in
    /// place of the instant of the step that failed.
    pub open spec fn cited_for(self, subject: Seq<char>) -> ErrorView {
        match self {
            ErrorView::DatetimeTooLowError(_) => ErrorView::DatetimeTooLowError(subject),
            ErrorView::DatetimeOutOfRangeError(_) => ErrorView::DatetimeOutOfRangeError(subject),
            _ => self,
        }
    }
}

/// The mathematical value of the outcome of a conversion between texts.
pub open spec fn text_result(r: Result<String, Error>) -> Result<Seq<char>, ErrorView> {
    match r {
        Ok(text) => Ok(text@),
        Err(e) => Err(e@),
    }
}

impl View for Error {
    type V = ErrorView;

    open spec fn view(&self) -> ErrorView {
        match self {
            Error::TaiUtcTableParseError(s) => ErrorView::TaiUtcTableParseError(s@),
            Error::TaiUtcTableDatetimeParseError(s) => ErrorView::TaiUtcTableDatetimeParseError(s@),
            Error::TaiUtcTableDiffParseError(s) => ErrorView::TaiUtcTableDiffParseError(s@),
            Error::DatetimeTooLowError(s) => ErrorView::DatetimeTooLowError(s@),
            Error::DatetimeParseError(s) => ErrorView::DatetimeParseError(s@),
            Error::DatetimeOutOfRangeError(s) => ErrorView::DatetimeOutOfRangeError(s@),
            Error::DatetimeFormatError(s) => ErrorView::DatetimeFormatError(s@),
            Error::LeapsTableIOError(s) => ErrorView::LeapsTableIOError(s@),
            Error::LeapsTableNotTextError(s) => ErrorView::LeapsTableNotTextError(s@),
        }
    }
}

impl Error {
    /// The error as a conversion in several steps reports it: where it says
    /// that an instant is too low or out of range, it names `subject` in
    /// place of the instant of the step that failed.
    pub fn cited_for(self, subject: String) -> (e: Error)
        ensures
            e@ == self@.cited_for(subject@),
    {
        match self {
            Error::DatetimeTooLowError(_) => Error::DatetimeTooLowError(subject),
            Error::DatetimeOutOfRangeError(_) => Error::DatetimeOutOfRangeError(subject),
            other => other,
        }
    }

    /// The message shown to a user.
    pub fn message(&self) -> (text: String)
        ensures
            text@ == self@.message(),
    {
        match self {
            Error::TaiUtcTableParseError(s) => String::from_str(
                "Illegal definition of TAI-UTC difference: ",
            ).concat(s.as_str()),
            Error::TaiUtcTableDatetimeParseError(s) => String::from_str(
                "Illegal definition of TAI-UTC difference (datetime): ",
            ).concat(s.as_str()),
            Error::TaiUtcTableDiffParseError(s) => String::from_str(
                "Illegal definition of TAI-UTC difference (seconds): ",
            ).concat(s.as_str()),
            Error::DatetimeTooLowError(s) => String::from_str("The datetime is too low: ").concat(
                s.as_str(),
            ),
            Error::DatetimeParseError(s) => String::from_str("Cannot parse the datetime: ").concat(
                s.as_str(),
            ),
            Error::DatetimeOutOfRangeError(s) => String::from_str(
                "The datetime is out of range: ",
            ).concat(s.as_str()),
            Error::DatetimeFormatError(s) => String::from_str(
                "Cannot format the datetime: ",
            ).concat(s.as_str()),
            Error::LeapsTableIOError(s) => String::from_str(
                "The TAI-UTC table file isn't available: ",
            ).concat(s.as_str()),
            Error::LeapsTableNotTextError(s) => String::from_str(
                "Cannot read the TAI-UTC table file as text: ",
            ).concat(s.as_str()),
        }
    }
}

} // verus!
