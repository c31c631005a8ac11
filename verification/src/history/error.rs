//! The errors of searches in the history of a table.

use vstd::prelude::*;
use vstd::std_specs::convert::FromSpecImpl;

use crate::actions::Version;
use crate::error::{Error, ErrorView};
use crate::history::search::Bound;
use crate::text::{decimal, decimal_int, push_decimal, push_decimal_int};

verus! {

/// A time in milliseconds since the epoch.
pub type Timestamp = i64;

/// The nearest retained timestamp on the side on which an out-of-range search failed, which an
/// engine can show to its users.
#[derive(Debug, Clone, Copy, PartialEq, Eq, Structural)]
#[non_exhaustive]
pub enum NearestTimestamp {
    /// The timestamp of the earliest retained commit, for a `GreatestLower` search below the
    /// retained range.
    Earliest(Timestamp),
    /// The timestamp of the latest retained commit, for a `LeastUpper` search above the retained
    /// range.
    Latest(Timestamp),
    /// No such timestamp could be determined.
    Unknown,
}

impl NearestTimestamp {
    /// The timestamp on the side on which a search for `bound` fails.
    pub open spec fn at_boundary(bound: Bound, ts: Timestamp) -> NearestTimestamp {
        match bound {
            Bound::GreatestLower => NearestTimestamp::Earliest(ts),
            Bound::LeastUpper => NearestTimestamp::Latest(ts),
        }
    }

    /// Tags `ts` with the variant that matches `bound`.
    pub fn from_boundary(bound: Bound, ts: Timestamp) -> (r: Self)
        ensures
            r == NearestTimestamp::at_boundary(bound, ts),
    {
        match bound {
            Bound::GreatestLower => NearestTimestamp::Earliest(ts),
            Bound::LeastUpper => NearestTimestamp::Latest(ts),
        }
    }
}

/// What can go wrong when timestamps are converted to versions.
#[derive(Debug)]
pub enum LogHistoryError {
    /// No commit files were found in the log directory.
    NoCommitsFound {
        /// The URL of the log directory that was searched.
        log_root: String,
    },
    /// The timestamp range is invalid (start > end).
    InvalidTimestampRange { start_timestamp: Timestamp, end_timestamp: Timestamp },
    /// The timestamp range contains no commits: it falls between two adjacent versions.
    EmptyTimestampRange {
        start_timestamp: Timestamp,
        end_timestamp: Timestamp,
        /// The version immediately before the timestamp range.
        between_version: Version,
    },
    /// The timestamp is outside the range of available commits.
    TimestampOutOfRange {
        timestamp: Timestamp,
        /// Why the timestamp is out of range.
        reason: &'static str,
        /// The nearest retained timestamp on the side of the search bound.
        nearest_timestamp: NearestTimestamp,
    },
    /// Commit files exist but the table cannot be reconstructed: version 0 is missing and there is
    /// no complete checkpoint.
    NoRecreatableCommit {
        /// The URL of the log directory that was scanned.
        log_root: String,
    },
    /// An internal error during the conversion of a timestamp.
    Internal {
        /// The operation that failed.
        context: &'static str,
        /// The underlying error, if any.
        source: Option<Box<Error>>,
    },
}

/// What a [`LogHistoryError`] says.
pub enum LogHistoryErrorView {
    NoCommitsFound { log_root: Seq<char> },
    InvalidTimestampRange { start_timestamp: Timestamp, end_timestamp: Timestamp },
    EmptyTimestampRange {
        start_timestamp: Timestamp,
        end_timestamp: Timestamp,
        between_version: Version,
    },
    TimestampOutOfRange {
        timestamp: Timestamp,
        reason: Seq<char>,
        nearest_timestamp: NearestTimestamp,
    },
    NoRecreatableCommit { log_root: Seq<char> },
    Internal { context: Seq<char>, source: Option<Box<ErrorView>> },
}

impl LogHistoryError {
    pub open spec fn view(self) -> LogHistoryErrorView
        decreases self,
    {
        match self {
            LogHistoryError::NoCommitsFound { log_root } => LogHistoryErrorView::NoCommitsFound {
                log_root: log_root@,
            },
            LogHistoryError::InvalidTimestampRange {
                start_timestamp,
                end_timestamp,
            } => LogHistoryErrorView::InvalidTimestampRange { start_timestamp, end_timestamp },
            LogHistoryError::EmptyTimestampRange {
                start_timestamp,
                end_timestamp,
                between_version,
            } => LogHistoryErrorView::EmptyTimestampRange {
                start_timestamp,
                end_timestamp,
                between_version,
            },
            LogHistoryError::TimestampOutOfRange {
                timestamp,
                reason,
                nearest_timestamp,
            } => LogHistoryErrorView::TimestampOutOfRange {
                timestamp,
                reason: reason@,
                nearest_timestamp,
            },
            LogHistoryError::NoRecreatableCommit {
                log_root,
            } => LogHistoryErrorView::NoRecreatableCommit { log_root: log_root@ },
            LogHistoryError::Internal { context, source } => LogHistoryErrorView::Internal {
                context: context@,
                source: match source {
                    Some(error) => Some(Box::new(error.view())),
                    None => None,
                },
            },
        }
    }
}

impl LogHistoryErrorView {
    /// The message of the error.
    pub open spec fn text(self) -> Seq<char>
        decreases self,
    {
        match self {
            LogHistoryErrorView::NoCommitsFound { log_root } => "No commits found in log directory "@
                + log_root,
            LogHistoryErrorView::InvalidTimestampRange {
                start_timestamp,
                end_timestamp,
            } => "Invalid timestamp range: ("@ + decimal_int(start_timestamp as int) + ", "@
                + decimal_int(end_timestamp as int) + ")"@,
            LogHistoryErrorView::EmptyTimestampRange {
                start_timestamp,
                end_timestamp,
                between_version,
            } => "There are no commits in the timestamp range ("@ + decimal_int(
                start_timestamp as int,
            ) + ", "@ + decimal_int(end_timestamp as int)
                + "). The entire timestamp range falls between versions "@ + decimal(
                between_version as nat,
            ) + " and "@ + decimal((between_version + 1) as nat) + "."@,
            LogHistoryErrorView::TimestampOutOfRange { timestamp, reason, .. } => "Timestamp "@
                + decimal_int(timestamp as int) + " is out of range: "@ + reason,
            LogHistoryErrorView::NoRecreatableCommit {
                log_root,
            } => "No recreatable commits found at "@ + log_root
                + ": commits exist but version 0 is missing and no complete checkpoint is present"@,
            LogHistoryErrorView::Internal { context, source } => match source {
                Some(error) => context + ": "@ + error.text(),
                None => context,
            },
        }
    }
}

impl LogHistoryError {
    /// An internal error with context and an underlying cause.
    pub fn internal(context: &'static str, source: Error) -> (r: Self)
        ensures
            r@ == (LogHistoryErrorView::Internal {
                context: context@,
                source: Some(Box::new(source@)),
            }),
    {
        LogHistoryError::Internal { context, source: Some(Box::new(source)) }
    }

    /// An internal error with context only.
    pub fn internal_message(context: &'static str) -> (r: Self)
        ensures
            r@ == (LogHistoryErrorView::Internal { context: context@, source: None }),
    {
        LogHistoryError::Internal { context, source: None }
    }

    /// The error of a timestamp search that is out of range. The reason follows from `bound`.
    pub fn out_of_range(
        timestamp: Timestamp,
        bound: Bound,
        nearest_timestamp: NearestTimestamp,
    ) -> (r: Self)
        ensures
            r@ == (LogHistoryErrorView::TimestampOutOfRange {
                timestamp,
                reason: bound.reason(),
                nearest_timestamp,
            }),
    {
        LogHistoryError::TimestampOutOfRange {
            timestamp,
            reason: bound.out_of_range_reason(),
            nearest_timestamp,
        }
    }

    /// The message of the error.
    pub fn to_text(&self) -> (r: String)
        ensures
            r@ == self@.text(),
        decreases self,
    {
        let mut out = String::new();
        match self {
            LogHistoryError::NoCommitsFound { log_root } => {
                out.append("No commits found in log directory ");
                out.append(log_root.as_str());
            },
            LogHistoryError::InvalidTimestampRange { start_timestamp, end_timestamp } => {
                out.append("Invalid timestamp range: (");
                push_decimal_int(&mut out, *start_timestamp);
                out.append(", ");
                push_decimal_int(&mut out, *end_timestamp);
                out.append(")");
            },
            LogHistoryError::EmptyTimestampRange {
                start_timestamp,
                end_timestamp,
                between_version,
            } => {
                out.append("There are no commits in the timestamp range (");
                push_decimal_int(&mut out, *start_timestamp);
                out.append(", ");
                push_decimal_int(&mut out, *end_timestamp);
                out.append("). The entire timestamp range falls between versions ");
                push_decimal(&mut out, *between_version as u128);
                out.append(" and ");
                push_decimal(&mut out, *between_version as u128 + 1);
                out.append(".");
            },
            LogHistoryError::TimestampOutOfRange { timestamp, reason, .. } => {
                out.append("Timestamp ");
                push_decimal_int(&mut out, *timestamp);
                out.append(" is out of range: ");
                out.append(reason);
            },
            LogHistoryError::NoRecreatableCommit { log_root } => {
                out.append("No recreatable commits found at ");
                out.append(log_root.as_str());
                out.append(
                    ": commits exist but version 0 is missing and no complete checkpoint is present",
                );
            },
            LogHistoryError::Internal { context, source } => {
                out.append(context);
                if let Some(error) = source {
                    out.append(": ");
                    let cause = error.to_text();
                    out.append(cause.as_str());
                }
            },
        }
        assert(out@ =~= self@.text());
        out
    }
}

impl From<LogHistoryError> for Error {
    fn from(e: LogHistoryError) -> (r: Self) {
        Error::LogHistory(Box::new(e))
    }
}

impl FromSpecImpl<LogHistoryError> for Error {
    open spec fn obeys_from_spec() -> bool {
        true
    }

    open spec fn from_spec(e: LogHistoryError) -> Self {
        Error::LogHistory(Box::new(e))
    }
}

} // verus!
