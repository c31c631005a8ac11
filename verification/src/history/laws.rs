//! What a search in the history finds, and what its errors say.

use vstd::prelude::*;

use crate::error::Error;
use crate::history::error::{LogHistoryError, NearestTimestamp, Timestamp};
use crate::history::search::{
    before_place, below, binary_search_by_key_with_bounds, fails_on, fails_with, keys_are,
    lawful, sorted_keys, Bound, SearchError,
};
use crate::text::{decimal, decimal_int};

verus! {

/// Times are ordered as the numbers are.
pub proof fn law_times_are_ordered_as_numbers(a: i64, b: i64)
    ensures
        below(a, b) <==> a < b,
{
}

/// The least upper bound of a key is the first value whose key is not below it. There is none where all keys are below it.
pub proof fn law_least_upper_bound<'a, T, K: Ord, E, F: Fn(&'a T) -> Result<K, E>>(
    values: &'a [T],
    key: K,
    key_fn: F,
    keys: Seq<K>,
    r: Result<usize, SearchError<E>>,
)
    requires
        call_ensures(
            binary_search_by_key_with_bounds::<T, K, E, F>,
            (values, key, key_fn, Bound::LeastUpper),
            r,
        ),
        lawful::<K>(),
        keys_are::<T, K, E, F>(values@, key_fn, keys),
        sorted_keys(keys),
    ensures
        match r {
            Ok(i) => {
                &&& 0 <= i < keys.len()
                &&& !below(keys[i as int], key)
                &&& forall|j: int| 0 <= j < i ==> below(#[trigger] keys[j], key)
            },
            Err(SearchError::OutOfRange) => forall|j: int|
                0 <= j < keys.len() ==> below(#[trigger] keys[j], key),
            Err(SearchError::KeyFunctionError(e)) => exists|j: int|
                0 <= j < values@.len() && call_ensures(key_fn, (&#[trigger] values@[j],), Err(e)),
        },
{
    lemma_error_of_a_value::<T, K, E, F>(values, key_fn, r);
    if let Ok(i) = r {
        assert(!before_place(Bound::LeastUpper, keys[i as int], key));
        assert(forall|j: int| 0 <= j < i ==> before_place(Bound::LeastUpper, #[trigger] keys[j], key));
    } else {
        assert(r matches Err(SearchError::OutOfRange) ==> forall|j: int|
            0 <= j < keys.len() ==> before_place(Bound::LeastUpper, #[trigger] keys[j], key));
    }
}

/// The greatest lower bound of a key is the last value whose key is not above it. There is none where all keys are above it.
pub proof fn law_greatest_lower_bound<'a, T, K: Ord, E, F: Fn(&'a T) -> Result<K, E>>(
    values: &'a [T],
    key: K,
    key_fn: F,
    keys: Seq<K>,
    r: Result<usize, SearchError<E>>,
)
    requires
        call_ensures(
            binary_search_by_key_with_bounds::<T, K, E, F>,
            (values, key, key_fn, Bound::GreatestLower),
            r,
        ),
        lawful::<K>(),
        keys_are::<T, K, E, F>(values@, key_fn, keys),
        sorted_keys(keys),
    ensures
        match r {
            Ok(i) => {
                &&& 0 <= i < keys.len()
                &&& !below(key, keys[i as int])
                &&& forall|j: int| i < j < keys.len() ==> below(key, #[trigger] keys[j])
            },
            Err(SearchError::OutOfRange) => forall|j: int|
                0 <= j < keys.len() ==> below(key, #[trigger] keys[j]),
            Err(SearchError::KeyFunctionError(e)) => exists|j: int|
                0 <= j < values@.len() && call_ensures(key_fn, (&#[trigger] values@[j],), Err(e)),
        },
{
    lemma_error_of_a_value::<T, K, E, F>(values, key_fn, r);
    if let Ok(i) = r {
        assert(before_place(Bound::GreatestLower, keys[i as int], key));
        assert(forall|j: int|
            i < j < keys.len() ==> !before_place(Bound::GreatestLower, #[trigger] keys[j], key));
    } else {
        assert(r matches Err(SearchError::OutOfRange) ==> forall|j: int|
            0 <= j < keys.len() ==> !before_place(Bound::GreatestLower, #[trigger] keys[j], key));
    }
}

proof fn lemma_error_of_a_value<'a, T, K: Ord, E, F: Fn(&'a T) -> Result<K, E>>(
    values: &'a [T],
    key_fn: F,
    r: Result<usize, SearchError<E>>,
)
    requires
        r matches Err(SearchError::KeyFunctionError(e)) ==> fails_with::<T, K, E, F>(
            values@,
            key_fn,
            e,
        ),
    ensures
        r matches Err(SearchError::KeyFunctionError(e)) ==> exists|j: int|
            0 <= j < values@.len() && call_ensures(key_fn, (&#[trigger] values@[j],), Err(e)),
{
    if let Err(SearchError::KeyFunctionError(e)) = r {
        let j = choose|j: int|
            0 <= j < values@.len() && #[trigger] fails_on::<T, K, E, F>(key_fn, &values@[j], e);
        assert(call_ensures(key_fn, (&values@[j],), Err(e)));
    }
}

/// A search does not fail where each value has a key.
pub proof fn law_search_does_not_fail<'a, T, K: Ord, E, F: Fn(&'a T) -> Result<K, E>>(
    values: &'a [T],
    key: K,
    key_fn: F,
    bound: Bound,
    r: Result<usize, SearchError<E>>,
)
    requires
        call_ensures(
            binary_search_by_key_with_bounds::<T, K, E, F>,
            (values, key, key_fn, bound),
            r,
        ),
        forall|j: int, e: E|
            0 <= j < values@.len() ==> !call_ensures(key_fn, (&#[trigger] values@[j],), Err::<K, E>(e)),
    ensures
        !(r matches Err(SearchError::KeyFunctionError(_))),
{
    if let Err(SearchError::KeyFunctionError(e)) = r {
        lemma_error_of_a_value::<T, K, E, F>(values, key_fn, r);
        let j = choose|j: int|
            0 <= j < values@.len() && call_ensures(key_fn, (&#[trigger] values@[j],), Err::<K, E>(e));
        assert(!call_ensures(key_fn, (&values@[j],), Err::<K, E>(e)));
    }
}

/// Below all versions lies the first of them, above all versions the last.
pub proof fn law_boundary_is_the_nearest<T>(
    slice: &[T],
    first: Option<&T>,
    last: Option<&T>,
)
    requires
        call_ensures(Bound::boundary_of::<T>, (&Bound::GreatestLower, slice), first),
        call_ensures(Bound::boundary_of::<T>, (&Bound::LeastUpper, slice), last),
    ensures
        slice@.len() == 0 <==> first is None,
        slice@.len() == 0 <==> last is None,
        first is Some ==> *first->0 == slice@[0],
        last is Some ==> *last->0 == slice@[slice@.len() - 1],
{
}

/// A time that is out of range is reported with the time, with the side on which nothing lies, and with the nearest time that is known.
pub proof fn law_time_out_of_range(
    timestamp: Timestamp,
    bound: Bound,
    ts: Timestamp,
    nearest: NearestTimestamp,
    given: NearestTimestamp,
    error: LogHistoryError,
    text: String,
)
    requires
        call_ensures(NearestTimestamp::from_boundary, (bound, ts), nearest),
        call_ensures(LogHistoryError::out_of_range, (timestamp, bound, given), error),
        call_ensures(LogHistoryError::to_text, (&error,), text),
    ensures
        bound is GreatestLower ==> nearest == NearestTimestamp::Earliest(ts),
        bound is LeastUpper ==> nearest == NearestTimestamp::Latest(ts),
        error matches LogHistoryError::TimestampOutOfRange {
            timestamp: t,
            reason: s,
            nearest_timestamp: n,
        } && t == timestamp && n == given,
        bound is GreatestLower ==> text@ == "Timestamp "@ + decimal_int(timestamp as int)
            + " is out of range: "@ + "no version exists at or before this timestamp"@,
        bound is LeastUpper ==> text@ == "Timestamp "@ + decimal_int(timestamp as int)
            + " is out of range: "@ + "no version exists at or after this timestamp"@,
{
}

/// An internal error tells its context, and behind it the error that it came from, if it came from one.
pub proof fn law_internal_error(
    context: &'static str,
    source: Error,
    cause: String,
    error: LogHistoryError,
    text: String,
    bare: LogHistoryError,
    bare_text: String,
)
    requires
        call_ensures(Error::to_text, (&source,), cause),
        call_ensures(LogHistoryError::internal, (context, source), error),
        call_ensures(LogHistoryError::to_text, (&error,), text),
        call_ensures(LogHistoryError::internal_message, (context,), bare),
        call_ensures(LogHistoryError::to_text, (&bare,), bare_text),
    ensures
        text@ == context@ + ": "@ + cause@,
        bare_text@ == context@,
{
}

/// The text of each error names what the error is about.
pub proof fn law_text_of_history_errors(error: LogHistoryError, r: String)
    requires
        call_ensures(LogHistoryError::to_text, (&error,), r),
    ensures
        match error {
            LogHistoryError::NoCommitsFound { log_root } => r@ == "No commits found in log directory "@
                + log_root@,
            LogHistoryError::InvalidTimestampRange { start_timestamp, end_timestamp } => r@
                == "Invalid timestamp range: ("@ + decimal_int(start_timestamp as int) + ", "@
                + decimal_int(end_timestamp as int) + ")"@,
            LogHistoryError::EmptyTimestampRange {
                start_timestamp,
                end_timestamp,
                between_version,
            } => r@ == "There are no commits in the timestamp range ("@ + decimal_int(
                start_timestamp as int,
            ) + ", "@ + decimal_int(end_timestamp as int)
                + "). The entire timestamp range falls between versions "@ + decimal(
                between_version as nat,
            ) + " and "@ + decimal((between_version + 1) as nat) + "."@,
            LogHistoryError::NoRecreatableCommit { log_root } => r@
                == "No recreatable commits found at "@ + log_root@
                + ": commits exist but version 0 is missing and no complete checkpoint is present"@,
            _ => true,
        },
{
}

/// An error of the history is an error of the library, and tells the same.
pub proof fn law_history_errors_are_errors(
    error: LogHistoryError,
    text: String,
    r: Error,
    r_text: String,
)
    requires
        call_ensures(LogHistoryError::to_text, (&error,), text),
        call_ensures(<Error as From<LogHistoryError>>::from, (error,), r),
        call_ensures(Error::to_text, (&r,), r_text),
    ensures
        r is LogHistory,
        *r->LogHistory_0 == error,
        r_text@ == text@,
{
}

/// Two kinds of errors say what they are before they say why; the others tell their message as it is.
pub proof fn law_text_of_errors(error: Error, r: String)
    requires
        call_ensures(Error::to_text, (&error,), r),
    ensures
        match error {
            Error::Generic(m) => r@ == "Generic delta kernel error: "@ + m@,
            Error::Schema(m) => r@ == "Schema error: "@ + m@,
            Error::InternalError(m) => r@ == m@,
            Error::Unsupported(m) => r@ == m@,
            Error::MissingData(m) => r@ == m@,
            Error::InvalidDecimal(m) => r@ == m@,
            Error::InvalidTableLocation(m) => r@ == m@,
            Error::PlanResultTypeMismatch { expected, actual } => r@
                == "Plan result type mismatch: expected "@ + expected@ + ", got "@ + actual@,
            _ => true,
        },
{
}

/// An error holds the message that it was made with.
pub proof fn law_errors_hold_their_messages(
    message: String,
    field: &str,
    generic: Error,
    internal: Error,
    unsupported: Error,
    missing: Error,
)
    requires
        call_ensures(Error::generic, (message,), generic),
        call_ensures(Error::internal_error, (message,), internal),
        call_ensures(Error::unsupported, (message,), unsupported),
        call_ensures(Error::missing_data, (field,), missing),
    ensures
        generic matches Error::Generic(m) && m@ == message@,
        internal matches Error::InternalError(m) && m@ == message@,
        unsupported matches Error::Unsupported(m) && m@ == message@,
        missing matches Error::MissingData(m) && m@ == "Data missing for field "@ + field@,
{
}

} // verus!
