use delta_kernel_core::error::{DeltaResult, Error};
use delta_kernel_core::history::error::{LogHistoryError, NearestTimestamp};
use delta_kernel_core::history::search::{binary_search_by_key_with_bounds, Bound, SearchError};

fn get_val(x: &i32) -> DeltaResult<i32> {
    Ok(*x)
}

fn finds(values: &[i32], search_key: i32, bound: Bound, expected_index: usize) {
    match binary_search_by_key_with_bounds(values, search_key, get_val, bound) {
        Ok(index) => assert_eq!(index, expected_index),
        Err(_) => panic!("{search_key} must be found"),
    }
}

#[test]
fn test_binary_search_exact_least_upper() {
    finds(&[1, 3, 5, 7, 9], 5, Bound::LeastUpper, 2);
}

#[test]
fn test_binary_search_exact_greatest_lower() {
    finds(&[1, 3, 5, 7, 9], 5, Bound::GreatestLower, 2);
}

#[test]
fn test_binary_search_no_match_least_upper() {
    finds(&[1, 3, 5, 7, 9], 4, Bound::LeastUpper, 2);
}

#[test]
fn test_binary_search_no_match_greatest_lower() {
    finds(&[1, 3, 5, 7, 9], 6, Bound::GreatestLower, 2);
}

#[test]
fn test_duplicate_values_least_upper_first_occurrence() {
    finds(&[1, 3, 5, 5, 5, 7, 9], 5, Bound::LeastUpper, 2);
}

#[test]
fn test_duplicate_values_greatest_lower_last_occurrence() {
    finds(&[1, 3, 5, 5, 5, 7, 9], 5, Bound::GreatestLower, 4);
}

#[test]
fn test_edge_cases() {
    let empty: Vec<i32> = vec![];
    let result = binary_search_by_key_with_bounds(&empty, 5, get_val, Bound::LeastUpper);
    assert!(result.is_err());

    let values = vec![5, 7, 9];
    finds(&values, 3, Bound::LeastUpper, 0);

    let result = binary_search_by_key_with_bounds(&values, 3, get_val, Bound::GreatestLower);
    assert!(matches!(result, Err(SearchError::OutOfRange)));

    let result = binary_search_by_key_with_bounds(&values, 10, get_val, Bound::LeastUpper);
    assert!(matches!(result, Err(SearchError::OutOfRange)));

    finds(&values, 10, Bound::GreatestLower, 2);
}

#[test]
fn test_error_propagation() {
    let values = vec![1, 3, 5, 7, 9];

    let failing_key_fn = |x: &i32| -> DeltaResult<i32> {
        if *x == 5 {
            Err(Error::generic("Error extracting key".to_string()))
        } else {
            Ok(*x)
        }
    };

    let result = binary_search_by_key_with_bounds(&values, 7, failing_key_fn, Bound::LeastUpper);
    assert!(matches!(
        result,
        Err(SearchError::KeyFunctionError(Error::Generic(msg))) if msg.contains("Error extracting key")
    ));
}

#[test]
fn a_failure_on_an_element_that_is_not_looked_at_does_not_matter() {
    let values = vec![1, 3, 5, 7, 9];
    let key_fn = |x: &i32| -> Result<i32, i32> {
        if *x == 1 {
            Err(*x)
        } else {
            Ok(*x)
        }
    };
    let found = binary_search_by_key_with_bounds(&values, 7, key_fn, Bound::LeastUpper);
    assert!(matches!(found, Ok(3)));
    let failed = binary_search_by_key_with_bounds(&values, 2, key_fn, Bound::LeastUpper);
    assert!(matches!(failed, Err(SearchError::KeyFunctionError(1))));
}

#[test]
fn the_boundary_lies_on_the_side_of_the_failure() {
    let values = [100, 300, 500];
    assert_eq!(Bound::GreatestLower.boundary_of(&values), Some(&100));
    assert_eq!(Bound::LeastUpper.boundary_of(&values), Some(&500));
    assert_eq!(Bound::LeastUpper.boundary_of::<i32>(&[]), None);
    assert_eq!(
        NearestTimestamp::from_boundary(Bound::GreatestLower, 100),
        NearestTimestamp::Earliest(100)
    );
    assert_eq!(
        NearestTimestamp::from_boundary(Bound::LeastUpper, 500),
        NearestTimestamp::Latest(500)
    );
}

#[test]
fn errors_say_what_happened() {
    let error = LogHistoryError::out_of_range(
        50,
        Bound::GreatestLower,
        NearestTimestamp::from_boundary(Bound::GreatestLower, 100),
    );
    assert_eq!(
        error.to_text(),
        "Timestamp 50 is out of range: no version exists at or before this timestamp"
    );
    let error = LogHistoryError::out_of_range(-7, Bound::LeastUpper, NearestTimestamp::Unknown);
    assert_eq!(
        error.to_text(),
        "Timestamp -7 is out of range: no version exists at or after this timestamp"
    );
    assert_eq!(LogHistoryError::internal_message("while reading").to_text(), "while reading");
    let error = LogHistoryError::internal("while reading", Error::generic("gone".to_string()));
    assert_eq!(error.to_text(), "while reading: Generic delta kernel error: gone");
    let error = LogHistoryError::NoCommitsFound { log_root: "memory:///t/_delta_log/".to_string() };
    assert!(Error::from(error).to_text().contains("memory:///t/_delta_log/"));
    let error = LogHistoryError::InvalidTimestampRange { start_timestamp: 9, end_timestamp: 3 };
    let text = error.to_text();
    assert!(text.contains('9') && text.contains('3'), "{text}");
    let error = LogHistoryError::EmptyTimestampRange {
        start_timestamp: 11,
        end_timestamp: 12,
        between_version: 4,
    };
    let text = error.to_text();
    assert!(text.contains("versions 4 and 5."), "{text}");
    let error =
        LogHistoryError::NoRecreatableCommit { log_root: "memory:///t/_delta_log/".to_string() };
    assert!(error.to_text().contains("version 0 is missing"));
}
