use delta_kernel_core::actions::FileMeta;
use delta_kernel_core::error::{DeltaResult, Error};
use delta_kernel_core::ffi::iter::{
    arrow_array_to_bytes, arrow_array_to_file_metas, engine_error_to_kernel, next_bytes,
    next_item, BytesArray, ColumnValues, EngineReply, FfiFileMetaIter, FileBatch, FileMetaArray,
    FileMetaStep,
};
use delta_kernel_core::location::{file_at, parse_location};

#[test]
fn engine_error_to_kernel_preserves_etype() {
    let kernel_err = engine_error_to_kernel("FileNotFoundError");
    let Error::Generic(msg) = kernel_err else {
        panic!("expected Error::Generic");
    };
    assert!(
        msg.contains("FileNotFoundError"),
        "etype should appear in the message, got {msg:?}",
    );
}

fn failed<T>() -> EngineReply<T> {
    EngineReply::Failed("GenericError".to_string())
}

#[test]
fn ffi_engine_data_iter_drains() {
    let first = next_item(EngineReply::Item(3)).expect("first item").expect("first ok");
    assert_eq!(first, 3);

    let second = next_item::<i32>(failed()).expect("second item");
    assert!(second.is_err(), "second item should be Err");

    let third = next_item(EngineReply::Item(5)).expect("third item").expect("third ok");
    assert_eq!(third, 5);

    assert!(next_item::<i32>(EngineReply::End).is_none(), "iterator should be exhausted");
}

fn binary(payload: &[u8]) -> EngineReply<DeltaResult<BytesArray>> {
    EngineReply::Item(Ok(BytesArray::Binary(vec![Some(payload.to_vec())])))
}

#[test]
fn ffi_bytes_iter_drains() {
    let first = next_bytes(binary(b"hello")).expect("first item").expect("first ok");
    assert_eq!(first.as_ref(), b"hello");

    let second = next_bytes(failed()).expect("second item");
    assert!(second.is_err(), "second item should be Err");

    let third = next_bytes(binary(b"world!")).expect("third item").expect("third ok");
    assert_eq!(third.as_ref(), b"world!");

    assert!(next_bytes(EngineReply::End).is_none(), "iterator should be exhausted");
}

#[test]
fn bytes_come_in_one_row_that_is_not_null() {
    let message = |array| arrow_array_to_bytes(&array).unwrap_err().to_text();
    assert_eq!(
        message(BytesArray::Other("Int64".to_string())),
        "Generic delta kernel error: CBytesIterator must yield BinaryArray, got Int64"
    );
    assert_eq!(
        message(BytesArray::Binary(vec![])),
        "Generic delta kernel error: CBytesIterator array must contain exactly one row, got 0"
    );
    assert_eq!(
        message(BytesArray::Binary(vec![None, None])),
        "Generic delta kernel error: CBytesIterator array must contain exactly one row, got 2"
    );
    assert_eq!(
        message(BytesArray::Binary(vec![None])),
        "Generic delta kernel error: CBytesIterator array row must not be null"
    );
}

fn batch(rows: &[(&str, i64, u64)]) -> FileBatch {
    FileBatch {
        len: rows.len(),
        location: ColumnValues::Utf8(rows.iter().map(|r| Some(r.0.to_string())).collect()),
        last_modified: ColumnValues::Int64(rows.iter().map(|r| Some(r.1)).collect()),
        size: ColumnValues::UInt64(rows.iter().map(|r| Some(r.2)).collect()),
    }
}

fn reply(rows: &[(&str, i64, u64)]) -> EngineReply<DeltaResult<FileMetaArray>> {
    EngineReply::Item(Ok(FileMetaArray::Struct(batch(rows))))
}

/// Drives an iterator with the replies of an engine, which are taken from the front.
fn next(
    iter: &mut FfiFileMetaIter,
    replies: &mut Vec<EngineReply<DeltaResult<FileMetaArray>>>,
) -> Option<DeltaResult<FileMeta>> {
    match iter.poll() {
        FileMetaStep::Done => None,
        FileMetaStep::Next(file) => Some(Ok(file)),
        FileMetaStep::Pull => {
            let reply = if replies.is_empty() { EngineReply::End } else { replies.remove(0) };
            iter.supply(reply)
        }
    }
}

#[test]
fn ffi_file_meta_iter_drains() {
    let mut replies = vec![
        reply(&[("file:///a.parquet", 1, 100), ("file:///b.parquet", 2, 200)]),
        failed(),
        reply(&[("file:///c.parquet", 3, 300)]),
    ];
    let mut iter = FfiFileMetaIter::new();

    let first = next(&mut iter, &mut replies).expect("first item").expect("first ok");
    assert_eq!(first.location.as_str(), "file:///a.parquet");
    assert_eq!(first.last_modified, 1);
    assert_eq!(first.size, 100);

    let second = next(&mut iter, &mut replies).expect("second item").expect("second ok");
    assert_eq!(second.location.as_str(), "file:///b.parquet");
    assert_eq!(second.last_modified, 2);
    assert_eq!(second.size, 200);

    let third = next(&mut iter, &mut replies).expect("third item");
    assert!(third.is_err(), "third item should be Err");

    let fourth = next(&mut iter, &mut replies).expect("fourth item").expect("fourth ok");
    assert_eq!(fourth.location.as_str(), "file:///c.parquet");
    assert_eq!(fourth.last_modified, 3);
    assert_eq!(fourth.size, 300);

    assert!(next(&mut iter, &mut replies).is_none(), "iterator should be exhausted");
    assert!(matches!(iter.poll(), FileMetaStep::Done));
}

#[test]
fn ffi_file_meta_iter_rejects_empty_batch_and_stays_terminated() {
    let mut replies = vec![reply(&[]), reply(&[("file:///trap.parquet", 99, 999)])];
    let mut iter = FfiFileMetaIter::new();

    let first = next(&mut iter, &mut replies).expect("first item");
    assert!(first.is_err(), "empty batch must surface as Err");
    assert_eq!(replies.len(), 1, "final entry must remain unconsumed");

    assert!(next(&mut iter, &mut replies).is_none(), "iterator should be terminated");
    assert!(next(&mut iter, &mut replies).is_none(), "iterator should stay terminated");
    assert_eq!(replies.len(), 1, "final entry must still be unconsumed after extra polls");
}

#[test]
fn an_array_that_does_not_arrive_ends_the_files_and_not_the_bytes() {
    let lost = || Error::generic("lost".to_string());
    let mut iter = FfiFileMetaIter::new();
    let mut replies = vec![EngineReply::Item(Err(lost())), reply(&[("file:///a", 1, 2)])];
    let first = next(&mut iter, &mut replies).expect("first item");
    assert_eq!(first.unwrap_err().to_text(), "Generic delta kernel error: lost");
    assert!(next(&mut iter, &mut replies).is_none());
    assert_eq!(replies.len(), 1);

    let first = next_bytes(EngineReply::Item(Err(lost()))).expect("first item");
    assert_eq!(first.unwrap_err().to_text(), "Generic delta kernel error: lost");
}

#[test]
fn a_batch_must_have_the_right_columns() {
    let message = |array| arrow_array_to_file_metas(&array).unwrap_err().to_text();
    assert_eq!(
        message(FileMetaArray::Other("Utf8".to_string())),
        "Generic delta kernel error: CFileMetaIterator must yield StructArray, got Utf8"
    );
    assert_eq!(
        message(FileMetaArray::Struct(batch(&[]))),
        "Generic delta kernel error: CFileMetaIterator batch must contain at least one row"
    );
    let rows = [("file:///a", 1, 2)];
    let wrong = FileBatch { location: ColumnValues::Other, ..batch(&rows) };
    assert_eq!(
        message(FileMetaArray::Struct(wrong)),
        "Generic delta kernel error: CFileMetaIterator: location column is not Utf8"
    );
    let wrong = FileBatch { last_modified: ColumnValues::Other, ..batch(&rows) };
    assert_eq!(
        message(FileMetaArray::Struct(wrong)),
        "Generic delta kernel error: CFileMetaIterator: last_modified column is not Int64"
    );
    let wrong = FileBatch { size: ColumnValues::Int64(vec![Some(1)]), ..batch(&rows) };
    assert_eq!(
        message(FileMetaArray::Struct(wrong)),
        "Generic delta kernel error: CFileMetaIterator: size column is not UInt64"
    );
    let wrong = FileBatch { size: ColumnValues::UInt64(vec![None]), ..batch(&rows) };
    assert_eq!(
        message(FileMetaArray::Struct(wrong)),
        "Generic delta kernel error: CFileMetaIterator batch must not contain null fields"
    );
}

#[test]
fn locations_are_parsed_as_urls() {
    let array = FileMetaArray::Struct(batch(&[("FILE:///x/../a b", 1, 2)]));
    let files = arrow_array_to_file_metas(&array).unwrap();
    assert_eq!(files[0].location, "file:///a%20b");

    let array = FileMetaArray::Struct(batch(&[("file:///a", 1, 2), ("no url", 1, 2)]));
    assert!(matches!(
        arrow_array_to_file_metas(&array),
        Err(Error::InvalidUrl(url::ParseError::RelativeUrlWithoutBase))
    ));
}

#[test]
fn a_location_is_a_url_or_a_directory() {
    assert_eq!(parse_location(Ok("S3://bucket/t/../u"), None).unwrap(), "s3://bucket/u");
    assert_eq!(parse_location(Ok("s3://b/t"), Some("file:///t/")).unwrap(), "s3://b/t");
    assert_eq!(parse_location(Ok("/tmp/table"), Some("FILE:///tmp/table/")).unwrap(), "file:///tmp/table/");
    for directory in [None, Some("no url")] {
        assert!(matches!(
            parse_location(Ok("not a valid url!"), directory),
            Err(Error::InvalidTableLocation(path)) if path == "not a valid url!"
        ));
    }
    let failed = parse_location(Err(Error::internal_error("no text".to_string())), None);
    assert_eq!(failed.unwrap_err().to_text(), "no text");
}

#[test]
fn a_file_is_what_was_parsed() {
    let file = file_at(Ok("file:///a".to_string()), 3, 4).unwrap();
    assert_eq!((file.location.as_str(), file.last_modified, file.size), ("file:///a", 3, 4));
    let error = file_at(Err(url::ParseError::EmptyHost), 3, 4).unwrap_err();
    assert!(matches!(error, Error::InvalidUrl(url::ParseError::EmptyHost)));
}
