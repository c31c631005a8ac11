//! Iterators that an engine owns. The engine hands over one reply per call; what a reply means is decided
//! here.

use std::collections::VecDeque;

use vstd::prelude::*;

use crate::actions::{file_views, FileMeta, FileMetaView};
use crate::error::{DeltaResult, Error, ErrorView};
use crate::location::{file_at, parse_url, parsed_url};
use crate::text::{decimal, decimal_text, join2};

verus! {

/// What an engine replies when it is asked for the next item.
#[derive(Debug)]
pub enum EngineReply<T> {
    /// There are no more items.
    End,
    /// The engine failed. The text is the name of its error code.
    Failed(String),
    /// The next item.
    Item(T),
}

/// What is said of an engine's failure.
pub open spec fn engine_failure(etype: Seq<char>) -> ErrorView {
    ErrorView::Generic("Engine error during plan execution: "@ + etype)
}

/// The error for an engine's failure, given the name of the engine's error code.
pub fn engine_error_to_kernel(etype: &str) -> (r: Error)
    ensures
        r@ == engine_failure(etype@),
{
    Error::generic(join2("Engine error during plan execution: ", etype))
}

/// The next item of an iterator whose items need no decoding.
pub fn next_item<T>(reply: EngineReply<T>) -> (r: Option<DeltaResult<T>>)
    ensures
        match (reply, r) {
            (EngineReply::End, None) => true,
            (EngineReply::Failed(etype), Some(Err(e))) => e@ == engine_failure(etype@),
            (EngineReply::Item(item), Some(Ok(next))) => next == item,
            _ => false,
        },
{
    match reply {
        EngineReply::End => None,
        EngineReply::Failed(etype) => Some(Err(engine_error_to_kernel(etype.as_str()))),
        EngineReply::Item(item) => Some(Ok(item)),
    }
}

/// An array that is to hold bytes.
#[derive(Debug)]
pub enum BytesArray {
    /// Rows of bytes, some of which may be null.
    Binary(Vec<Option<Vec<u8>>>),
    /// An array of another type, with the text of the type.
    Other(String),
}

/// What a [`bytes::Bytes`] holds.
pub uninterp spec fn bytes_contents(b: &bytes::Bytes) -> Seq<u8>;

/// Calls `bytes::Bytes::copy_from_slice`, whose result holds a copy of the given bytes.
#[verifier::external_body]
fn copy_bytes(data: &[u8]) -> (r: bytes::Bytes)
    ensures
        bytes_contents(&r) == data@,
{
    bytes::Bytes::copy_from_slice(data)
}

/// Why an array does not hold bytes as it must: in one row, which is not null.
pub open spec fn bytes_error(array: BytesArray) -> Option<ErrorView> {
    match array {
        BytesArray::Other(data_type) => Some(
            ErrorView::Generic("CBytesIterator must yield BinaryArray, got "@ + data_type@),
        ),
        BytesArray::Binary(rows) => if rows@.len() != 1 {
            Some(
                ErrorView::Generic(
                    "CBytesIterator array must contain exactly one row, got "@ + decimal(
                        rows@.len(),
                    ),
                ),
            )
        } else if rows@[0] is None {
            Some(ErrorView::Generic("CBytesIterator array row must not be null"@))
        } else {
            None
        },
    }
}

/// The bytes of the only row of an array.
pub open spec fn only_row(array: BytesArray) -> Seq<u8> {
    array->Binary_0@[0]->Some_0@
}

/// The bytes that an array holds.
pub fn arrow_array_to_bytes(array: &BytesArray) -> (r: DeltaResult<bytes::Bytes>)
    ensures
        match (bytes_error(*array), r) {
            (None, Ok(b)) => bytes_contents(&b) == only_row(*array),
            (Some(error), Err(e)) => e@ == error,
            _ => false,
        },
{
    match array {
        BytesArray::Other(data_type) => Err(
            Error::generic(
                join2("CBytesIterator must yield BinaryArray, got ", data_type.as_str()),
            ),
        ),
        BytesArray::Binary(rows) => {
            if rows.len() != 1 {
                let n = decimal_text(rows.len() as u64);
                return Err(
                    Error::generic(
                        join2(
                            "CBytesIterator array must contain exactly one row, got ",
                            n.as_str(),
                        ),
                    ),
                );
            }
            match &rows[0] {
                Some(row) => Ok(copy_bytes(row.as_slice())),
                None => Err(
                    Error::generic("CBytesIterator array row must not be null".to_owned()),
                ),
            }
        },
    }
}

/// The next bytes of an iterator over bytes, whose array may have failed to arrive. A failure does not end the
/// iterator.
pub fn next_bytes(reply: EngineReply<DeltaResult<BytesArray>>) -> (r: Option<
    DeltaResult<bytes::Bytes>,
>)
    ensures
        match (reply, r) {
            (EngineReply::End, None) => true,
            (EngineReply::Failed(etype), Some(Err(e))) => e@ == engine_failure(etype@),
            (EngineReply::Item(Err(e)), Some(Err(error))) => error == e,
            (EngineReply::Item(Ok(array)), Some(next)) => match (bytes_error(array), next) {
                (None, Ok(b)) => bytes_contents(&b) == only_row(array),
                (Some(error), Err(e)) => e@ == error,
                _ => false,
            },
            _ => false,
        },
{
    match reply {
        EngineReply::End => None,
        EngineReply::Failed(etype) => Some(Err(engine_error_to_kernel(etype.as_str()))),
        EngineReply::Item(Err(e)) => Some(Err(e)),
        EngineReply::Item(Ok(array)) => Some(arrow_array_to_bytes(&array)),
    }
}

/// A column of a batch of files.
#[derive(Debug)]
pub enum ColumnValues {
    Utf8(Vec<Option<String>>),
    Int64(Vec<Option<i64>>),
    UInt64(Vec<Option<u64>>),
    /// A column of another type.
    Other,
}

/// A batch of files as a struct of three columns.
#[derive(Debug)]
pub struct FileBatch {
    /// The number of rows.
    pub len: usize,
    pub location: ColumnValues,
    pub last_modified: ColumnValues,
    pub size: ColumnValues,
}

/// An array that is to hold a batch of files.
#[derive(Debug)]
pub enum FileMetaArray {
    Struct(FileBatch),
    /// An array of another type, with the text of the type.
    Other(String),
}

impl ColumnValues {
    /// Has the column so many rows?
    pub open spec fn has_len(self, len: nat) -> bool {
        match self {
            ColumnValues::Utf8(rows) => rows@.len() == len,
            ColumnValues::Int64(rows) => rows@.len() == len,
            ColumnValues::UInt64(rows) => rows@.len() == len,
            ColumnValues::Other => true,
        }
    }
}

impl FileMetaArray {
    /// The columns of a struct have as many rows as the struct.
    pub open spec fn lengths_agree(self) -> bool {
        match self {
            FileMetaArray::Struct(batch) => batch.location.has_len(batch.len as nat)
                && batch.last_modified.has_len(batch.len as nat) && batch.size.has_len(
                batch.len as nat,
            ),
            FileMetaArray::Other(_) => true,
        }
    }
}

/// No row is null.
pub open spec fn without_nulls<T>(rows: Seq<Option<T>>) -> bool {
    forall|i: int| 0 <= i < rows.len() ==> (#[trigger] rows[i]) is Some
}

fn has_nulls<T>(rows: &Vec<Option<T>>) -> (r: bool)
    ensures
        r == !without_nulls(rows@),
{
    let mut i: usize = 0;
    while i < rows.len()
        invariant
            i <= rows@.len(),
            forall|k: int| 0 <= k < i ==> (#[trigger] rows@[k]) is Some,
        decreases rows@.len() - i,
    {
        if rows[i].is_none() {
            assert(rows@[i as int] is None);
            return true;
        }
        i += 1;
    }
    false
}

/// Why an array does not hold files as it must: at least one row, no null, and columns of the right types.
pub open spec fn batch_error(array: FileMetaArray) -> Option<ErrorView> {
    match array {
        FileMetaArray::Other(data_type) => Some(
            ErrorView::Generic("CFileMetaIterator must yield StructArray, got "@ + data_type@),
        ),
        FileMetaArray::Struct(batch) => if batch.len == 0 {
            Some(ErrorView::Generic("CFileMetaIterator batch must contain at least one row"@))
        } else if batch.location !is Utf8 {
            Some(ErrorView::Generic("CFileMetaIterator: location column is not Utf8"@))
        } else if batch.last_modified !is Int64 {
            Some(ErrorView::Generic("CFileMetaIterator: last_modified column is not Int64"@))
        } else if batch.size !is UInt64 {
            Some(ErrorView::Generic("CFileMetaIterator: size column is not UInt64"@))
        } else if !without_nulls(batch.location->Utf8_0@) || !without_nulls(
            batch.last_modified->Int64_0@,
        ) || !without_nulls(batch.size->UInt64_0@) {
            Some(ErrorView::Generic("CFileMetaIterator batch must not contain null fields"@))
        } else {
            None
        },
    }
}

/// The text in the location column of a row.
pub open spec fn row_location(batch: FileBatch, i: int) -> Seq<char> {
    batch.location->Utf8_0@[i]->Some_0@
}

/// Is it the file of a row?
pub open spec fn is_file_of_row(file: FileMetaView, batch: FileBatch, i: int) -> bool {
    &&& parsed_url(row_location(batch, i)) == Ok::<Seq<char>, url::ParseError>(file.location)
    &&& Some(file.last_modified) == batch.last_modified->Int64_0@[i]
    &&& Some(file.size) == batch.size->UInt64_0@[i]
}

/// Is it the first row whose location is no URL?
pub open spec fn first_bad_row(batch: FileBatch, i: int) -> bool {
    &&& 0 <= i < batch.len
    &&& parsed_url(row_location(batch, i)) is Err
    &&& forall|j: int| 0 <= j < i ==> parsed_url(#[trigger] row_location(batch, j)) is Ok
}

/// Are these the files of a batch?
pub open spec fn are_files_of(files: Seq<FileMetaView>, batch: FileBatch) -> bool {
    files.len() == batch.len && forall|i: int|
        0 <= i < files.len() ==> is_file_of_row(#[trigger] files[i], batch, i)
}

/// Is it what decoding the array gives?
pub open spec fn is_decoded(result: Result<Seq<FileMetaView>, ErrorView>, array: FileMetaArray) -> bool {
    match (batch_error(array), result) {
        (Some(error), Err(e)) => e == error,
        (None, Ok(files)) => are_files_of(files, array->Struct_0),
        (None, Err(e)) => exists|i: int| #[trigger]
            first_bad_row(array->Struct_0, i) && parsed_url(row_location(array->Struct_0, i))
                == Err::<Seq<char>, url::ParseError>(e->InvalidUrl_0) && e is InvalidUrl,
        _ => false,
    }
}

/// What a decoding says.
pub open spec fn decoded_view(result: DeltaResult<Vec<FileMeta>>) -> Result<
    Seq<FileMetaView>,
    ErrorView,
> {
    match result {
        Ok(files) => Ok(file_views(files@)),
        Err(e) => Err(e@),
    }
}

/// Decodes a batch of files.
pub fn arrow_array_to_file_metas(array: &FileMetaArray) -> (r: DeltaResult<Vec<FileMeta>>)
    requires
        array.lengths_agree(),
    ensures
        is_decoded(decoded_view(r), *array),
{
    let batch = match array {
        FileMetaArray::Struct(batch) => batch,
        FileMetaArray::Other(data_type) => {
            return Err(
                Error::generic(
                    join2("CFileMetaIterator must yield StructArray, got ", data_type.as_str()),
                ),
            );
        },
    };
    if batch.len == 0 {
        return Err(
            Error::generic("CFileMetaIterator batch must contain at least one row".to_owned()),
        );
    }
    let locations = match &batch.location {
        ColumnValues::Utf8(rows) => rows,
        _ => {
            return Err(
                Error::generic("CFileMetaIterator: location column is not Utf8".to_owned()),
            );
        },
    };
    let last_modifieds = match &batch.last_modified {
        ColumnValues::Int64(rows) => rows,
        _ => {
            return Err(
                Error::generic("CFileMetaIterator: last_modified column is not Int64".to_owned()),
            );
        },
    };
    let sizes = match &batch.size {
        ColumnValues::UInt64(rows) => rows,
        _ => {
            return Err(Error::generic("CFileMetaIterator: size column is not UInt64".to_owned()));
        },
    };
    if has_nulls(locations) || has_nulls(last_modifieds) || has_nulls(sizes) {
        return Err(
            Error::generic("CFileMetaIterator batch must not contain null fields".to_owned()),
        );
    }
    let mut files: Vec<FileMeta> = Vec::new();
    let mut i: usize = 0;
    while i < batch.len
        invariant
            i <= batch.len,
            *array == FileMetaArray::Struct(*batch),
            batch_error(*array) is None,
            batch.location == ColumnValues::Utf8(*locations),
            batch.last_modified == ColumnValues::Int64(*last_modifieds),
            batch.size == ColumnValues::UInt64(*sizes),
            locations@.len() == batch.len,
            last_modifieds@.len() == batch.len,
            sizes@.len() == batch.len,
            without_nulls(locations@),
            without_nulls(last_modifieds@),
            without_nulls(sizes@),
            files@.len() == i,
            forall|k: int| 0 <= k < i ==> is_file_of_row((#[trigger] files@[k])@, *batch, k),
        decreases batch.len - i,
    {
        if let (Some(location), Some(last_modified), Some(size)) = (
            &locations[i],
            &last_modifieds[i],
            &sizes[i],
        ) {
            let parsed = parse_url(location.as_str());
            match file_at(parsed, *last_modified, *size) {
                Ok(file) => {
                    files.push(file);
                },
                Err(e) => {
                    proof {
                        assert forall|j: int| 0 <= j < i implies parsed_url(
                            #[trigger] row_location(*batch, j),
                        ) is Ok by {
                            assert(is_file_of_row(files@[j]@, *batch, j));
                        }
                        assert(first_bad_row(*batch, i as int));
                    }
                    return Err(e);
                },
            }
        } else {
            assert(locations@[i as int] is Some && last_modifieds@[i as int] is Some
                && sizes@[i as int] is Some);
        }
        i += 1;
    }
    Ok(files)
}

/// An iterator over files, which an engine supplies in batches.
///
/// It ends for good when the engine has no more batches or when a batch cannot be decoded. A failure of the
/// engine does not end it.
#[derive(Debug)]
pub struct FfiFileMetaIter {
    buffer: VecDeque<FileMeta>,
    terminated: bool,
}

/// The state of a [`FfiFileMetaIter`].
pub struct FileMetaIterView {
    /// The files of the last batch that are left.
    pub buffer: Seq<FileMetaView>,
    /// Has it ended?
    pub terminated: bool,
}

/// What is to be done to get the next file.
#[derive(Debug)]
pub enum FileMetaStep {
    /// Nothing: there are no more files.
    Done,
    /// Nothing: this is the next file.
    Next(FileMeta),
    /// The engine is to be asked for a batch.
    Pull,
}

impl View for FfiFileMetaIter {
    type V = FileMetaIterView;

    closed spec fn view(&self) -> FileMetaIterView {
        FileMetaIterView { buffer: file_views(self.buffer@), terminated: self.terminated }
    }
}

impl FileMetaIterView {
    /// The state after its next file was taken.
    pub open spec fn taken(self) -> FileMetaIterView {
        FileMetaIterView { buffer: self.buffer.skip(1), ..self }
    }

    /// The state after it has ended.
    pub open spec fn ended(self) -> FileMetaIterView {
        FileMetaIterView { terminated: true, ..self }
    }

    /// Must the engine be asked for a batch?
    pub open spec fn needs_batch(self) -> bool {
        !self.terminated && self.buffer.len() == 0
    }
}

impl FfiFileMetaIter {
    /// An iterator that has no batch yet.
    pub fn new() -> (r: Self)
        ensures
            r@ == (FileMetaIterView { buffer: Seq::empty(), terminated: false }),
    {
        let r = FfiFileMetaIter { buffer: VecDeque::new(), terminated: false };
        assert(file_views(r.buffer@) =~= Seq::empty());
        r
    }

    /// The next file, as far as it is there without the engine.
    pub fn poll(&mut self) -> (r: FileMetaStep)
        ensures
            match r {
                FileMetaStep::Done => old(self)@.terminated && final(self)@ == old(self)@,
                FileMetaStep::Next(file) => !old(self)@.terminated && old(self)@.buffer.len() > 0
                    && file@ == old(self)@.buffer[0] && final(self)@ == old(self)@.taken(),
                FileMetaStep::Pull => old(self)@.needs_batch() && final(self)@ == old(self)@,
            },
    {
        if self.terminated {
            return FileMetaStep::Done;
        }
        let ghost before = self@.buffer;
        match self.buffer.pop_front() {
            Some(file) => {
                assert(file_views(self.buffer@) =~= before.skip(1));
                FileMetaStep::Next(file)
            },
            None => FileMetaStep::Pull,
        }
    }

    /// The next file, given the engine's reply when it was asked for a batch, whose array may have failed to
    /// arrive. A batch has at least one file, so the engine is asked once.
    pub fn supply(&mut self, reply: EngineReply<DeltaResult<FileMetaArray>>) -> (r: Option<
        DeltaResult<FileMeta>,
    >)
        requires
            old(self)@.needs_batch(),
            reply matches EngineReply::Item(Ok(array)) ==> array.lengths_agree(),
        ensures
            match (reply, r) {
                (EngineReply::End, None) => final(self)@ == old(self)@.ended(),
                (EngineReply::Failed(etype), Some(Err(e))) => e@ == engine_failure(etype@)
                    && final(self)@ == old(self)@,
                (EngineReply::Item(Err(e)), Some(Err(error))) => error == e && final(self)@ == old(
                    self,
                )@.ended(),
                (EngineReply::Item(Ok(array)), Some(Err(e))) => is_decoded(Err(e@), array)
                    && final(self)@ == old(self)@.ended(),
                (EngineReply::Item(Ok(array)), Some(Ok(file))) => exists|files: Seq<FileMetaView>|
                    #[trigger]
                    is_decoded(Ok(files), array) && files.len() > 0 && file@ == files[0] && final(self)@
                        == (FileMetaIterView { buffer: files, terminated: false }).taken(),
                _ => false,
            },
    {
        let array = match reply {
            EngineReply::End => {
                self.terminated = true;
                return None;
            },
            EngineReply::Failed(etype) => {
                return Some(Err(engine_error_to_kernel(etype.as_str())));
            },
            EngineReply::Item(Err(e)) => {
                self.terminated = true;
                return Some(Err(e));
            },
            EngineReply::Item(Ok(array)) => array,
        };
        match arrow_array_to_file_metas(&array) {
            Ok(files) => {
                let ghost all = file_views(files@);
                assert(is_decoded(Ok(all), array));
                let mut first: Option<FileMeta> = None;
                let mut rest: VecDeque<FileMeta> = VecDeque::new();
                for file in iter: files
                    invariant
                        iter.seq() == files@,
                        first is Some == (iter.index() > 0),
                        first is Some ==> first->Some_0 == files@[0],
                        rest@ == files@.subrange(
                            if iter.index() > 0 {
                                1
                            } else {
                                0
                            },
                            iter.index() as int,
                        ),
                {
                    if first.is_none() {
                        first = Some(file);
                    } else {
                        rest.push_back(file);
                    }
                }
                assert(file_views(rest@) =~= all.skip(1));
                self.buffer = rest;
                match first {
                    Some(file) => Some(Ok(file)),
                    None => None,
                }
            },
            Err(e) => {
                self.terminated = true;
                Some(Err(e))
            },
        }
    }
}

/// The state after so many files were taken.
pub open spec fn taken_times(state: FileMetaIterView, n: nat) -> FileMetaIterView
    decreases n,
{
    if n == 0 {
        state
    } else {
        taken_times(state, (n - 1) as nat).taken()
    }
}

/// The files of a batch come out one by one, each once and in order, and only after the last of them is the
/// engine asked again.
pub proof fn law_files_come_out_in_order(state: FileMetaIterView, n: nat)
    requires
        !state.terminated,
        n <= state.buffer.len(),
    ensures
        n < state.buffer.len() ==> taken_times(state, n).buffer[0] == state.buffer[n as int],
        taken_times(state, n).needs_batch() == (n == state.buffer.len()),
        taken_times(state, n).buffer == state.buffer.skip(n as int),
        !taken_times(state, n).terminated,
    decreases n,
{
    if n == 0 {
        assert(state.buffer.skip(0) =~= state.buffer);
    } else {
        law_files_come_out_in_order(state, (n - 1) as nat);
        assert(state.buffer.skip(n - 1).skip(1) =~= state.buffer.skip(n as int));
    }
}

} // verus!
