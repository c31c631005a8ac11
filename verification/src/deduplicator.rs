//! Filtering the file actions of checkpoints against the files that commits have mentioned.

use vstd::prelude::*;

use crate::columns::{missing_error, type_error, ColumnData};
use crate::error::{DeltaResult, Error, ErrorView};
use crate::text::{decimal_int, push_decimal_int, same_text};

verus! {

/// What identifies a file: its path and its deletion vector.
#[derive(Debug)]
pub struct FileActionKey {
    pub path: String,
    pub dv_unique_id: Option<String>,
}

/// What a [`FileActionKey`] says.
pub struct FileKeyView {
    pub path: Seq<char>,
    pub dv_unique_id: Option<Seq<char>>,
}

impl View for FileActionKey {
    type V = FileKeyView;

    open spec fn view(&self) -> FileKeyView {
        FileKeyView {
            path: self.path@,
            dv_unique_id: match self.dv_unique_id {
                Some(id) => Some(id@),
                None => None,
            },
        }
    }
}

impl FileActionKey {
    /// The key of a file.
    pub fn new(path: &str, dv_unique_id: Option<String>) -> (r: FileActionKey)
        ensures
            r@ == (FileKeyView {
                path: path@,
                dv_unique_id: match dv_unique_id {
                    Some(id) => Some(id@),
                    None => None,
                },
            }),
    {
        FileActionKey { path: path.to_owned(), dv_unique_id }
    }

    /// Do two keys identify the same file?
    pub fn same_file(&self, other: &FileActionKey) -> (r: bool)
        ensures
            r == (self@ == other@),
    {
        let same_dv = match (&self.dv_unique_id, &other.dv_unique_id) {
            (Some(a), Some(b)) => same_text(a.as_str(), b.as_str()),
            (None, None) => true,
            _ => false,
        };
        same_dv && same_text(self.path.as_str(), other.path.as_str())
    }
}

/// A set of files. No file is in the list twice.
#[derive(Debug)]
pub struct FileKeySet {
    keys: Vec<FileActionKey>,
}

impl View for FileKeySet {
    type V = Set<FileKeyView>;

    closed spec fn view(&self) -> Set<FileKeyView> {
        Set::new(|k: FileKeyView| exists|i: int| 0 <= i < self.keys@.len() && (#[trigger] self.keys@[i])@ == k)
    }
}

impl FileKeySet {
    #[verifier::type_invariant]
    spec fn keys_are_distinct(self) -> bool {
        forall|i: int, j: int|
            0 <= i < j < self.keys@.len() ==> (#[trigger] self.keys@[i])@ != (#[trigger] self.keys@[j])@
    }

    /// The empty set.
    pub fn new() -> (r: FileKeySet)
        ensures
            r@ == Set::<FileKeyView>::empty(),
    {
        let r = FileKeySet { keys: Vec::new() };
        assert(r@ =~= Set::empty());
        r
    }

    /// Is the file in the set?
    pub fn contains(&self, key: &FileActionKey) -> (r: bool)
        ensures
            r == self@.contains(key@),
    {
        let mut i: usize = 0;
        while i < self.keys.len()
            invariant
                i <= self.keys@.len(),
                forall|k: int| 0 <= k < i ==> (#[trigger] self.keys@[k])@ != key@,
            decreases self.keys@.len() - i,
        {
            if self.keys[i].same_file(key) {
                return true;
            }
            i += 1;
        }
        false
    }

    /// Puts a file into the set, and says whether it was new.
    pub fn insert(&mut self, key: FileActionKey) -> (r: bool)
        ensures
            final(self)@ == old(self)@.insert(key@),
            r == !old(self)@.contains(key@),
    {
        if self.contains(&key) {
            assert(self@.insert(key@) =~= self@);
            return false;
        }
        proof {
            use_type_invariant(&*self);
        }
        let ghost before = self.keys@;
        let mut keys: Vec<FileActionKey> = Vec::new();
        std::mem::swap(&mut keys, &mut self.keys);
        keys.push(key);
        proof {
            assert forall|i: int, j: int| 0 <= i < j < keys@.len() implies (
            #[trigger] keys@[i])@ != (#[trigger] keys@[j])@ by {
                assert(before[i] == keys@[i]);
            }
        }
        self.keys = keys;
        proof {
            assert forall|k: FileKeyView| #[trigger]
                self@.contains(k) <==> old(self)@.insert(key@).contains(k) by {
                if old(self)@.contains(k) {
                    let i = choose|i: int| 0 <= i < before.len() && (#[trigger] before[i])@ == k;
                    assert(self.keys@[i]@ == k);
                }
                if k == key@ {
                    assert(self.keys@[before.len() as int]@ == k);
                }
                if self@.contains(k) && k != key@ {
                    let i = choose|i: int|
                        0 <= i < self.keys@.len() && (#[trigger] self.keys@[i])@ == k;
                    assert(before[i]@ == k);
                }
            }
            assert(self@ =~= old(self)@.insert(key@));
        }
        true
    }
}

/// What a deduplicator reads of a file action.
#[derive(Debug)]
pub struct FileActionInfo {
    /// The file.
    pub key: FileActionKey,
    /// The size of the file, 0 where it is not known.
    pub size: u64,
    /// Was this action an add?
    pub is_add: bool,
}

/// The id of a deletion vector: its storage type, its path or content, and its offset.
pub open spec fn dv_unique_id(
    storage_type: Seq<char>,
    path_or_inline: Seq<char>,
    offset: Option<i32>,
) -> Seq<char> {
    match offset {
        Some(offset) => storage_type + path_or_inline + "@"@ + decimal_int(offset as int),
        None => storage_type + path_or_inline,
    }
}

/// The id of the deletion vector in a row, from the three columns at `start`, or None without one.
pub open spec fn dv_in_row(columns: Seq<ColumnData>, start: int, row: int) -> Result<
    Option<Seq<char>>,
    ErrorView,
> {
    match columns[start].string_at(row) {
        None => Err(type_error("deletionVector.storageType"@)),
        Some(None) => Ok(None),
        Some(Some(storage_type)) => match columns[start + 1].string_at(row) {
            None => Err(type_error("deletionVector.pathOrInlineDv"@)),
            Some(None) => Err(missing_error("deletionVector.pathOrInlineDv"@)),
            Some(Some(path_or_inline)) => match columns[start + 2].integer_at(row) {
                None => Err(type_error("deletionVector.offset"@)),
                Some(offset) => Ok(Some(dv_unique_id(storage_type, path_or_inline, offset))),
            },
        },
    }
}

/// Do the columns from `start` to `end` have the row?
pub open spec fn have_row(columns: Seq<ColumnData>, start: int, end: int, row: int) -> bool {
    &&& 0 <= start <= end <= columns.len()
    &&& forall|i: int| start <= i < end ==> row < (#[trigger] columns[i]).rows()
}

/// Reads the id of a deletion vector out of the columns at `dv_start_index`: its storage type, its
/// path or content, and its offset.
pub fn extract_dv_unique_id(
    row: usize,
    columns: &Vec<ColumnData>,
    dv_start_index: usize,
) -> (r: DeltaResult<Option<String>>)
    requires
        have_row(columns@, dv_start_index as int, dv_start_index + 3, row as int),
    ensures
        match r {
            Ok(Some(id)) => dv_in_row(columns@, dv_start_index as int, row as int) == Ok::<
                Option<Seq<char>>,
                ErrorView,
            >(Some(id@)),
            Ok(None) => dv_in_row(columns@, dv_start_index as int, row as int) == Ok::<
                Option<Seq<char>>,
                ErrorView,
            >(None),
            Err(e) => dv_in_row(columns@, dv_start_index as int, row as int) == Err::<
                Option<Seq<char>>,
                ErrorView,
            >(e@),
        },
{
    assert(dv_start_index < columns.len());
    let storage_type = match columns[dv_start_index].get_str(row, "deletionVector.storageType") {
        Ok(Some(storage_type)) => storage_type,
        Ok(None) => {
            return Ok(None);
        },
        Err(e) => {
            return Err(e);
        },
    };
    let path_or_inline = match columns[dv_start_index + 1].get_str(
        row,
        "deletionVector.pathOrInlineDv",
    ) {
        Ok(Some(path_or_inline)) => path_or_inline,
        Ok(None) => {
            return Err(Error::missing_data("deletionVector.pathOrInlineDv"));
        },
        Err(e) => {
            return Err(e);
        },
    };
    let offset = match columns[dv_start_index + 2].get_int(row, "deletionVector.offset") {
        Ok(offset) => offset,
        Err(e) => {
            return Err(e);
        },
    };
    let mut id = storage_type.to_owned();
    id.append(path_or_inline);
    if let Some(offset) = offset {
        id.append("@");
        push_decimal_int(&mut id, offset as i64);
    }
    Ok(Some(id))
}

/// A size as a count of bytes; 0 where it is missing or negative.
pub open spec fn size_or_zero(size: Option<i64>) -> u64 {
    match size {
        Some(size) => if size >= 0 {
            size as u64
        } else {
            0
        },
        None => 0,
    }
}

/// Read-only deduplicator for checkpoints.
///
/// It filters the add actions of a checkpoint against the files that commits have mentioned, and
/// never changes that set.
#[derive(Debug)]
pub struct CheckpointDeduplicator<'a> {
    seen_file_keys: &'a FileKeySet,
    add_path_index: usize,
    add_size_index: usize,
    add_dv_start_index: usize,
}

/// What a [`CheckpointDeduplicator`] was made from.
pub struct CheckpointDeduplicatorView {
    pub seen: Set<FileKeyView>,
    pub add_path_index: int,
    pub add_size_index: int,
    pub add_dv_start_index: int,
}

impl View for CheckpointDeduplicator<'_> {
    type V = CheckpointDeduplicatorView;

    closed spec fn view(&self) -> CheckpointDeduplicatorView {
        CheckpointDeduplicatorView {
            seen: self.seen_file_keys@,
            add_path_index: self.add_path_index as int,
            add_size_index: self.add_size_index as int,
            add_dv_start_index: self.add_dv_start_index as int,
        }
    }
}

/// What is read of the add action in a row.
pub struct AddView {
    pub key: FileKeyView,
    pub size: u64,
}

impl CheckpointDeduplicatorView {
    /// Are the columns that the deduplicator reads there, and do they have the row?
    pub open spec fn readable(self, columns: Seq<ColumnData>, row: int) -> bool {
        &&& have_row(columns, self.add_path_index, self.add_path_index + 1, row)
        &&& have_row(columns, self.add_size_index, self.add_size_index + 1, row)
        &&& have_row(columns, self.add_dv_start_index, self.add_dv_start_index + 3, row)
    }

    /// The add action in a row, or None where the row is no add.
    pub open spec fn file_action(self, columns: Seq<ColumnData>, row: int) -> Result<
        Option<AddView>,
        ErrorView,
    > {
        match columns[self.add_path_index].string_at(row) {
            None => Err(type_error("add.path"@)),
            Some(None) => Ok(None),
            Some(Some(path)) => match dv_in_row(columns, self.add_dv_start_index, row) {
                Err(e) => Err(e),
                Ok(dv_unique_id) => match columns[self.add_size_index].long_at(row) {
                    None => Err(type_error("add.size"@)),
                    Some(size) => Ok(
                        Some(
                            AddView {
                                key: FileKeyView { path, dv_unique_id },
                                size: size_or_zero(size),
                            },
                        ),
                    ),
                },
            },
        }
    }
}

impl<'a> CheckpointDeduplicator<'a> {
    /// A deduplicator that reads the add action in the given columns.
    pub fn try_new(
        seen_file_keys: &'a FileKeySet,
        add_path_index: usize,
        add_size_index: usize,
        add_dv_start_index: usize,
    ) -> (r: DeltaResult<Self>)
        ensures
            r is Ok,
            r->Ok_0@ == (CheckpointDeduplicatorView {
                seen: seen_file_keys@,
                add_path_index: add_path_index as int,
                add_size_index: add_size_index as int,
                add_dv_start_index: add_dv_start_index as int,
            }),
    {
        Ok(
            CheckpointDeduplicator {
                seen_file_keys,
                add_path_index,
                add_size_index,
                add_dv_start_index,
            },
        )
    }

    /// Reads the add action in a row. Checkpoints have no removes to skip.
    pub fn extract_file_action(
        &self,
        row: usize,
        columns: &Vec<ColumnData>,
        _skip_removes: bool,
    ) -> (r: DeltaResult<Option<FileActionInfo>>)
        requires
            self@.readable(columns@, row as int),
        ensures
            match r {
                Ok(Some(info)) => info.is_add && self@.file_action(columns@, row as int) == Ok::<
                    Option<AddView>,
                    ErrorView,
                >(Some(AddView { key: info.key@, size: info.size })),
                Ok(None) => self@.file_action(columns@, row as int) == Ok::<
                    Option<AddView>,
                    ErrorView,
                >(None),
                Err(e) => self@.file_action(columns@, row as int) == Err::<
                    Option<AddView>,
                    ErrorView,
                >(e@),
            },
    {
        let path = match columns[self.add_path_index].get_str(row, "add.path") {
            Ok(Some(path)) => path,
            Ok(None) => {
                return Ok(None);
            },
            Err(e) => {
                return Err(e);
            },
        };
        let dv_unique_id = match extract_dv_unique_id(row, columns, self.add_dv_start_index) {
            Ok(dv_unique_id) => dv_unique_id,
            Err(e) => {
                return Err(e);
            },
        };
        let size = match columns[self.add_size_index].get_long(row, "add.size") {
            Ok(Some(size)) => if size >= 0 {
                size as u64
            } else {
                0
            },
            Ok(None) => 0,
            Err(e) => {
                return Err(e);
            },
        };
        Ok(
            Some(
                FileActionInfo { key: FileActionKey::new(path, dv_unique_id), size, is_add: true },
            ),
        )
    }

    /// Has the file been seen? The set does not change.
    pub fn check_and_record_seen(&mut self, key: FileActionKey) -> (r: bool)
        ensures
            r == old(self)@.seen.contains(key@),
            final(self)@ == old(self)@,
    {
        self.seen_file_keys.contains(&key)
    }

    /// Always `false`: a checkpoint never changes the seen set.
    pub fn is_log_batch(&self) -> (r: bool)
        ensures
            !r,
    {
        false
    }
}

} // verus!
