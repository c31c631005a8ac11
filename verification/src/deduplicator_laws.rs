//! Which files of a checkpoint are let through.

use vstd::prelude::*;

use crate::columns::ColumnData;
use crate::deduplicator::{
    extract_dv_unique_id, CheckpointDeduplicator, FileActionInfo, FileActionKey, FileKeySet,
};
use crate::error::DeltaResult;
use crate::text_laws::{law_decimal_notation_denotes_the_number, number_of};

verus! {

/// Two keys identify the same file exactly if they have the same path and the same deletion vector, or both none.
pub proof fn law_files_are_told_apart(
    path: &str,
    dv: Option<String>,
    key: FileActionKey,
    other: FileActionKey,
    same: bool,
)
    requires
        call_ensures(FileActionKey::new, (path, dv), key),
        call_ensures(FileActionKey::same_file, (&key, &other), same),
    ensures
        key.path@ == path@,
        key.dv_unique_id is Some <==> dv is Some,
        dv is Some ==> key.dv_unique_id->0@ == dv->0@,
        same <==> other.path@ == path@ && match (dv, other.dv_unique_id) {
            (Some(a), Some(b)) => a@ == b@,
            (None, None) => true,
            _ => false,
        },
        key@ == other@ <==> same,
{
}

/// A new set holds no file. A file that is put into a set is in it then, and so are those that were in it before; whether
/// it is new is what comes back.
pub proof fn law_seen_files(
    new: FileKeySet,
    set: &mut FileKeySet,
    key: FileActionKey,
    r: bool,
    other: FileActionKey,
    before: bool,
    after: bool,
    in_new: bool,
)
    requires
        call_ensures(FileKeySet::new, (), new),
        call_ensures(FileKeySet::insert, (set, key), r),
        call_ensures(FileKeySet::contains, (set, &other), before),
        call_ensures(FileKeySet::contains, (&*final(set), &other), after),
        call_ensures(FileKeySet::contains, (&new, &other), in_new),
    ensures
        !in_new,
        other@ == key@ ==> after && r == !before,
        other@ != key@ ==> after == before,
{
}

/// Is it the id of a deletion vector: its storage type, its path or content and, where it has an offset, an `@` and the
/// offset in decimal notation?
pub open spec fn is_dv_id(
    id: Seq<char>,
    storage: Seq<char>,
    path: Seq<char>,
    offset: Option<i32>,
) -> bool {
    let n = (storage + path).len() as int;
    match offset {
        None => id == storage + path,
        Some(offset) => {
            &&& id.len() > n + 1
            &&& id.take(n) == storage + path
            &&& id[n] == '@'
            &&& offset >= 0 ==> number_of(id.skip(n + 1)) == offset
            &&& offset < 0 ==> id[n + 1] == '-' && number_of(id.skip(n + 2)) == -offset
        },
    }
}

proof fn lemma_dv_id(storage: Seq<char>, path: Seq<char>, offset: Option<i32>)
    ensures
        is_dv_id(
            crate::deduplicator::dv_unique_id(storage, path, offset),
            storage,
            path,
            offset,
        ),
{
    if let Some(n) = offset {
        reveal_strlit("@");
        let id = crate::deduplicator::dv_unique_id(storage, path, offset);
        let start = storage + path;
        let digits = crate::text::decimal_int(n as int);
        assert(id =~= start + "@"@ + digits);
        assert(id.take(start.len() as int) =~= start);
        assert(id.skip(start.len() as int + 1) =~= digits);
        if n >= 0 {
            law_decimal_notation_denotes_the_number(n as nat);
        } else {
            law_decimal_notation_denotes_the_number((-n) as nat);
            assert(id.skip(start.len() as int + 2) =~= crate::text::decimal((-n) as nat));
        }
    }
}

/// The id of a deletion vector is made of the three columns at its place. A row without a storage type has none. One with
/// a storage type must have a path, and may have an offset.
pub proof fn law_deletion_vector_ids(
    row: usize,
    columns: Vec<ColumnData>,
    start: usize,
    r: DeltaResult<Option<String>>,
)
    requires
        call_ensures(extract_dv_unique_id, (row, &columns, start), r),
        start + 2 < columns@.len(),
        columns@[start as int] is Strings,
        columns@[start + 1] is Strings,
        columns@[start + 2] is Integers,
    ensures
        ({
            let storage = columns@[start as int]->Strings_0@[row as int];
            let path = columns@[start + 1]->Strings_0@[row as int];
            let offset = columns@[start + 2]->Integers_0@[row as int];
            &&& storage is None ==> r is Ok && r->Ok_0 is None
            &&& storage is Some && path is None ==> r is Err && r->Err_0@ is MissingData
            &&& storage is Some && path is Some ==> r is Ok && r->Ok_0 is Some && is_dv_id(
                r->Ok_0->0@,
                storage->0@,
                path->0@,
                offset,
            )
        }),
{
    let storage = columns@[start as int]->Strings_0@[row as int];
    let path = columns@[start + 1]->Strings_0@[row as int];
    if storage is Some && path is Some {
        lemma_dv_id(storage->0@, path->0@, columns@[start + 2]->Integers_0@[row as int]);
    }
}

/// A row of a checkpoint is an add where it has a path. The file of the add is known by the path and by the deletion vector
/// of the row, and has the size of the row, or zero where that is missing or negative.
pub proof fn law_adds_of_a_checkpoint(
    seen: FileKeySet,
    path_index: usize,
    size_index: usize,
    dv_index: usize,
    made: DeltaResult<CheckpointDeduplicator<'_>>,
    row: usize,
    columns: Vec<ColumnData>,
    skip_removes: bool,
    r: DeltaResult<Option<FileActionInfo>>,
    dv: DeltaResult<Option<String>>,
)
    requires
        call_ensures(
            CheckpointDeduplicator::try_new,
            (&seen, path_index, size_index, dv_index),
            made,
        ),
        call_ensures(
            CheckpointDeduplicator::extract_file_action,
            (&made->Ok_0, row, &columns, skip_removes),
            r,
        ),
        call_ensures(extract_dv_unique_id, (row, &columns, dv_index), dv),
        path_index < columns@.len(),
        size_index < columns@.len(),
        columns@[path_index as int] is Strings,
        columns@[size_index as int] is Longs,
    ensures
        made is Ok,
        ({
            let path = columns@[path_index as int]->Strings_0@[row as int];
            let size = columns@[size_index as int]->Longs_0@[row as int];
            &&& path is None ==> r is Ok && r->Ok_0 is None
            &&& path is Some && dv is Err ==> r is Err && r->Err_0@ == dv->Err_0@
            &&& path is Some && dv is Ok ==> {
                &&& r is Ok && r->Ok_0 is Some
                &&& r->Ok_0->0.is_add
                &&& r->Ok_0->0.key.path@ == path->0@
                &&& r->Ok_0->0.key.dv_unique_id is Some <==> dv->Ok_0 is Some
                &&& dv->Ok_0 is Some ==> r->Ok_0->0.key.dv_unique_id->0@ == dv->Ok_0->0@
                &&& r->Ok_0->0.size == if size is Some && size->0 >= 0 {
                    size->0 as int
                } else {
                    0
                }
            }
        }),
{
}

/// A file of a checkpoint is filtered out exactly if commits have mentioned it, and looking at it does not make it seen.
pub proof fn law_seen_files_are_filtered(
    seen: FileKeySet,
    path_index: usize,
    size_index: usize,
    dv_index: usize,
    made: DeltaResult<CheckpointDeduplicator<'_>>,
    dedup: &mut CheckpointDeduplicator<'_>,
    key: FileActionKey,
    r: bool,
    mentioned: bool,
    is_log: bool,
)
    requires
        call_ensures(
            CheckpointDeduplicator::try_new,
            (&seen, path_index, size_index, dv_index),
            made,
        ),
        dedup@ == made->Ok_0@,
        call_ensures(CheckpointDeduplicator::check_and_record_seen, (dedup, key), r),
        call_ensures(FileKeySet::contains, (&seen, &key), mentioned),
        call_ensures(CheckpointDeduplicator::is_log_batch, (&*dedup,), is_log),
    ensures
        r == mentioned,
        final(dedup)@ == old(dedup)@,
        !is_log,
{
}

} // verus!
