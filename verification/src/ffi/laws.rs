//! What crosses the border arrives as it was sent.

use vstd::prelude::*;
use vstd::utf8::{encode_utf8, valid_utf8};

use crate::actions::{FileMeta, FileMetaView, Version};
use crate::error::{DeltaResult, Error, ErrorView};
use crate::ffi::builders::{
    get_engine_builder, get_snapshot_builder, get_snapshot_builder_from, set_builder_option,
    set_builder_with_multithreaded_executor, snapshot_builder_build, snapshot_builder_set_log_tail,
    snapshot_builder_set_max_catalog_version, snapshot_builder_set_version, EngineBuilder,
    FfiSnapshotBuilderSource, MutableFfiSnapshotBuilder, SnapshotRequest,
};
use crate::ffi::iter::{
    arrow_array_to_bytes, arrow_array_to_file_metas, bytes_contents, next_bytes, next_item,
    BytesArray, EngineReply, FfiFileMetaIter, FileBatch, FileMetaArray, FileMetaStep,
};
use crate::ffi::null_type_tag::NullTypeTag;
use crate::ffi::reference_set::ReferenceSet;
use crate::ffi::slices::{
    allocate_kernel_string, string_slice_next, ExclusiveRustString, KernelBoolSlice,
    KernelBytesSlice, KernelRowIndexArray, KernelStringSlice, StringSliceIterator,
};
use crate::ffi::visit::{
    get_partition_column_count, get_partition_columns, visit_metadata,
    visit_metadata_configuration, visit_protocol, MetadataFields, ProtocolVisit, SharedMetadata,
    SharedProtocol,
};
use crate::ffi::visitor_laws::primitive_of_tag;
use crate::location::parsed_url;
use crate::schema::{DataType, PrimitiveType};

verus! {

// === Engines and snapshots that are set up ===

/// A builder of engines begins with its location, without options and threads, or with the error of the location.
pub proof fn law_new_engine_builder(url: DeltaResult<String>, r: DeltaResult<EngineBuilder>)
    requires
        call_ensures(get_engine_builder, (url,), r),
    ensures
        r is Ok <==> url is Ok,
        url is Err ==> r->Err_0 == url->Err_0,
        url is Ok ==> r->Ok_0.url@ == url->Ok_0@ && r->Ok_0.multithreaded_executor_config is None,
        url is Ok ==> forall|k: Seq<char>| !#[trigger] r->Ok_0.options@.contains_key(k),
{
}

/// Setting an option sets it and leaves the others, the location and the threads as they are. With a key or a value that
/// is no text nothing changes.
pub proof fn law_option_is_set(
    builder: &mut EngineBuilder,
    key: DeltaResult<String>,
    value: DeltaResult<String>,
    r: DeltaResult<bool>,
    other: Seq<char>,
)
    requires
        call_ensures(set_builder_option, (builder, key, value), r),
    ensures
        r is Ok <==> key is Ok && value is Ok,
        r is Ok ==> r->Ok_0,
        key is Err ==> r->Err_0 == key->Err_0,
        key is Ok && value is Err ==> r->Err_0 == value->Err_0,
        r is Ok ==> {
            &&& final(builder).options@.contains_key(key->Ok_0@)
            &&& final(builder).options@[key->Ok_0@]@ == value->Ok_0@
        },
        r is Err || other != key->Ok_0@ ==> {
            &&& final(builder).options@.contains_key(other) <==> old(builder).options@.contains_key(
                other,
            )
            &&& old(builder).options@.contains_key(other) ==> final(builder).options@[other]@ == old(
                builder,
            ).options@[other]@
        },
        final(builder).url@ == old(builder).url@,
        final(builder).multithreaded_executor_config == old(builder).multithreaded_executor_config,
{
}

/// Setting the threads sets both numbers, of which zero stands for none, and leaves the rest as it is.
pub proof fn law_threads_are_set(
    builder: &mut EngineBuilder,
    workers: usize,
    blocking: usize,
)
    requires
        call_ensures(set_builder_with_multithreaded_executor, (builder, workers, blocking), ()),
    ensures
        final(builder).multithreaded_executor_config is Some,
        ({
            let config = final(builder).multithreaded_executor_config->0;
            &&& config.worker_threads is None <==> workers == 0
            &&& config.worker_threads is Some ==> config.worker_threads->0 == workers
            &&& config.max_blocking_threads is None <==> blocking == 0
            &&& config.max_blocking_threads is Some ==> config.max_blocking_threads->0 == blocking
        }),
        final(builder).url@ == old(builder).url@,
        final(builder).options@ == old(builder).options@,
{
}

/// A new builder of snapshots asks for nothing but its source: the table at the location, or the earlier snapshot.
pub proof fn law_new_snapshot_builders<S, L>(
    url: DeltaResult<String>,
    r: DeltaResult<MutableFfiSnapshotBuilder<S, L>>,
    earlier: S,
    from: MutableFfiSnapshotBuilder<S, L>,
    request: SnapshotRequest<S, L>,
    later: SnapshotRequest<S, L>,
)
    requires
        call_ensures(get_snapshot_builder::<S, L>, (url,), r),
        call_ensures(get_snapshot_builder_from::<S, L>, (earlier,), from),
        r is Ok ==> call_ensures(snapshot_builder_build::<S, L>, (r->Ok_0,), request),
        call_ensures(snapshot_builder_build::<S, L>, (from,), later),
    ensures
        r is Ok <==> url is Ok,
        url is Err ==> r->Err_0 == url->Err_0,
        url is Ok ==> {
            &&& request.source == FfiSnapshotBuilderSource::<S>::TableRoot(url->Ok_0)
            &&& request.at_version is None
            &&& request.with_log_tail is None
            &&& request.with_max_catalog_version is None
        },
        later.source == FfiSnapshotBuilderSource::ExistingSnapshot(earlier),
        later.at_version is None,
        later.with_log_tail is None,
        later.with_max_catalog_version is None,
{
}

/// What is set on a snapshot builder is asked for when it is built, and the rest is asked for as before. An empty log tail
/// is not asked for.
pub proof fn law_snapshot_asks_for_what_was_set<S, L>(
    builder: &mut MutableFfiSnapshotBuilder<S, L>,
    version: Version,
    tail: DeltaResult<Vec<L>>,
    r: DeltaResult<bool>,
    before: SnapshotRequest<S, L>,
    after: SnapshotRequest<S, L>,
)
    requires
        call_ensures(snapshot_builder_build::<S, L>, (*builder,), before),
        call_ensures(snapshot_builder_build::<S, L>, (*final(builder),), after),
    ensures
        call_ensures(snapshot_builder_set_version::<S, L>, (builder, version), ()) ==> {
            &&& after.at_version == Some(version)
            &&& after.source == before.source
            &&& after.with_log_tail == before.with_log_tail
            &&& after.with_max_catalog_version == before.with_max_catalog_version
        },
        call_ensures(snapshot_builder_set_max_catalog_version::<S, L>, (builder, version), ()) ==> {
            &&& after.with_max_catalog_version == Some(version)
            &&& after.source == before.source
            &&& after.with_log_tail == before.with_log_tail
            &&& after.at_version == before.at_version
        },
        call_ensures(snapshot_builder_set_log_tail::<S, L>, (builder, tail), r) ==> {
            &&& r is Ok <==> tail is Ok
            &&& r is Ok ==> r->Ok_0
            &&& tail is Err ==> r->Err_0 == tail->Err_0 && after.with_log_tail
                == before.with_log_tail
            &&& tail is Ok && tail->Ok_0@.len() > 0 ==> after.with_log_tail == Some(tail->Ok_0)
            &&& tail is Ok && tail->Ok_0@.len() == 0 ==> after.with_log_tail is None
            &&& after.source == before.source
            &&& after.at_version == before.at_version
            &&& after.with_max_catalog_version == before.with_max_catalog_version
        },
{
}

// === Visitors of protocol and metadata ===

/// The names in an optional list; none, where there is no list.
pub open spec fn names_in(features: &Option<Vec<String>>) -> Seq<String> {
    match *features {
        Some(names) => names@,
        None => Seq::empty(),
    }
}

/// Are the features those for readers, in order and marked as such, and behind them those for writers?
pub open spec fn are_told(
    features: Seq<(bool, String)>,
    readers: &Option<Vec<String>>,
    writers: &Option<Vec<String>>,
) -> bool {
    let readers = names_in(readers);
    let writers = names_in(writers);
    &&& features.len() == readers.len() + writers.len()
    &&& forall|i: int|
        0 <= i < readers.len() ==> (#[trigger] features[i]).0 && features[i].1@ == readers[i]@
    &&& forall|i: int|
        readers.len() <= i < features.len() ==> !(#[trigger] features[i]).0 && features[i].1@
            == writers[i - readers.len()]@
}

proof fn lemma_are_told(
    features: Seq<(bool, String)>,
    readers: &Option<Vec<String>>,
    writers: &Option<Vec<String>>,
)
    requires
        crate::ffi::visit::feature_views(features) == crate::ffi::visit::marked(*readers, true)
            + crate::ffi::visit::marked(*writers, false),
    ensures
        are_told(features, readers, writers),
{
    let a = crate::ffi::visit::marked(*readers, true);
    let b = crate::ffi::visit::marked(*writers, false);
    let views = crate::ffi::visit::feature_views(features);
    assert(views.len() == features.len());
    assert((a + b).len() == a.len() + b.len());
    assert(forall|i: int| 0 <= i < features.len() ==> views[i] == ((#[trigger] features[i]).0, features[i].1@));
}

/// A visitor learns of the versions and of every feature: first those for readers, then those for writers, each in order.
pub proof fn law_protocol_visit(protocol: SharedProtocol, r: ProtocolVisit)
    requires
        call_ensures(visit_protocol, (&protocol,), r),
    ensures
        r.min_reader_version == protocol.0.min_reader_version,
        r.min_writer_version == protocol.0.min_writer_version,
        are_told(r.features@, &protocol.0.reader_features, &protocol.0.writer_features),
{
    lemma_are_told(r.features@, &protocol.0.reader_features, &protocol.0.writer_features);
}

/// A visitor learns of each part of the metadata; a part that is not there is absent.
pub proof fn law_metadata_visit(metadata: SharedMetadata, r: MetadataFields<'_>)
    requires
        call_ensures(visit_metadata, (&metadata,), r),
    ensures
        r.id@ == metadata.0.id@,
        match metadata.0.name {
            Some(name) => r.name is Present && r.name->Present_0@ == name@,
            None => r.name is Absent,
        },
        match metadata.0.description {
            Some(text) => r.description is Present && r.description->Present_0@ == text@,
            None => r.description is Absent,
        },
        r.format_provider@ == metadata.0.format.provider@,
        match metadata.0.created_time {
            Some(time) => r.has_created_time && r.created_time_ms == time,
            None => !r.has_created_time && r.created_time_ms == 0,
        },
{
}

/// A visitor learns of every key of the configuration once, with its value, and of no other.
pub proof fn law_configuration_visit(
    metadata: SharedMetadata,
    r: &Vec<(String, String)>,
    key: Seq<char>,
)
    requires
        call_ensures(visit_metadata_configuration, (&metadata,), r),
    ensures
        metadata.0.configuration@.contains_key(key) <==> exists|i: int|
            0 <= i < r@.len() && (#[trigger] r@[i]).0@ == key,
        forall|i: int|
            0 <= i < r@.len() ==> metadata.0.configuration@.contains_key((#[trigger] r@[i]).0@)
                && metadata.0.configuration@[r@[i].0@]@ == r@[i].1@,
        forall|i: int, j: int|
            0 <= i < j < r@.len() ==> (#[trigger] r@[i]).0@ != (#[trigger] r@[j]).0@,
{
    assert forall|i: int| 0 <= i < r@.len() implies metadata.0.configuration@.contains_key(
        (#[trigger] r@[i]).0@,
    ) && metadata.0.configuration@[r@[i].0@]@ == r@[i].1@ by {
        crate::string_map::lemma_entries_map_contains(r@, i);
    }
    if metadata.0.configuration@.contains_key(key) {
        let i = crate::string_map::lemma_entries_map_index(r@, key);
        assert(r@[i].0@ == key);
    }
}

/// The partition columns come out one by one, in order, as many as there are.
pub proof fn law_partition_columns(
    metadata: SharedMetadata,
    count: usize,
    names: StringSliceIterator,
)
    requires
        call_ensures(get_partition_column_count, (&metadata,), count),
        call_ensures(get_partition_columns, (&metadata,), names),
    ensures
        count == metadata.0.partition_columns@.len(),
        names@.len() == count,
        forall|i: int|
            0 <= i < count ==> #[trigger] names@[i] == metadata.0.partition_columns@[i]@,
{
}

/// An iterator over strings hands out the strings that it was made of, the first first, and then no more.
pub proof fn law_strings_come_out_in_order(
    strings: Vec<String>,
    made: StringSliceIterator,
    data: &mut StringSliceIterator,
    r: Option<String>,
)
    requires
        call_ensures(StringSliceIterator::new, (strings,), made),
        call_ensures(string_slice_next, (data,), r),
    ensures
        made@.len() == strings@.len(),
        forall|i: int| 0 <= i < strings@.len() ==> #[trigger] made@[i] == strings@[i]@,
        r is None <==> old(data)@.len() == 0,
        r is Some ==> r->0@ == old(data)@[0] && final(data)@.len() == old(data)@.len() - 1,
        r is Some ==> forall|i: int|
            0 <= i < final(data)@.len() ==> #[trigger] final(data)@[i] == old(data)@[i + 1],
        r is None ==> final(data)@.len() == 0,
{
}

// === Strings, bytes and optional values ===

/// A string that is passed as bytes is the same string on the other side, and bytes are a string exactly if they are
/// valid.
pub proof fn law_strings_pass_the_border(
    source: &str,
    passed: KernelStringSlice<'_>,
    slice: KernelStringSlice<'_>,
    text: DeltaResult<&str>,
    owned: DeltaResult<String>,
    held: DeltaResult<ExclusiveRustString>,
)
    requires
        call_ensures(KernelStringSlice::new, (source,), passed),
        call_ensures(KernelStringSlice::try_str, (&slice,), text),
        call_ensures(KernelStringSlice::try_string, (&slice,), owned),
        call_ensures(allocate_kernel_string, (&slice,), held),
    ensures
        passed@ == encode_utf8(source@),
        text is Ok <==> valid_utf8(slice@),
        owned is Ok <==> valid_utf8(slice@),
        held is Ok <==> valid_utf8(slice@),
        slice@ == passed@ ==> text is Ok && text->Ok_0@ == source@,
        text is Ok ==> encode_utf8(text->Ok_0@) == slice@,
        text is Ok ==> owned->Ok_0@ == text->Ok_0@ && held->Ok_0.value@ == text->Ok_0@,
        text is Err ==> text->Err_0@ is InvalidUtf8,
{
    vstd::utf8::encode_utf8_valid_utf8(source@);
    vstd::utf8::encode_utf8_decode_utf8(source@);
    if valid_utf8(slice@) {
        vstd::utf8::decode_utf8_encode_utf8(slice@);
    }
}

/// Bytes, truth values and row indexes are passed as they are.
pub proof fn law_slices_pass_the_border(
    source: &[u8],
    passed: KernelBytesSlice<'_>,
    read: &[u8],
    flags: KernelBoolSlice,
    flag_list: Vec<bool>,
    flag_slice: &[bool],
    indexes: KernelRowIndexArray,
    index_list: Vec<u64>,
)
    requires
        call_ensures(KernelBytesSlice::new, (source,), passed),
        call_ensures(KernelBytesSlice::as_slice, (&passed,), read),
        call_ensures(KernelBoolSlice::into_vec, (flags,), flag_list),
        call_ensures(KernelBoolSlice::as_ref, (&flags,), flag_slice),
        call_ensures(KernelRowIndexArray::into_vec, (indexes,), index_list),
    ensures
        read@ == source@,
        flag_list@ == flags.values@,
        flag_slice@ == flags.values@,
        index_list@ == indexes.values@,
{
}

// === Typed nulls ===

/// The tag of a primitive type is its place in the order of the types; a decimal has its own, with its precision and scale,
/// and all other types share one.
pub proof fn law_types_have_tags(data_type: DataType, r: (NullTypeTag, u8, u8), code: u8)
    requires
        call_ensures(NullTypeTag::from_data_type, (&data_type,), r),
        call_ensures(NullTypeTag::to_u8, (r.0,), code),
    ensures
        match data_type {
            DataType::Primitive(PrimitiveType::Decimal(t)) => code == 12 && r.1
                == t.spec_precision() && r.2 == t.spec_scale(),
            DataType::Primitive(PrimitiveType::Void) => code == 255 && r.1 == 0 && r.2 == 0,
            DataType::Primitive(p) => code <= 11 && primitive_of_tag(code as int) == p && r.1 == 0
                && r.2 == 0,
            _ => code == 255 && r.1 == 0 && r.2 == 0,
        },
{
}

/// A tag leads back to the type that has it. Numbers without a tag, and the tag that types share, lead to none.
pub proof fn law_tags_lead_back_to_types(
    code: u8,
    tag: DeltaResult<NullTypeTag>,
    precision: u8,
    scale: u8,
    r: DeltaResult<DataType>,
)
    requires
        call_ensures(NullTypeTag::try_from, (code,), tag),
        tag is Ok ==> call_ensures(NullTypeTag::to_data_type, (tag->Ok_0, precision, scale), r),
    ensures
        tag is Ok <==> code <= 12 || code == 255,
        code <= 11 ==> r is Ok && r->Ok_0 == DataType::Primitive(primitive_of_tag(code as int)),
        code == 12 ==> (r is Ok <==> 1 <= precision <= 38 && scale <= precision),
        code == 12 && r is Ok ==> (r->Ok_0 matches DataType::Primitive(PrimitiveType::Decimal(t))
            && t.spec_precision() == precision && t.spec_scale() == scale),
        code == 255 ==> r is Err,
{
}

// === Values handed out by identifier ===

/// A value gets an identifier that no value has, and is found under it until it is taken out, once. Others stay.
pub proof fn law_values_are_kept_by_identifier<T>(
    set: &mut ReferenceSet<T>,
    value: T,
    id: usize,
    taken: Option<T>,
    other: usize,
)
    requires
        set@.valid(),
        set@.has_room(1),
    ensures
        call_ensures(ReferenceSet::<T>::insert, (set, value), id) ==> {
            &&& id != 0
            &&& !old(set)@.map.contains_key(id)
            &&& final(set)@.map.contains_key(id)
            &&& final(set)@.map[id] == value
            &&& other != id ==> (final(set)@.map.contains_key(other) <==> old(
                set,
            )@.map.contains_key(other))
            &&& other != id && old(set)@.map.contains_key(other) ==> final(set)@.map[other] == old(
                set,
            )@.map[other]
        },
        call_ensures(ReferenceSet::<T>::take, (set, id), taken) ==> {
            &&& taken is Some <==> old(set)@.map.contains_key(id)
            &&& taken is Some ==> taken->0 == old(set)@.map[id]
            &&& !final(set)@.map.contains_key(id)
            &&& other != id ==> (final(set)@.map.contains_key(other) <==> old(
                set,
            )@.map.contains_key(other))
            &&& other != id && old(set)@.map.contains_key(other) ==> final(set)@.map[other] == old(
                set,
            )@.map[other]
        },
{
}

/// A new set holds nothing, and a set says what it holds.
pub proof fn law_sets_say_what_they_hold<T>(
    new: ReferenceSet<T>,
    set: ReferenceSet<T>,
    id: usize,
    there: bool,
    len: usize,
    empty: bool,
)
    requires
        call_ensures(ReferenceSet::<T>::new, (), new),
        call_ensures(ReferenceSet::<T>::contains, (&set, id), there),
        call_ensures(ReferenceSet::<T>::len, (&set,), len),
        call_ensures(ReferenceSet::<T>::is_empty, (&set,), empty),
    ensures
        !new@.map.contains_key(id),
        new@.next_id == 1,
        there <==> set@.map.contains_key(id),
        len == set@.map.dom().len(),
        empty <==> len == 0,
{
}

// === Replies of an engine ===

/// The end of an engine's items is the end, a failure is an error that names it, and an item is the item.
pub proof fn law_replies_are_passed_on<T>(reply: EngineReply<T>, r: Option<DeltaResult<T>>)
    requires
        call_ensures(next_item::<T>, (reply,), r),
    ensures
        match reply {
            EngineReply::End => r is None,
            EngineReply::Failed(kind) => r is Some && r->0 is Err && r->0->Err_0@
                == ErrorView::Generic("Engine error during plan execution: "@ + kind@),
            EngineReply::Item(item) => r == Some(Ok::<T, Error>(item)),
        },
{
}

/// The bytes of an array with one row that is not null are those of the row. Any other array is an error.
pub proof fn law_bytes_are_those_of_the_row(array: BytesArray, r: DeltaResult<bytes::Bytes>)
    requires
        call_ensures(arrow_array_to_bytes, (&array,), r),
    ensures
        match array {
            BytesArray::Binary(rows) => {
                &&& r is Ok <==> rows@.len() == 1 && rows@[0] is Some
                &&& r is Ok ==> bytes_contents(&r->Ok_0) == rows@[0]->0@
            },
            BytesArray::Other(_) => r is Err,
        },
        r is Err ==> r->Err_0@ is Generic,
{
}

/// Bytes are iterated over until the end. Neither a failure nor an array that cannot be read ends them.
pub proof fn law_bytes_are_iterated(
    reply: EngineReply<DeltaResult<BytesArray>>,
    r: Option<DeltaResult<bytes::Bytes>>,
)
    requires
        call_ensures(next_bytes, (reply,), r),
    ensures
        r is None <==> reply is End,
        match reply {
            EngineReply::End => true,
            EngineReply::Failed(kind) => r->0 is Err && r->0->Err_0@ == ErrorView::Generic(
                "Engine error during plan execution: "@ + kind@,
            ),
            EngineReply::Item(Err(e)) => r->0 == Err::<bytes::Bytes, Error>(e),
            EngineReply::Item(Ok(BytesArray::Binary(rows))) => {
                &&& r->0 is Ok <==> rows@.len() == 1 && rows@[0] is Some
                &&& r->0 is Ok ==> bytes_contents(&r->0->Ok_0) == rows@[0]->0@
            },
            EngineReply::Item(Ok(BytesArray::Other(_))) => r->0 is Err,
        },
{
}

/// Can the batch be decoded: has it rows, are its columns of the right types, and is nothing in them null?
pub open spec fn has_files(batch: FileBatch) -> bool {
    &&& batch.len > 0
    &&& batch.location is Utf8
    &&& batch.last_modified is Int64
    &&& batch.size is UInt64
    &&& forall|i: int|
        0 <= i < batch.location->Utf8_0@.len() ==> #[trigger] batch.location->Utf8_0@[i] is Some
    &&& forall|i: int|
        0 <= i < batch.last_modified->Int64_0@.len()
            ==> #[trigger] batch.last_modified->Int64_0@[i] is Some
    &&& forall|i: int|
        0 <= i < batch.size->UInt64_0@.len() ==> #[trigger] batch.size->UInt64_0@[i] is Some
}

/// Is it the file that a row describes: at the URL of the row, with its time and its size?
pub open spec fn is_described(file: FileMetaView, batch: FileBatch, i: int) -> bool {
    &&& parsed_url(batch.location->Utf8_0@[i]->0@) == Ok::<Seq<char>, url::ParseError>(
        file.location,
    )
    &&& file.last_modified == batch.last_modified->Int64_0@[i]->0
    &&& file.size == batch.size->UInt64_0@[i]->0
}

/// The files of a batch are those that its rows describe, one for each row, in order. There are some exactly if the batch
/// can be decoded and every location in it is a URL.
pub proof fn law_files_are_those_of_the_rows(array: FileMetaArray, r: DeltaResult<Vec<FileMeta>>)
    requires
        call_ensures(arrow_array_to_file_metas, (&array,), r),
    ensures
        match array {
            FileMetaArray::Struct(batch) => {
                &&& r is Ok <==> has_files(batch) && forall|i: int|
                    0 <= i < batch.len ==> parsed_url(
                        (#[trigger] batch.location->Utf8_0@[i])->0@,
                    ) is Ok
                &&& r is Ok ==> r->Ok_0@.len() == batch.len && forall|i: int|
                    0 <= i < batch.len ==> is_described((#[trigger] r->Ok_0@[i])@, batch, i)
                &&& has_files(batch) && r is Err ==> r->Err_0@ is InvalidUrl
            },
            FileMetaArray::Other(_) => r is Err,
        },
{
    if let FileMetaArray::Struct(batch) = array {
        assert(has_files(batch) <==> crate::ffi::iter::batch_error(array) is None);
        if has_files(batch) {
            if r is Ok {
                let views = crate::actions::file_views(r->Ok_0@);
                assert(crate::ffi::iter::are_files_of(views, batch));
                assert forall|i: int| 0 <= i < batch.len implies is_described(
                    (#[trigger] r->Ok_0@[i])@,
                    batch,
                    i,
                ) by {
                    assert(crate::ffi::iter::is_file_of_row(views[i], batch, i));
                }
                assert forall|i: int| 0 <= i < batch.len implies parsed_url(
                    (#[trigger] batch.location->Utf8_0@[i])->0@,
                ) is Ok by {
                    assert(is_described(r->Ok_0@[i]@, batch, i));
                }
            } else {
                let i = choose|i: int| #[trigger]
                    crate::ffi::iter::first_bad_row(batch, i);
                assert(parsed_url(batch.location->Utf8_0@[i]->0@) is Err);
            }
        }
    }
}

/// Polling hands out the next file of the buffer, asks for a batch where there is none, and does nothing after the end.
pub proof fn law_polling(iter: &mut FfiFileMetaIter, r: FileMetaStep)
    requires
        call_ensures(FfiFileMetaIter::poll, (iter,), r),
    ensures
        r is Done <==> old(iter)@.terminated,
        r is Pull <==> !old(iter)@.terminated && old(iter)@.buffer.len() == 0,
        r is Next ==> r->Next_0@ == old(iter)@.buffer[0] && final(iter)@.buffer.len() == old(
            iter,
        )@.buffer.len() - 1,
        r is Next ==> forall|i: int|
            0 <= i < final(iter)@.buffer.len() ==> #[trigger] final(iter)@.buffer[i] == old(
                iter,
            )@.buffer[i + 1],
        !(r is Next) ==> final(iter)@.buffer == old(iter)@.buffer,
        final(iter)@.terminated == old(iter)@.terminated,
{
}

/// A batch that arrives gives its first file, and its other files wait in order. The end, a batch that could not be had and
/// one that cannot be decoded end the iteration; a failure of the engine does not.
pub proof fn law_supplying(
    iter: &mut FfiFileMetaIter,
    reply: EngineReply<DeltaResult<FileMetaArray>>,
    r: Option<DeltaResult<FileMeta>>,
)
    requires
        call_ensures(FfiFileMetaIter::supply, (iter, reply), r),
        iter@.needs_batch(),
    ensures
        r is None <==> reply is End,
        final(iter)@.terminated <==> reply is End || (reply is Item && r->0 is Err),
        reply is Failed ==> r->0 is Err && final(iter)@ == old(iter)@,
        (reply matches EngineReply::Item(Err(e)) ==> r->0 == Err::<FileMeta, Error>(e)),
        (reply matches EngineReply::Item(Ok(FileMetaArray::Struct(batch))) ==> r->0 is Ok ==> {
            &&& has_files(batch)
            &&& is_described(r->0->Ok_0@, batch, 0)
            &&& final(iter)@.buffer.len() == batch.len - 1
            &&& forall|i: int|
                0 <= i < batch.len - 1 ==> is_described(
                    #[trigger] final(iter)@.buffer[i],
                    batch,
                    i + 1,
                )
        }),
        (reply matches EngineReply::Item(Ok(FileMetaArray::Struct(batch))) ==> has_files(batch)
            && (forall|i: int|
            0 <= i < batch.len ==> parsed_url((#[trigger] batch.location->Utf8_0@[i])->0@) is Ok)
            ==> r->0 is Ok),
        (reply matches EngineReply::Item(Ok(FileMetaArray::Other(_))) ==> r->0 is Err),
{
    if let EngineReply::Item(Ok(array)) = reply {
        if let FileMetaArray::Struct(batch) = array {
            assert(has_files(batch) <==> crate::ffi::iter::batch_error(array) is None);
            if r->0 is Ok {
                let files = choose|files: Seq<FileMetaView>| #[trigger]
                    crate::ffi::iter::is_decoded(Ok(files), array) && files.len() > 0
                        && r->0->Ok_0@ == files[0] && final(iter)@
                        == (crate::ffi::iter::FileMetaIterView {
                        buffer: files,
                        terminated: false,
                    }).taken();
                assert(crate::ffi::iter::is_file_of_row(files[0], batch, 0));
                assert forall|i: int| 0 <= i < batch.len - 1 implies is_described(
                    #[trigger] final(iter)@.buffer[i],
                    batch,
                    i + 1,
                ) by {
                    assert(final(iter)@.buffer[i] == files[i + 1]);
                    assert(crate::ffi::iter::is_file_of_row(files[i + 1], batch, i + 1));
                }
            } else if has_files(batch) {
                let i = choose|i: int| #[trigger] crate::ffi::iter::first_bad_row(batch, i);
                assert(parsed_url(batch.location->Utf8_0@[i]->0@) is Err);
            }
        }
    }
}

/// Bytes are a string exactly where they are the encoding of one, and then they are that string. Empty slices hold nothing.
pub proof fn law_bytes_are_strings(
    text: Seq<char>,
    bytes: &[u8],
    slice: KernelStringSlice<'_>,
    r: DeltaResult<&str>,
    owned: DeltaResult<String>,
    flags: KernelBoolSlice,
    rows: crate::ffi::slices::KernelRowIndexArray,
)
    requires
        call_ensures(KernelStringSlice::from_bytes, (bytes,), slice),
        call_ensures(KernelStringSlice::try_str, (&slice,), r),
        call_ensures(KernelStringSlice::try_string, (&slice,), owned),
        call_ensures(KernelBoolSlice::empty, (), flags),
        call_ensures(crate::ffi::slices::KernelRowIndexArray::empty, (), rows),
    ensures
        bytes@ == vstd::utf8::encode_utf8(text) ==> r is Ok && r->Ok_0@ == text && owned is Ok
            && owned->Ok_0@ == text,
        r is Err ==> r->Err_0 is InvalidUtf8 && owned is Err && owned->Err_0 is InvalidUtf8,
        flags.values@.len() == 0,
        rows.values@.len() == 0,
{
    crate::ffi::slices::law_strings_arrive_unchanged(text);
}

/// A failure of the engine names the engine's error.
pub proof fn law_engine_failure_names_the_error(etype: &str, r: Error)
    requires
        call_ensures(crate::ffi::iter::engine_error_to_kernel, (etype,), r),
    ensures
        r is Generic,
        r->Generic_0@ == "Engine error during plan execution: "@ + etype@,
{
}

} // verus!
