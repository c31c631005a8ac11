//! Views leave nothing out: values with the same view are the same in each of their parts.

use vstd::prelude::*;

use crate::actions::{file_views, FileMeta, Metadata, Protocol};
use crate::crc::{CrcDelta, FileSizeHistogram, FileStatsDelta, FileStatsState};
use crate::crc_replay::CrcReplayAccumulator;
use crate::expressions::ColumnName;
use crate::schema::{DataType, MetadataValue, StructField};
use crate::string_map::text_map;
use crate::text::texts;

verus! {

/// Do two lists hold the same strings, in the same order?
pub open spec fn same_strings(a: Seq<String>, b: Seq<String>) -> bool {
    &&& a.len() == b.len()
    &&& forall|i: int| 0 <= i < a.len() ==> (#[trigger] a[i])@ == b[i]@
}

/// Do two optional lists hold the same strings?
pub open spec fn same_optional_strings(a: Option<Vec<String>>, b: Option<Vec<String>>) -> bool {
    match (a, b) {
        (Some(a), Some(b)) => same_strings(a@, b@),
        (None, None) => true,
        _ => false,
    }
}

/// Are two optional strings the same?
pub open spec fn same_optional_string(a: Option<String>, b: Option<String>) -> bool {
    match (a, b) {
        (Some(a), Some(b)) => a@ == b@,
        (None, None) => true,
        _ => false,
    }
}

/// Do two maps hold the same strings under the same keys?
pub open spec fn same_string_map(a: Map<Seq<char>, String>, b: Map<Seq<char>, String>) -> bool {
    &&& forall|k: Seq<char>| #[trigger] a.contains_key(k) <==> #[trigger] b.contains_key(k)
    &&& forall|k: Seq<char>| #[trigger] a.contains_key(k) ==> a[k]@ == b[k]@
}

/// Do two protocols ask for the same?
pub open spec fn same_protocol(a: Protocol, b: Protocol) -> bool {
    &&& a.min_reader_version == b.min_reader_version
    &&& a.min_writer_version == b.min_writer_version
    &&& same_optional_strings(a.reader_features, b.reader_features)
    &&& same_optional_strings(a.writer_features, b.writer_features)
}

/// Do two descriptions of a table say the same?
pub open spec fn same_metadata(a: Metadata, b: Metadata) -> bool {
    &&& a.id@ == b.id@
    &&& same_optional_string(a.name, b.name)
    &&& same_optional_string(a.description, b.description)
    &&& a.format.provider@ == b.format.provider@
    &&& same_string_map(a.format.options@, b.format.options@)
    &&& a.schema_string@ == b.schema_string@
    &&& same_strings(a.partition_columns@, b.partition_columns@)
    &&& a.created_time == b.created_time
    &&& same_string_map(a.configuration@, b.configuration@)
}

/// Lists with the same texts hold the same strings.
pub proof fn law_texts_tell_strings(a: Seq<String>, b: Seq<String>)
    ensures
        texts(a) == texts(b) <==> same_strings(a, b),
{
    if texts(a) == texts(b) {
        assert(texts(a).len() == texts(b).len());
        assert forall|i: int| 0 <= i < a.len() implies (#[trigger] a[i])@ == b[i]@ by {
            assert(texts(a)[i] == texts(b)[i]);
        }
    }
    if same_strings(a, b) {
        assert(texts(a) =~= texts(b));
    }
}

/// Maps with the same texts hold the same strings.
pub proof fn law_text_map_tells_strings(a: Map<Seq<char>, String>, b: Map<Seq<char>, String>)
    ensures
        text_map(a) == text_map(b) <==> same_string_map(a, b),
{
    if text_map(a) == text_map(b) {
        assert forall|k: Seq<char>| #[trigger] a.contains_key(k) <==> #[trigger] b.contains_key(k) by {
            assert(text_map(a).contains_key(k) == text_map(b).contains_key(k));
        }
        assert forall|k: Seq<char>| #[trigger] a.contains_key(k) implies a[k]@ == b[k]@ by {
            assert(text_map(a)[k] == text_map(b)[k]);
        }
    }
    if same_string_map(a, b) {
        assert(text_map(a) =~= text_map(b));
    }
}

/// Protocols with the same view ask for the same.
pub proof fn law_view_tells_protocol(a: Protocol, b: Protocol)
    ensures
        a@ == b@ <==> same_protocol(a, b),
{
    if let (Some(x), Some(y)) = (a.reader_features, b.reader_features) {
        law_texts_tell_strings(x@, y@);
    }
    if let (Some(x), Some(y)) = (a.writer_features, b.writer_features) {
        law_texts_tell_strings(x@, y@);
    }
}

/// Descriptions of a table with the same view say the same.
pub proof fn law_view_tells_metadata(a: Metadata, b: Metadata)
    ensures
        a@ == b@ <==> same_metadata(a, b),
{
    law_text_map_tells_strings(a.format.options@, b.format.options@);
    law_text_map_tells_strings(a.configuration@, b.configuration@);
    law_texts_tell_strings(a.partition_columns@, b.partition_columns@);
}

/// Files with the same view have the same location, time and size.
pub proof fn law_view_tells_file(a: FileMeta, b: FileMeta)
    ensures
        a@ == b@ <==> a.location@ == b.location@ && a.last_modified == b.last_modified && a.size
            == b.size,
{
}

/// Lists of files with the same views hold the same files, in the same order.
pub proof fn law_views_tell_files(a: Seq<FileMeta>, b: Seq<FileMeta>)
    ensures
        file_views(a) == file_views(b) <==> a.len() == b.len() && forall|i: int|
            0 <= i < a.len() ==> (#[trigger] a[i]).location@ == b[i].location@ && a[i].last_modified
                == b[i].last_modified && a[i].size == b[i].size,
{
    if file_views(a) == file_views(b) {
        assert(file_views(a).len() == file_views(b).len());
        assert forall|i: int| 0 <= i < a.len() implies (#[trigger] a[i]).location@ == b[i].location@
            && a[i].last_modified == b[i].last_modified && a[i].size == b[i].size by {
            assert(file_views(a)[i] == file_views(b)[i]);
        }
    }
    if a.len() == b.len() && forall|i: int|
        0 <= i < a.len() ==> (#[trigger] a[i]).location@ == b[i].location@ && a[i].last_modified
            == b[i].last_modified && a[i].size == b[i].size {
        assert(file_views(a) =~= file_views(b));
    }
}

/// Values of field metadata with the same view are the same.
pub proof fn law_view_tells_metadata_value(a: MetadataValue, b: MetadataValue)
    ensures
        a@ == b@ <==> match (a, b) {
            (MetadataValue::Number(x), MetadataValue::Number(y)) => x == y,
            (MetadataValue::String(x), MetadataValue::String(y)) => x@ == y@,
            (MetadataValue::Boolean(x), MetadataValue::Boolean(y)) => x == y,
            (MetadataValue::Other(x), MetadataValue::Other(y)) => x@ == y@,
            _ => false,
        },
{
}

/// Fields with the same view have the same name, type, nullability and metadata.
pub proof fn law_view_tells_field(a: StructField, b: StructField)
    ensures
        a@ == b@ <==> {
            &&& a.name@ == b.name@
            &&& a.data_type@ == b.data_type@
            &&& a.nullable == b.nullable
            &&& forall|k: Seq<char>| #[trigger]
                a.metadata@.contains_key(k) <==> #[trigger] b.metadata@.contains_key(k)
            &&& forall|k: Seq<char>| #[trigger]
                a.metadata@.contains_key(k) ==> a.metadata@[k]@ == b.metadata@[k]@
        },
{
    if a@ == b@ {
        assert forall|k: Seq<char>| #[trigger]
            a.metadata@.contains_key(k) <==> #[trigger] b.metadata@.contains_key(k) by {
            assert(a@.metadata.contains_key(k) == b@.metadata.contains_key(k));
        }
        assert forall|k: Seq<char>| #[trigger]
            a.metadata@.contains_key(k) implies a.metadata@[k]@ == b.metadata@[k]@ by {
            assert(a@.metadata[k] == b@.metadata[k]);
        }
    }
    if a.name@ == b.name@ && a.data_type@ == b.data_type@ && a.nullable == b.nullable && (forall|
        k: Seq<char>,
    | #[trigger]
        a.metadata@.contains_key(k) <==> #[trigger] b.metadata@.contains_key(k)) && (forall|
        k: Seq<char>,
    | #[trigger]
        a.metadata@.contains_key(k) ==> a.metadata@[k]@ == b.metadata@[k]@) {
        assert(a@.metadata =~= b@.metadata);
    }
}

/// Types with the same view are of the same kind and have the same parts.
pub proof fn law_view_tells_type(a: DataType, b: DataType)
    ensures
        a@ == b@ <==> match (a, b) {
            (DataType::Primitive(x), DataType::Primitive(y)) => x == y,
            (DataType::Array(x), DataType::Array(y)) => x.element_type@ == y.element_type@
                && x.contains_null == y.contains_null,
            (DataType::Struct(x), DataType::Struct(y)) => x@ == y@,
            (DataType::Mapping(x), DataType::Mapping(y)) => x.key_type@ == y.key_type@
                && x.value_type@ == y.value_type@ && x.value_contains_null == y.value_contains_null,
            (DataType::Variant(x), DataType::Variant(y)) => x@ == y@,
            _ => false,
        },
{
}

/// Column names with the same view have the same parts, in the same order.
pub proof fn law_view_tells_column(a: ColumnName, b: ColumnName, x: &Vec<String>, y: &Vec<String>)
    requires
        call_ensures(ColumnName::path, (&a,), x),
        call_ensures(ColumnName::path, (&b,), y),
    ensures
        a@ == b@ <==> same_strings(x@, y@),
{
    law_texts_tell_strings(x@, y@);
}

/// Histograms with the same view have the same bins and counts.
pub proof fn law_view_tells_histogram(
    h: FileSizeHistogram,
    boundaries: &Vec<i64>,
    counts: &Vec<i64>,
    bytes: &Vec<i64>,
)
    requires
        call_ensures(FileSizeHistogram::sorted_bin_boundaries, (&h,), boundaries),
        call_ensures(FileSizeHistogram::file_counts, (&h,), counts),
        call_ensures(FileSizeHistogram::total_bytes, (&h,), bytes),
    ensures
        h@.boundaries == boundaries@,
        h@.file_counts == counts@,
        h@.total_bytes == bytes@,
{
}

/// The view of a change of file statistics holds each count.
pub proof fn law_view_tells_stats_change(d: FileStatsDelta)
    ensures
        d@.gross_add_files == d.gross_add_files,
        d@.gross_add_bytes == d.gross_add_bytes,
        d@.gross_remove_files == d.gross_remove_files,
        d@.gross_remove_bytes == d.gross_remove_bytes,
        match d.net_histogram {
            Some(h) => d@.net_histogram == Some(h@),
            None => d@.net_histogram is None,
        },
{
}

/// The view of file statistics holds each count.
pub proof fn law_view_tells_stats(s: FileStatsState)
    ensures
        match s {
            FileStatsState::Complete(stats) => {
                &&& s@ is Complete
                &&& s@->num_files == stats.num_files
                &&& s@->table_size_bytes == stats.table_size_bytes
                &&& match stats.file_size_histogram {
                    Some(h) => s@->histogram == Some(h@),
                    None => s@->histogram is None,
                }
            },
            FileStatsState::Indeterminate => s@ is Indeterminate,
        },
{
}

/// The view of a change holds each part of it.
pub proof fn law_view_tells_change(d: CrcDelta)
    ensures
        d@.file_stats == d.file_stats@,
        match d.protocol {
            Some(p) => d@.protocol == Some(p@),
            None => d@.protocol is None,
        },
        match d.metadata {
            Some(m) => d@.metadata == Some(m@),
            None => d@.metadata is None,
        },
        d@.domain_metadata == d.domain_metadata@,
        d@.set_transactions == d.set_transactions@,
        d@.in_commit_timestamp == d.in_commit_timestamp,
        d@.is_incremental_safe == d.is_incremental_safe,
{
}

/// The view of the state of a replay holds each part of it.
pub proof fn law_view_tells_replay(a: CrcReplayAccumulator)
    ensures
        a@.delta == a.delta@,
        a@.is_first_commit == a.is_first_commit,
        match a.current_file_url {
            Some(url) => a@.current_file_url == Some(url@),
            None => a@.current_file_url is None,
        },
        a@.saw_file_action == a.current_commit_saw_file_action,
        a@.saw_safe_op == a.current_commit_saw_safe_op,
        a@.safe_operations.len() == a.safe_operations@.len(),
        forall|i: int|
            0 <= i < a.safe_operations@.len() ==> #[trigger] a@.safe_operations[i]
                == a.safe_operations@[i]@,
{
}

} // verus!
