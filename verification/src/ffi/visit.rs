//! What an engine's visitors are called with.

use std::sync::Arc;

use vstd::prelude::*;

use crate::actions::{Metadata, Protocol};
use crate::ffi::slices::{OptionalValue, StringSliceIterator};
use crate::schema::StructType;
use crate::string_map::entries_map;
use crate::text::texts;

verus! {

/// A schema that is shared with an engine.
pub struct SharedSchema(pub Arc<StructType>);

/// A protocol that is shared with an engine.
pub struct SharedProtocol(pub Arc<Protocol>);

/// The metadata of a table that are shared with an engine.
pub struct SharedMetadata(pub Arc<Metadata>);

/// The calls by which an engine's visitor learns of a protocol.
#[derive(Debug)]
pub struct ProtocolVisit {
    pub min_reader_version: i32,
    pub min_writer_version: i32,
    /// The features, in the order of the calls. The mark says whether it is a reader feature.
    pub features: Vec<(bool, String)>,
}

/// Features, each with the same mark.
pub open spec fn marked(features: Option<Vec<String>>, is_reader: bool) -> Seq<(bool, Seq<char>)> {
    match features {
        Some(names) => Seq::new(names@.len(), |i: int| (is_reader, names@[i]@)),
        None => Seq::empty(),
    }
}

/// The views of a list of marked features.
pub open spec fn feature_views(features: Seq<(bool, String)>) -> Seq<(bool, Seq<char>)> {
    Seq::new(features.len(), |i: int| (features[i].0, features[i].1@))
}

fn push_features(out: &mut Vec<(bool, String)>, features: &Option<Vec<String>>, is_reader: bool)
    ensures
        feature_views(final(out)@) == feature_views(old(out)@) + marked(*features, is_reader),
{
    let ghost start = feature_views(out@);
    match features {
        Some(names) => {
            let mut i: usize = 0;
            while i < names.len()
                invariant
                    i <= names@.len(),
                    *features == Some(*names),
                    feature_views(out@) == start + marked(*features, is_reader).take(i as int),
                decreases names@.len() - i,
            {
                let ghost before = feature_views(out@);
                let ghost all = marked(*features, is_reader);
                out.push((is_reader, names[i].clone()));
                proof {
                    assert(feature_views(out@) =~= before.push((is_reader, names@[i as int]@)));
                    assert(all.take(i + 1) =~= all.take(i as int).push(all[i as int]));
                }
                i += 1;
            }
            assert(marked(*features, is_reader).take(i as int) =~= marked(*features, is_reader));
        },
        None => {
            assert(start + marked(*features, is_reader) =~= start);
        },
    }
}

/// The calls by which a visitor learns of a protocol: the versions, then the reader features, then the
/// writer features. A protocol without lists of features has none.
pub fn visit_protocol(protocol: &SharedProtocol) -> (r: ProtocolVisit)
    ensures
        r.min_reader_version == protocol.0.min_reader_version,
        r.min_writer_version == protocol.0.min_writer_version,
        feature_views(r.features@) == marked(protocol.0.reader_features, true) + marked(
            protocol.0.writer_features,
            false,
        ),
{
    let mut features: Vec<(bool, String)> = Vec::new();
    assert(feature_views(features@) + marked(protocol.0.reader_features, true) =~= marked(
        protocol.0.reader_features,
        true,
    ));
    push_features(&mut features, &protocol.0.reader_features, true);
    push_features(&mut features, &protocol.0.writer_features, false);
    ProtocolVisit {
        min_reader_version: protocol.0.min_reader_version,
        min_writer_version: protocol.0.min_writer_version,
        features,
    }
}

/// What an engine's visitor is called with to learn of a table's metadata.
#[derive(Debug)]
pub struct MetadataFields<'a> {
    pub id: &'a str,
    pub name: OptionalValue<&'a str>,
    pub description: OptionalValue<&'a str>,
    pub format_provider: &'a str,
    /// Does the time of creation count?
    pub has_created_time: bool,
    /// The time of creation in milliseconds since the epoch, or 0.
    pub created_time_ms: i64,
}

/// Is it the same text, or absent as the text is?
pub open spec fn is_optional_text(value: OptionalValue<&str>, text: Option<String>) -> bool {
    match (value, text) {
        (OptionalValue::Present(v), Some(t)) => v@ == t@,
        (OptionalValue::Absent, None) => true,
        _ => false,
    }
}

fn optional_text(text: &Option<String>) -> (r: OptionalValue<&str>)
    ensures
        is_optional_text(r, *text),
{
    match text {
        Some(t) => OptionalValue::Present(t.as_str()),
        None => OptionalValue::Absent,
    }
}

/// What a visitor is called with to learn of a table's metadata.
pub fn visit_metadata(metadata: &SharedMetadata) -> (r: MetadataFields<'_>)
    ensures
        r.id@ == metadata.0.id@,
        is_optional_text(r.name, metadata.0.name),
        is_optional_text(r.description, metadata.0.description),
        r.format_provider@ == metadata.0.format.provider@,
        r.has_created_time == (metadata.0.created_time is Some),
        r.created_time_ms == match metadata.0.created_time {
            Some(t) => t,
            None => 0i64,
        },
{
    let (has_created_time, created_time_ms): (bool, i64) = match metadata.0.created_time {
        Some(t) => (true, t),
        None => (false, 0),
    };
    MetadataFields {
        id: metadata.0.id.as_str(),
        name: optional_text(&metadata.0.name),
        description: optional_text(&metadata.0.description),
        format_provider: metadata.0.format.provider.as_str(),
        has_created_time,
        created_time_ms,
    }
}

/// The keys and values with which a visitor is called to learn of a table's configuration: one call for each
/// key, in no particular order.
pub fn visit_metadata_configuration(metadata: &SharedMetadata) -> (r: &Vec<(String, String)>)
    ensures
        entries_map(r@) == metadata.0.configuration@,
        crate::string_map::distinct_keys(r@),
{
    metadata.0.configuration.entries()
}

/// The number of columns by which a table is partitioned.
pub fn get_partition_column_count(metadata: &SharedMetadata) -> (r: usize)
    ensures
        r == metadata.0.partition_columns@.len(),
{
    metadata.0.partition_columns.len()
}

/// The names of the columns by which a table is partitioned.
pub fn get_partition_columns(metadata: &SharedMetadata) -> (r: StringSliceIterator)
    ensures
        r@ == texts(metadata.0.partition_columns@),
{
    let columns = &metadata.0.partition_columns;
    let mut names: Vec<String> = Vec::new();
    let mut i: usize = 0;
    while i < columns.len()
        invariant
            i <= columns@.len(),
            names@.len() == i,
            forall|k: int| 0 <= k < i ==> (#[trigger] names@[k])@ == columns@[k]@,
        decreases columns@.len() - i,
    {
        names.push(columns[i].clone());
        i += 1;
    }
    assert(texts(names@) =~= texts(columns@));
    StringSliceIterator::new(names)
}

} // verus!
