//! From columns to actions: which column each part of an action is read from.

use vstd::prelude::*;

use crate::actions::{DomainMetadata, MetadataView, ProtocolView, SetTransaction};
use crate::columns::{have_rows, ColumnBatch, ColumnData};
use crate::crc_replay::CrcReplayVisitor;
use crate::error::ErrorView;
use crate::expressions::ColumnName;
use crate::replay_rows::{batch_of, batch_views, row_at};
use crate::schema::{DataType, DataTypeView, PrimitiveType};
use crate::string_map::{text_map, StringMap};
use crate::text::texts;
use crate::text_laws::{glued, law_split_pieces_are_the_text};

verus! {

/// The dotted names of the columns that a replay reads, in their order.
pub open spec fn selected_name(i: int) -> Seq<char> {
    seq![
        "_file"@,
        "commitInfo.operation"@,
        "commitInfo.inCommitTimestamp"@,
        "add.size"@,
        "remove.path"@,
        "remove.size"@,
        "domainMetadata.domain"@,
        "domainMetadata.configuration"@,
        "domainMetadata.removed"@,
        "txn.appId"@,
        "txn.version"@,
        "txn.lastUpdated"@,
        "protocol.minReaderVersion"@,
        "protocol.minWriterVersion"@,
        "protocol.readerFeatures"@,
        "protocol.writerFeatures"@,
        "metaData.id"@,
        "metaData.name"@,
        "metaData.description"@,
        "metaData.format.provider"@,
        "metaData.format.options"@,
        "metaData.schemaString"@,
        "metaData.partitionColumns"@,
        "metaData.createdTime"@,
        "metaData.configuration"@,
    ][i]
}

/// What the values of a column are.
pub enum ValueKind {
    Text,
    Number,
    SmallNumber,
    Truth,
    TextList,
    TextMap,
}

/// What the values of the columns are that a replay reads, in their order.
pub open spec fn selected_kind(i: int) -> ValueKind {
    seq![
        ValueKind::Text,
        ValueKind::Text,
        ValueKind::Number,
        ValueKind::Number,
        ValueKind::Text,
        ValueKind::Number,
        ValueKind::Text,
        ValueKind::Text,
        ValueKind::Truth,
        ValueKind::Text,
        ValueKind::Number,
        ValueKind::Number,
        ValueKind::SmallNumber,
        ValueKind::SmallNumber,
        ValueKind::TextList,
        ValueKind::TextList,
        ValueKind::Text,
        ValueKind::Text,
        ValueKind::Text,
        ValueKind::Text,
        ValueKind::TextMap,
        ValueKind::Text,
        ValueKind::TextList,
        ValueKind::Number,
        ValueKind::TextMap,
    ][i]
}

/// The type of such values.
pub open spec fn type_of(kind: ValueKind) -> DataTypeView {
    let text = DataTypeView::Primitive(PrimitiveType::String);
    match kind {
        ValueKind::Text => text,
        ValueKind::Number => DataTypeView::Primitive(PrimitiveType::Long),
        ValueKind::SmallNumber => DataTypeView::Primitive(PrimitiveType::Integer),
        ValueKind::Truth => DataTypeView::Primitive(PrimitiveType::Boolean),
        ValueKind::TextList => DataTypeView::Array {
            element_type: Box::new(text),
            contains_null: false,
        },
        ValueKind::TextMap => DataTypeView::Mapping {
            key_type: Box::new(text),
            value_type: Box::new(text),
            value_contains_null: false,
        },
    }
}

/// Does the column hold such values?
pub open spec fn is_kind(column: ColumnData, kind: ValueKind) -> bool {
    match kind {
        ValueKind::Text => column is Strings,
        ValueKind::Number => column is Longs,
        ValueKind::SmallNumber => column is Integers,
        ValueKind::Truth => column is Booleans,
        ValueKind::TextList => column is Lists,
        ValueKind::TextMap => column is Maps,
    }
}

/// A replay selects these columns, in this order: each by the path that its dotted name spells out, and with its type.
pub proof fn law_selected_columns(
    visitor: CrcReplayVisitor,
    r: (Vec<ColumnName>, Vec<DataType>),
    i: int,
)
    requires
        call_ensures(CrcReplayVisitor::selected_column_names_and_types, (&visitor,), r),
        0 <= i < 25,
    ensures
        r.0@.len() == 25,
        r.1@.len() == 25,
        glued(r.0@[i]@, '.') == selected_name(i),
        r.1@[i]@ == type_of(selected_kind(i)),
{
    let columns = crate::crc_replay::replay_columns();
    assert(columns.len() == 25);
    law_split_pieces_are_the_text(columns[i].0, '.');
    assert(r.0@[i]@ == crate::text::split_on(columns[i].0, '.'));
    assert(columns[i].0 == selected_name(i));
    assert(r.1@[i]@ == columns[i].1);
}

/// Are these the selected columns, each with values of its kind?
pub open spec fn are_selected(columns: Seq<ColumnData>) -> bool {
    &&& columns.len() == 25
    &&& forall|i: int| 0 <= i < 25 ==> is_kind(#[trigger] columns[i], selected_kind(i))
}

/// The text of an optional string.
pub open spec fn text_of(s: Option<String>) -> Option<Seq<char>> {
    match s {
        Some(s) => Some(s@),
        None => None,
    }
}

/// The texts of an optional list.
pub open spec fn texts_of(list: Option<Vec<String>>) -> Option<Seq<Seq<char>>> {
    match list {
        Some(list) => Some(Seq::new(list@.len(), |i: int| list@[i]@)),
        None => None,
    }
}

/// The texts of a map, which is empty where there is none.
pub open spec fn entries_of(map: Option<StringMap<String>>) -> Map<Seq<char>, Seq<char>> {
    match map {
        Some(map) => Map::new(|k: Seq<char>| map@.contains_key(k), |k: Seq<char>| map@[k]@),
        None => Map::empty(),
    }
}

/// The file of a batch is the one that its first row names.
pub proof fn law_file_is_named_by_the_first_row(columns: Seq<ColumnData>, row_count: nat)
    requires
        are_selected(columns),
    ensures
        ({
            let files = columns[0]->Strings_0@;
            let batch = batch_of(row_count, columns);
            &&& batch.rows.len() == row_count
            &&& forall|row: int| 0 <= row < row_count ==> #[trigger] batch.rows[row] == row_at(columns, row)
            &&& files[0] is Some ==> batch.file_url == Ok::<Seq<char>, ErrorView>(files[0]->0@)
            &&& files[0] is None ==> batch.file_url is Err && batch.file_url->Err_0 is MissingData
        }),
{
    assert(is_kind(columns[0], selected_kind(0)));
}

/// The commitInfo, add and remove actions of a row are read from the columns of their names. A row adds a file where
/// it has a size for one, and removes a file where it has a path for one.
pub proof fn law_file_actions_are_read_by_name(columns: Seq<ColumnData>, row: int)
    requires
        are_selected(columns),
    ensures
        ({
            let r = row_at(columns, row);
            let operation = columns[1]->Strings_0@[row];
            let timestamp = columns[2]->Longs_0@[row];
            let added = columns[3]->Longs_0@[row];
            let removed = columns[4]->Strings_0@[row];
            let removed_size = columns[5]->Longs_0@[row];
            &&& r.commit_info == Ok::<(Option<Seq<char>>, Option<i64>), ErrorView>(
                (text_of(operation), timestamp),
            )
            &&& r.add_size == Ok::<Option<i64>, ErrorView>(added)
            &&& r.remove_size == Ok::<Option<Option<i64>>, ErrorView>(
                if removed is Some {
                    Some(removed_size)
                } else {
                    None
                },
            )
        }),
{
    assert forall|i: int| 0 <= i < 6 implies is_kind(#[trigger] columns[i], selected_kind(i)) by {}
}

/// The domainMetadata and txn actions of a row are read from the columns of their names. A row has one where it has a
/// domain or an application. Then a configuration, the mark of a removal and a version must be there too.
pub proof fn law_named_actions_are_read_by_name(columns: Seq<ColumnData>, row: int)
    requires
        are_selected(columns),
    ensures
        ({
            let r = row_at(columns, row);
            let domain = columns[6]->Strings_0@[row];
            let configuration = columns[7]->Strings_0@[row];
            let removed = columns[8]->Booleans_0@[row];
            let app = columns[9]->Strings_0@[row];
            let version = columns[10]->Longs_0@[row];
            let updated = columns[11]->Longs_0@[row];
            &&& domain is None ==> r.domain == Ok::<Option<DomainMetadata>, ErrorView>(None)
            &&& domain is Some && configuration is Some && removed is Some ==> {
                &&& r.domain is Ok && r.domain->Ok_0 is Some
                &&& r.domain->Ok_0->0.domain@ == domain->0@
                &&& r.domain->Ok_0->0.configuration@ == configuration->0@
                &&& r.domain->Ok_0->0.removed == removed->0
            }
            &&& domain is Some && (configuration is None || removed is None) ==> r.domain is Err
                && r.domain->Err_0 is MissingData
            &&& app is None ==> r.transaction == Ok::<Option<SetTransaction>, ErrorView>(None)
            &&& app is Some && version is Some ==> {
                &&& r.transaction is Ok && r.transaction->Ok_0 is Some
                &&& r.transaction->Ok_0->0.app_id@ == app->0@
                &&& r.transaction->Ok_0->0.version == version->0
                &&& r.transaction->Ok_0->0.last_updated == updated
            }
            &&& app is Some && version is None ==> r.transaction is Err
                && r.transaction->Err_0 is MissingData
        }),
{
    assert forall|i: int| 6 <= i < 12 implies is_kind(#[trigger] columns[i], selected_kind(i)) by {}
}

/// The protocol action of a row is read from the columns of its names. A row has one where it has a reader version.
pub proof fn law_protocol_is_read_by_name(columns: Seq<ColumnData>, row: int)
    requires
        are_selected(columns),
    ensures
        ({
            let r = row_at(columns, row);
            let reader = columns[12]->Integers_0@[row];
            let writer = columns[13]->Integers_0@[row];
            &&& reader is None ==> r.protocol == Ok::<Option<ProtocolView>, ErrorView>(None)
            &&& reader is Some && writer is None ==> r.protocol is Err && r.protocol->Err_0 is MissingData
            &&& reader is Some && writer is Some ==> {
                &&& r.protocol is Ok && r.protocol->Ok_0 is Some
                &&& r.protocol->Ok_0->0.min_reader_version == reader->0
                &&& r.protocol->Ok_0->0.min_writer_version == writer->0
                &&& r.protocol->Ok_0->0.reader_features == texts_of(columns[14]->Lists_0@[row])
                &&& r.protocol->Ok_0->0.writer_features == texts_of(columns[15]->Lists_0@[row])
            }
        }),
{
    assert forall|i: int| 12 <= i < 16 implies is_kind(#[trigger] columns[i], selected_kind(i)) by {}
    lemma_texts(columns[14]->Lists_0@[row]);
    lemma_texts(columns[15]->Lists_0@[row]);
}

proof fn lemma_texts(list: Option<Vec<String>>)
    ensures
        list is Some ==> texts_of(list) == Some(texts(list->0@)),
{
    if list is Some {
        assert(texts_of(list)->0 =~= texts(list->0@));
    }
}

/// The metadata action of a row is read from the columns of its names. A row has one where it has an id. Then a format,
/// a schema and a list of partition columns must be there too; options and configuration are empty where they are not.
pub proof fn law_metadata_is_read_by_name(columns: Seq<ColumnData>, row: int)
    requires
        are_selected(columns),
    ensures
        ({
            let r = row_at(columns, row);
            let id = columns[16]->Strings_0@[row];
            let provider = columns[19]->Strings_0@[row];
            let schema = columns[21]->Strings_0@[row];
            let partitions = columns[22]->Lists_0@[row];
            &&& id is None ==> r.metadata == Ok::<Option<MetadataView>, ErrorView>(None)
            &&& id is Some && (provider is None || schema is None || partitions is None)
                ==> r.metadata is Err && r.metadata->Err_0 is MissingData
            &&& id is Some && provider is Some && schema is Some && partitions is Some ==> {
                let m = r.metadata->Ok_0->0;
                &&& r.metadata is Ok && r.metadata->Ok_0 is Some
                &&& m.id == id->0@
                &&& m.name == text_of(columns[17]->Strings_0@[row])
                &&& m.description == text_of(columns[18]->Strings_0@[row])
                &&& m.format_provider == provider->0@
                &&& m.format_options == entries_of(columns[20]->Maps_0@[row])
                &&& m.schema_string == schema->0@
                &&& Some(m.partition_columns) == texts_of(partitions)
                &&& m.created_time == columns[23]->Longs_0@[row]
                &&& m.configuration == entries_of(columns[24]->Maps_0@[row])
            }
        }),
{
    assert forall|i: int| 16 <= i < 25 implies is_kind(#[trigger] columns[i], selected_kind(i)) by {}
    lemma_texts(columns[22]->Lists_0@[row]);
    lemma_entries(columns[20]->Maps_0@[row]);
    lemma_entries(columns[24]->Maps_0@[row]);
}

proof fn lemma_entries(map: Option<StringMap<String>>)
    ensures
        map is Some ==> entries_of(map) == text_map(map->0@),
{
    if map is Some {
        assert(entries_of(map) =~= text_map(map->0@));
    }
}

/// A batch holds the columns and the rows that it was made of, and can be made exactly if all columns have the rows.
pub proof fn law_batch_holds_its_columns(
    row_count: usize,
    columns: Vec<ColumnData>,
    r: Option<ColumnBatch>,
    count: usize,
    held: &Vec<ColumnData>,
)
    requires
        call_ensures(ColumnBatch::try_new, (row_count, columns), r),
        r is Some ==> call_ensures(ColumnBatch::row_count, (&r->0,), count),
        r is Some ==> call_ensures(ColumnBatch::columns, (&r->0,), held),
    ensures
        r is Some <==> forall|i: int|
            0 <= i < columns@.len() ==> row_count <= match #[trigger] columns@[i] {
                ColumnData::Strings(v) => v@.len(),
                ColumnData::Integers(v) => v@.len(),
                ColumnData::Longs(v) => v@.len(),
                ColumnData::Booleans(v) => v@.len(),
                ColumnData::Lists(v) => v@.len(),
                ColumnData::Maps(v) => v@.len(),
            },
        r is Some ==> count == row_count && held@ == columns@,
        r is Some ==> r->0@ == batch_of(row_count as nat, columns@),
{
    assert(have_rows(columns@, row_count as int) <==> forall|i: int|
        0 <= i < columns@.len() ==> row_count <= match #[trigger] columns@[i] {
            ColumnData::Strings(v) => v@.len(),
            ColumnData::Integers(v) => v@.len(),
            ColumnData::Longs(v) => v@.len(),
            ColumnData::Booleans(v) => v@.len(),
            ColumnData::Lists(v) => v@.len(),
            ColumnData::Maps(v) => v@.len(),
        });
}

/// Batches are replayed in their order, each by what its columns hold; one that could not be had is its error.
pub proof fn law_batches_are_replayed_in_order(
    batches: Seq<crate::error::DeltaResult<ColumnBatch>>,
    i: int,
)
    requires
        0 <= i < batches.len(),
    ensures
        batch_views(batches).len() == batches.len(),
        batches[i] is Ok ==> batch_views(batches)[i] == Ok::<_, ErrorView>(batches[i]->Ok_0@),
        batches[i] is Err ==> batch_views(batches)[i] == Err::<
            crate::replay_rows::BatchView,
            ErrorView,
        >(batches[i]->Err_0@),
{
}

/// A value is read from its row of a column of its kind, and is an error in a column of another kind.
pub proof fn law_values_are_read_from_their_row(
    column: ColumnData,
    row: usize,
    field: &str,
    text: crate::error::DeltaResult<Option<&str>>,
    copied: crate::error::DeltaResult<Option<String>>,
    small: crate::error::DeltaResult<Option<i32>>,
    number: crate::error::DeltaResult<Option<i64>>,
    truth: crate::error::DeltaResult<Option<bool>>,
    list: crate::error::DeltaResult<Option<Vec<String>>>,
    map: crate::error::DeltaResult<Option<StringMap<String>>>,
)
    requires
        call_ensures(ColumnData::get_str, (&column, row, field), text),
        call_ensures(ColumnData::get_string, (&column, row, field), copied),
        call_ensures(ColumnData::get_int, (&column, row, field), small),
        call_ensures(ColumnData::get_long, (&column, row, field), number),
        call_ensures(ColumnData::get_bool, (&column, row, field), truth),
        call_ensures(ColumnData::get_list, (&column, row, field), list),
        call_ensures(ColumnData::get_map, (&column, row, field), map),
    ensures
        text is Ok <==> column is Strings,
        copied is Ok <==> column is Strings,
        small is Ok <==> column is Integers,
        number is Ok <==> column is Longs,
        truth is Ok <==> column is Booleans,
        list is Ok <==> column is Lists,
        map is Ok <==> column is Maps,
        match column {
            ColumnData::Strings(v) => match v@[row as int] {
                Some(s) => text->Ok_0 is Some && text->Ok_0->0@ == s@ && copied->Ok_0 is Some
                    && copied->Ok_0->0@ == s@,
                None => text->Ok_0 is None && copied->Ok_0 is None,
            },
            ColumnData::Integers(v) => small->Ok_0 == v@[row as int],
            ColumnData::Longs(v) => number->Ok_0 == v@[row as int],
            ColumnData::Booleans(v) => truth->Ok_0 == v@[row as int],
            ColumnData::Lists(v) => match v@[row as int] {
                Some(l) => list->Ok_0 is Some && crate::view_laws::same_strings(
                    list->Ok_0->0@,
                    l@,
                ),
                None => list->Ok_0 is None,
            },
            ColumnData::Maps(v) => match v@[row as int] {
                Some(m) => map->Ok_0 is Some && crate::view_laws::same_string_map(
                    map->Ok_0->0@,
                    m@,
                ),
                None => map->Ok_0 is None,
            },
        },
{
    match column {
        ColumnData::Lists(v) => {
            if let (Some(l), Ok(Some(got))) = (v@[row as int], list) {
                crate::view_laws::law_texts_tell_strings(got@, l@);
            }
        },
        ColumnData::Maps(v) => {
            if let (Some(m), Ok(Some(got))) = (v@[row as int], map) {
                crate::view_laws::law_text_map_tells_strings(got@, m@);
            }
        },
        _ => {},
    }
}

/// A value that an action must have and has not is named by the error.
pub proof fn law_missing_values_are_named(columns: Seq<ColumnData>, row: int)
    requires
        are_selected(columns),
    ensures
        ({
            let r = row_at(columns, row);
            let domain = columns[6]->Strings_0@[row];
            let configuration = columns[7]->Strings_0@[row];
            let removed = columns[8]->Booleans_0@[row];
            let app = columns[9]->Strings_0@[row];
            let reader = columns[12]->Integers_0@[row];
            let id = columns[16]->Strings_0@[row];
            let provider = columns[19]->Strings_0@[row];
            let schema = columns[21]->Strings_0@[row];
            &&& domain is Some && configuration is None ==> r.domain == Err::<Option<DomainMetadata>, _>(
                ErrorView::MissingData("Data missing for field "@ + "domainMetadata.configuration"@),
            )
            &&& domain is Some && configuration is Some && removed is None ==> r.domain == Err::<
                Option<DomainMetadata>,
                _,
            >(ErrorView::MissingData("Data missing for field "@ + "domainMetadata.removed"@))
            &&& app is Some && columns[10]->Longs_0@[row] is None ==> r.transaction == Err::<
                Option<SetTransaction>,
                _,
            >(ErrorView::MissingData("Data missing for field "@ + "txn.version"@))
            &&& reader is Some && columns[13]->Integers_0@[row] is None ==> r.protocol == Err::<
                Option<ProtocolView>,
                _,
            >(ErrorView::MissingData("Data missing for field "@ + "protocol.minWriterVersion"@))
            &&& id is Some && provider is None ==> r.metadata == Err::<Option<MetadataView>, _>(
                ErrorView::MissingData("Data missing for field "@ + "metaData.format.provider"@),
            )
            &&& id is Some && provider is Some && schema is None ==> r.metadata == Err::<
                Option<MetadataView>,
                _,
            >(ErrorView::MissingData("Data missing for field "@ + "metaData.schemaString"@))
            &&& id is Some && provider is Some && schema is Some && columns[22]->Lists_0@[row] is None
                ==> r.metadata == Err::<Option<MetadataView>, _>(
                ErrorView::MissingData("Data missing for field "@ + "metaData.partitionColumns"@),
            )
        }),
{
    assert forall|i: int| 6 <= i < 25 implies is_kind(#[trigger] columns[i], selected_kind(i)) by {}
}

/// A column of another type than the one that was selected is named by the error.
pub proof fn law_columns_of_other_types_are_named(columns: Seq<ColumnData>, row: int)
    ensures
        ({
            let r = row_at(columns, row);
            &&& !(columns[1] is Strings) ==> r.commit_info == Err::<(Option<Seq<char>>, Option<i64>), _>(
                ErrorView::Generic("Unexpected column type for field "@ + "commitInfo.operation"@),
            )
            &&& !(columns[3] is Longs) ==> r.add_size == Err::<Option<i64>, _>(
                ErrorView::Generic("Unexpected column type for field "@ + "add.size"@),
            )
            &&& !(columns[4] is Strings) ==> r.remove_size == Err::<Option<Option<i64>>, _>(
                ErrorView::Generic("Unexpected column type for field "@ + "remove.path"@),
            )
            &&& !(columns[6] is Strings) ==> r.domain == Err::<Option<DomainMetadata>, _>(
                ErrorView::Generic("Unexpected column type for field "@ + "domainMetadata.domain"@),
            )
            &&& !(columns[9] is Strings) ==> r.transaction == Err::<Option<SetTransaction>, _>(
                ErrorView::Generic("Unexpected column type for field "@ + "txn.appId"@),
            )
            &&& !(columns[12] is Integers) ==> r.protocol == Err::<Option<ProtocolView>, _>(
                ErrorView::Generic(
                    "Unexpected column type for field "@ + "protocol.minReaderVersion"@,
                ),
            )
            &&& !(columns[16] is Strings) ==> r.metadata == Err::<Option<MetadataView>, _>(
                ErrorView::Generic("Unexpected column type for field "@ + "metaData.id"@),
            )
        }),
{
}

} // verus!
