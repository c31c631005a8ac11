//! The schema with which commit files are read for a replay.

use vstd::prelude::*;

use crate::crc_replay::{
    integer_type, long_type, string_map_type, string_to_string, string_type, strings, strings_type,
};
use crate::schema::{
    distinct_names, field_views, metadata_view, DataType, DataTypeView, FieldView, MetadataValue,
    MetadataView, PrimitiveType, StructField, StructType,
};
use crate::string_map::StringMap;

verus! {

/// A field without metadata.
pub open spec fn plain_field(name: Seq<char>, data_type: DataTypeView, nullable: bool) -> FieldView {
    FieldView { name, data_type, nullable, metadata: Map::empty() }
}

/// The fields of an add action. Its size is always there, so it marks the row.
pub open spec fn add_fields() -> Seq<FieldView> {
    seq![plain_field("size"@, long_type(), false)]
}

/// The fields of a remove action. Its size can be missing, so the path marks the row.
pub open spec fn remove_fields() -> Seq<FieldView> {
    seq![plain_field("path"@, string_type(), false), plain_field("size"@, long_type(), true)]
}

/// The fields of a commitInfo action.
pub open spec fn commit_info_fields() -> Seq<FieldView> {
    seq![
        plain_field("operation"@, string_type(), true),
        plain_field("inCommitTimestamp"@, long_type(), true),
    ]
}

/// The fields of a protocol action.
pub open spec fn protocol_fields() -> Seq<FieldView> {
    seq![
        plain_field("minReaderVersion"@, integer_type(), false),
        plain_field("minWriterVersion"@, integer_type(), false),
        plain_field("readerFeatures"@, strings_type(), true),
        plain_field("writerFeatures"@, strings_type(), true),
    ]
}

/// The fields of the format of a table.
pub open spec fn format_fields() -> Seq<FieldView> {
    seq![
        plain_field("provider"@, string_type(), false),
        plain_field("options"@, string_map_type(), false),
    ]
}

/// The fields of a metaData action.
pub open spec fn metadata_fields() -> Seq<FieldView> {
    seq![
        plain_field("id"@, string_type(), false),
        plain_field("name"@, string_type(), true),
        plain_field("description"@, string_type(), true),
        plain_field("format"@, DataTypeView::Struct(format_fields()), false),
        plain_field("schemaString"@, string_type(), false),
        plain_field("partitionColumns"@, strings_type(), false),
        plain_field("createdTime"@, long_type(), true),
        plain_field("configuration"@, string_map_type(), false),
    ]
}

/// The fields of a txn action.
pub open spec fn transaction_fields() -> Seq<FieldView> {
    seq![
        plain_field("appId"@, string_type(), false),
        plain_field("version"@, long_type(), false),
        plain_field("lastUpdated"@, long_type(), true),
    ]
}

/// The fields of a domainMetadata action.
pub open spec fn domain_fields() -> Seq<FieldView> {
    seq![
        plain_field("domain"@, string_type(), false),
        plain_field("configuration"@, string_type(), false),
        plain_field("removed"@, DataTypeView::Primitive(PrimitiveType::Boolean), false),
    ]
}

/// The column that holds the path of the file of a row.
pub open spec fn file_field() -> FieldView {
    FieldView {
        name: "_file"@,
        data_type: string_type(),
        nullable: false,
        metadata: map!["delta.metadataSpec"@ => MetadataView::String("_file"@)],
    }
}

/// The schema with which commit files are read.
pub open spec fn replay_schema_view() -> Seq<FieldView> {
    seq![
        plain_field("add"@, DataTypeView::Struct(add_fields()), true),
        plain_field("remove"@, DataTypeView::Struct(remove_fields()), true),
        plain_field("protocol"@, DataTypeView::Struct(protocol_fields()), true),
        plain_field("metaData"@, DataTypeView::Struct(metadata_fields()), true),
        plain_field("txn"@, DataTypeView::Struct(transaction_fields()), true),
        plain_field("domainMetadata"@, DataTypeView::Struct(domain_fields()), true),
        plain_field("commitInfo"@, DataTypeView::Struct(commit_info_fields()), true),
        file_field(),
    ]
}

fn string() -> (r: DataType)
    ensures
        r@ == string_type(),
{
    DataType::Primitive(PrimitiveType::String)
}

fn long() -> (r: DataType)
    ensures
        r@ == long_type(),
{
    DataType::Primitive(PrimitiveType::Long)
}

fn integer() -> (r: DataType)
    ensures
        r@ == integer_type(),
{
    DataType::Primitive(PrimitiveType::Integer)
}

/// The type of a struct with the given fields.
fn struct_of(fields: Vec<StructField>) -> (r: DataType)
    requires
        distinct_names(field_views(fields@)),
    ensures
        r@ == DataTypeView::Struct(field_views(fields@)),
{
    let inner = StructType::new_unchecked(fields);
    assert(inner@ == field_views(fields@));
    DataType::Struct(Box::new(inner))
}

proof fn lemma_names()
    ensures
        distinct_names(remove_fields()),
        distinct_names(add_fields()),
        distinct_names(commit_info_fields()),
        distinct_names(format_fields()),
        distinct_names(domain_fields()),
        distinct_names(transaction_fields()),
{
    reveal_strlit("size");
    reveal_strlit("path");
    reveal_strlit("operation");
    reveal_strlit("inCommitTimestamp");
    reveal_strlit("provider");
    reveal_strlit("options");
    reveal_strlit("domain");
    reveal_strlit("configuration");
    reveal_strlit("removed");
    reveal_strlit("appId");
    reveal_strlit("version");
    reveal_strlit("lastUpdated");
    assert("size"@[0] != "path"@[0]);
    assert("size"@.len() == 4);
    assert("path"@.len() == 4);
    assert("operation"@.len() == 9);
    assert("inCommitTimestamp"@.len() == 17);
    assert("provider"@.len() == 8);
    assert("options"@.len() == 7);
    assert("domain"@.len() == 6);
    assert("configuration"@.len() == 13);
    assert("removed"@.len() == 7);
    assert("appId"@.len() == 5);
    assert("version"@.len() == 7);
    assert("lastUpdated"@.len() == 11);
}

proof fn lemma_protocol_names()
    ensures
        distinct_names(protocol_fields()),
{
    reveal_strlit("minReaderVersion");
    reveal_strlit("minWriterVersion");
    reveal_strlit("readerFeatures");
    reveal_strlit("writerFeatures");
    assert("minReaderVersion"@[3] != "minWriterVersion"@[3]);
    assert("readerFeatures"@[0] != "writerFeatures"@[0]);
    assert("minReaderVersion"@.len() == 16);
    assert("minWriterVersion"@.len() == 16);
    assert("readerFeatures"@.len() == 14);
    assert("writerFeatures"@.len() == 14);
}

proof fn lemma_metadata_names()
    ensures
        distinct_names(metadata_fields()),
{
    reveal_strlit("id");
    reveal_strlit("name");
    reveal_strlit("description");
    reveal_strlit("format");
    reveal_strlit("schemaString");
    reveal_strlit("partitionColumns");
    reveal_strlit("createdTime");
    reveal_strlit("configuration");
    assert("description"@[0] != "createdTime"@[0]);
    assert("id"@.len() == 2);
    assert("name"@.len() == 4);
    assert("description"@.len() == 11);
    assert("format"@.len() == 6);
    assert("schemaString"@.len() == 12);
    assert("partitionColumns"@.len() == 16);
    assert("createdTime"@.len() == 11);
    assert("configuration"@.len() == 13);
}

proof fn lemma_action_names()
    ensures
        distinct_names(replay_schema_view()),
{
    reveal_strlit("add");
    reveal_strlit("remove");
    reveal_strlit("protocol");
    reveal_strlit("metaData");
    reveal_strlit("txn");
    reveal_strlit("domainMetadata");
    reveal_strlit("commitInfo");
    reveal_strlit("_file");
    assert("add"@[0] != "txn"@[0]);
    assert("protocol"@[0] != "metaData"@[0]);
    assert("add"@.len() == 3);
    assert("remove"@.len() == 6);
    assert("protocol"@.len() == 8);
    assert("metaData"@.len() == 8);
    assert("txn"@.len() == 3);
    assert("domainMetadata"@.len() == 14);
    assert("commitInfo"@.len() == 10);
    assert("_file"@.len() == 5);
}

fn table_actions() -> (r: (DataType, DataType))
    ensures
        r.0@ == DataTypeView::Struct(protocol_fields()),
        r.1@ == DataTypeView::Struct(metadata_fields()),
{
    proof {
        lemma_names();
        lemma_protocol_names();
        lemma_metadata_names();
    }
    let mut fields: Vec<StructField> = Vec::new();
    fields.push(StructField::not_null("minReaderVersion", integer()));
    fields.push(StructField::not_null("minWriterVersion", integer()));
    fields.push(StructField::nullable("readerFeatures", strings()));
    fields.push(StructField::nullable("writerFeatures", strings()));
    assert(field_views(fields@) =~= protocol_fields());
    let protocol = struct_of(fields);

    let mut fields: Vec<StructField> = Vec::new();
    fields.push(StructField::not_null("provider", string()));
    fields.push(StructField::not_null("options", string_to_string()));
    assert(field_views(fields@) =~= format_fields());
    let format = struct_of(fields);

    let mut fields: Vec<StructField> = Vec::new();
    fields.push(StructField::not_null("id", string()));
    fields.push(StructField::nullable("name", string()));
    fields.push(StructField::nullable("description", string()));
    fields.push(StructField::not_null("format", format));
    fields.push(StructField::not_null("schemaString", string()));
    fields.push(StructField::not_null("partitionColumns", strings()));
    fields.push(StructField::nullable("createdTime", long()));
    fields.push(StructField::not_null("configuration", string_to_string()));
    assert(field_views(fields@) =~= metadata_fields());
    (protocol, struct_of(fields))
}

fn other_actions() -> (r: (DataType, DataType, DataType))
    ensures
        r.0@ == DataTypeView::Struct(transaction_fields()),
        r.1@ == DataTypeView::Struct(domain_fields()),
        r.2@ == DataTypeView::Struct(commit_info_fields()),
{
    proof {
        lemma_names();
    }
    let mut fields: Vec<StructField> = Vec::new();
    fields.push(StructField::not_null("appId", string()));
    fields.push(StructField::not_null("version", long()));
    fields.push(StructField::nullable("lastUpdated", long()));
    assert(field_views(fields@) =~= transaction_fields());
    let transaction = struct_of(fields);

    let mut fields: Vec<StructField> = Vec::new();
    fields.push(StructField::not_null("domain", string()));
    fields.push(StructField::not_null("configuration", string()));
    fields.push(
        StructField::not_null("removed", DataType::Primitive(PrimitiveType::Boolean)),
    );
    assert(field_views(fields@) =~= domain_fields());
    let domain = struct_of(fields);

    let mut fields: Vec<StructField> = Vec::new();
    fields.push(StructField::nullable("operation", string()));
    fields.push(StructField::nullable("inCommitTimestamp", long()));
    assert(field_views(fields@) =~= commit_info_fields());
    (transaction, domain, struct_of(fields))
}

fn file_actions() -> (r: (DataType, DataType))
    ensures
        r.0@ == DataTypeView::Struct(add_fields()),
        r.1@ == DataTypeView::Struct(remove_fields()),
{
    proof {
        lemma_names();
    }
    let mut fields: Vec<StructField> = Vec::new();
    fields.push(StructField::not_null("size", long()));
    assert(field_views(fields@) =~= add_fields());
    let add = struct_of(fields);

    let mut fields: Vec<StructField> = Vec::new();
    fields.push(StructField::not_null("path", string()));
    fields.push(StructField::nullable("size", long()));
    assert(field_views(fields@) =~= remove_fields());
    (add, struct_of(fields))
}

/// The column that holds the path of the file of a row.
fn file_column() -> (r: StructField)
    ensures
        r@ == file_field(),
{
    let mut metadata: StringMap<MetadataValue> = StringMap::new();
    metadata.insert("delta.metadataSpec".to_owned(), MetadataValue::String("_file".to_owned()));
    assert(metadata_view(metadata@) =~= map!["delta.metadataSpec"@ => MetadataView::String(
        "_file"@,
    )]);
    StructField::not_null("_file", string()).with_metadata(metadata)
}

/// The schema with which commit files are read.
pub fn replay_schema() -> (r: StructType)
    ensures
        r@ == replay_schema_view(),
{
    let (add, remove) = file_actions();
    let (protocol, metadata) = table_actions();
    let (transaction, domain, commit_info) = other_actions();
    let mut fields: Vec<StructField> = Vec::new();
    fields.push(StructField::nullable("add", add));
    fields.push(StructField::nullable("remove", remove));
    fields.push(StructField::nullable("protocol", protocol));
    fields.push(StructField::nullable("metaData", metadata));
    fields.push(StructField::nullable("txn", transaction));
    fields.push(StructField::nullable("domainMetadata", domain));
    fields.push(StructField::nullable("commitInfo", commit_info));
    fields.push(file_column());
    proof {
        lemma_action_names();
        assert(field_views(fields@) =~= replay_schema_view());
    }
    StructType::new_unchecked(fields)
}

} // verus!
