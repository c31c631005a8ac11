//! Reading the actions of commits out of the columns that a replay selects.

use vstd::prelude::*;

use crate::actions::{
    DomainMetadata, Format, Metadata, MetadataView, Protocol, ProtocolView, SetTransaction,
};
use crate::columns::{have_rows, optional, required, ColumnBatch, ColumnData};
use crate::crc_replay::{replay_column_count, replay_columns};
use crate::error::{DeltaResult, Error, ErrorView};
use crate::schema::{DataTypeView, PrimitiveType};
use crate::string_map::{text_map, StringMap};
use crate::text::{opt_str, opt_text, texts};

verus! {

/// The place of each column in the list that the replay selects.
pub const COL_FILE: usize = 0;

pub const COL_OP: usize = 1;

pub const COL_ICT: usize = 2;

pub const COL_ADD_SIZE: usize = 3;

pub const COL_REMOVE_PATH: usize = 4;

pub const COL_REMOVE_SIZE: usize = 5;

pub const COL_DM_DOMAIN: usize = 6;

pub const COL_DM_CONFIG: usize = 7;

pub const COL_DM_REMOVED: usize = 8;

pub const COL_TXN_APP_ID: usize = 9;

pub const COL_TXN_VERSION: usize = 10;

pub const COL_TXN_LAST_UPDATED: usize = 11;

/// The place of the first column of a protocol action.
pub const COL_PROTOCOL: usize = 12;

/// The place of the first column of a metadata action.
pub const COL_METADATA: usize = 16;

/// What reading the actions of a row gives. An action that the row lacks is None. The columns of an action
/// are read in their order, up to the first that cannot be read.
#[verifier::ext_equal]
pub struct RowView {
    /// The operation and the timestamp of a commitInfo action.
    pub commit_info: Result<(Option<Seq<char>>, Option<i64>), ErrorView>,
    /// The size of an added file.
    pub add_size: Result<Option<i64>, ErrorView>,
    /// The size of a removed file, which may be missing.
    pub remove_size: Result<Option<Option<i64>>, ErrorView>,
    pub domain: Result<Option<DomainMetadata>, ErrorView>,
    pub transaction: Result<Option<SetTransaction>, ErrorView>,
    pub protocol: Result<Option<ProtocolView>, ErrorView>,
    pub metadata: Result<Option<MetadataView>, ErrorView>,
}

/// What reading a batch gives.
#[verifier::ext_equal]
pub struct BatchView {
    /// The number of columns.
    pub num_columns: nat,
    /// The URL of the commit file, which the first row names.
    pub file_url: Result<Seq<char>, ErrorView>,
    pub rows: Seq<RowView>,
}

/// The name of a column, which errors mention.
pub open spec fn field(column: int) -> Seq<char> {
    replay_columns()[column].0
}

/// The operation and the timestamp of the commitInfo action in a row.
pub open spec fn commit_info_at(columns: Seq<ColumnData>, row: int) -> Result<
    (Option<Seq<char>>, Option<i64>),
    ErrorView,
> {
    match optional(columns[COL_OP as int].string_at(row), field(COL_OP as int)) {
        Err(e) => Err(e),
        Ok(operation) => match optional(
            columns[COL_ICT as int].long_at(row),
            field(COL_ICT as int),
        ) {
            Err(e) => Err(e),
            Ok(timestamp) => Ok((operation, timestamp)),
        },
    }
}

/// The size of the file that a row adds.
pub open spec fn add_size_at(columns: Seq<ColumnData>, row: int) -> Result<
    Option<i64>,
    ErrorView,
> {
    optional(columns[COL_ADD_SIZE as int].long_at(row), field(COL_ADD_SIZE as int))
}

/// The size of the file that a row removes. The path says that there is one.
pub open spec fn remove_size_at(columns: Seq<ColumnData>, row: int) -> Result<
    Option<Option<i64>>,
    ErrorView,
> {
    match optional(columns[COL_REMOVE_PATH as int].string_at(row), field(COL_REMOVE_PATH as int)) {
        Err(e) => Err(e),
        Ok(None) => Ok(None),
        Ok(Some(_)) => match optional(
            columns[COL_REMOVE_SIZE as int].long_at(row),
            field(COL_REMOVE_SIZE as int),
        ) {
            Err(e) => Err(e),
            Ok(size) => Ok(Some(size)),
        },
    }
}

/// The domainMetadata action in a row.
pub open spec fn domain_at(columns: Seq<ColumnData>, row: int) -> Result<
    Option<DomainMetadata>,
    ErrorView,
> {
    match optional(
        columns[COL_DM_DOMAIN as int].held_string_at(row),
        field(COL_DM_DOMAIN as int),
    ) {
        Err(e) => Err(e),
        Ok(None) => Ok(None),
        Ok(Some(domain)) => match required(
            columns[COL_DM_CONFIG as int].held_string_at(row),
            field(COL_DM_CONFIG as int),
        ) {
            Err(e) => Err(e),
            Ok(configuration) => match required(
                columns[COL_DM_REMOVED as int].bool_at(row),
                field(COL_DM_REMOVED as int),
            ) {
                Err(e) => Err(e),
                Ok(removed) => Ok(Some(DomainMetadata { domain, configuration, removed })),
            },
        },
    }
}

/// The txn action in a row.
pub open spec fn transaction_at(columns: Seq<ColumnData>, row: int) -> Result<
    Option<SetTransaction>,
    ErrorView,
> {
    match optional(
        columns[COL_TXN_APP_ID as int].held_string_at(row),
        field(COL_TXN_APP_ID as int),
    ) {
        Err(e) => Err(e),
        Ok(None) => Ok(None),
        Ok(Some(app_id)) => match required(
            columns[COL_TXN_VERSION as int].long_at(row),
            field(COL_TXN_VERSION as int),
        ) {
            Err(e) => Err(e),
            Ok(version) => match optional(
                columns[COL_TXN_LAST_UPDATED as int].long_at(row),
                field(COL_TXN_LAST_UPDATED as int),
            ) {
                Err(e) => Err(e),
                Ok(last_updated) => Ok(Some(SetTransaction { app_id, version, last_updated })),
            },
        },
    }
}

/// The protocol action in a row. The reader version says that there is one.
pub open spec fn protocol_at(columns: Seq<ColumnData>, row: int) -> Result<
    Option<ProtocolView>,
    ErrorView,
> {
    match optional(columns[12].integer_at(row), field(12)) {
        Err(e) => Err(e),
        Ok(None) => Ok(None),
        Ok(Some(min_reader_version)) => match required(columns[13].integer_at(row), field(13)) {
            Err(e) => Err(e),
            Ok(min_writer_version) => match optional(columns[14].list_at(row), field(14)) {
                Err(e) => Err(e),
                Ok(reader_features) => match optional(columns[15].list_at(row), field(15)) {
                    Err(e) => Err(e),
                    Ok(writer_features) => Ok(
                        Some(
                            ProtocolView {
                                min_reader_version,
                                min_writer_version,
                                reader_features,
                                writer_features,
                            },
                        ),
                    ),
                },
            },
        },
    }
}

/// A map that is empty where there is none.
pub open spec fn map_or_empty(map: Option<Map<Seq<char>, Seq<char>>>) -> Map<
    Seq<char>,
    Seq<char>,
> {
    match map {
        Some(map) => map,
        None => Map::empty(),
    }
}

/// The name and the description of the metadata action in a row.
pub open spec fn names_at(columns: Seq<ColumnData>, row: int) -> Result<
    (Option<Seq<char>>, Option<Seq<char>>),
    ErrorView,
> {
    match optional(columns[17].string_at(row), field(17)) {
        Err(e) => Err(e),
        Ok(name) => match optional(columns[18].string_at(row), field(18)) {
            Err(e) => Err(e),
            Ok(description) => Ok((name, description)),
        },
    }
}

/// The provider and the options of the format of the metadata action in a row.
pub open spec fn format_at(columns: Seq<ColumnData>, row: int) -> Result<
    (Seq<char>, Map<Seq<char>, Seq<char>>),
    ErrorView,
> {
    match required(columns[19].string_at(row), field(19)) {
        Err(e) => Err(e),
        Ok(provider) => match optional(columns[20].map_at(row), field(20)) {
            Err(e) => Err(e),
            Ok(options) => Ok((provider, map_or_empty(options))),
        },
    }
}

/// The schema and the partition columns of the metadata action in a row.
pub open spec fn layout_at(columns: Seq<ColumnData>, row: int) -> Result<
    (Seq<char>, Seq<Seq<char>>),
    ErrorView,
> {
    match required(columns[21].string_at(row), field(21)) {
        Err(e) => Err(e),
        Ok(schema_string) => match required(columns[22].list_at(row), field(22)) {
            Err(e) => Err(e),
            Ok(partition_columns) => Ok((schema_string, partition_columns)),
        },
    }
}

/// The creation time and the configuration of the metadata action in a row.
pub open spec fn settings_at(columns: Seq<ColumnData>, row: int) -> Result<
    (Option<i64>, Map<Seq<char>, Seq<char>>),
    ErrorView,
> {
    match optional(columns[23].long_at(row), field(23)) {
        Err(e) => Err(e),
        Ok(created_time) => match optional(columns[24].map_at(row), field(24)) {
            Err(e) => Err(e),
            Ok(configuration) => Ok((created_time, map_or_empty(configuration))),
        },
    }
}

/// The metadata action in a row. The id says that there is one.
pub open spec fn metadata_at(columns: Seq<ColumnData>, row: int) -> Result<
    Option<MetadataView>,
    ErrorView,
> {
    match optional(columns[16].string_at(row), field(16)) {
        Err(e) => Err(e),
        Ok(None) => Ok(None),
        Ok(Some(id)) => match names_at(columns, row) {
            Err(e) => Err(e),
            Ok((name, description)) => match format_at(columns, row) {
                Err(e) => Err(e),
                Ok((format_provider, format_options)) => match layout_at(columns, row) {
                    Err(e) => Err(e),
                    Ok((schema_string, partition_columns)) => match settings_at(columns, row) {
                        Err(e) => Err(e),
                        Ok((created_time, configuration)) => Ok(
                            Some(
                                MetadataView {
                                    id,
                                    name,
                                    description,
                                    format_provider,
                                    format_options,
                                    schema_string,
                                    partition_columns,
                                    created_time,
                                    configuration,
                                },
                            ),
                        ),
                    },
                },
            },
        },
    }
}

/// What reading the actions of a row gives.
pub open spec fn row_at(columns: Seq<ColumnData>, row: int) -> RowView {
    RowView {
        commit_info: commit_info_at(columns, row),
        add_size: add_size_at(columns, row),
        remove_size: remove_size_at(columns, row),
        domain: domain_at(columns, row),
        transaction: transaction_at(columns, row),
        protocol: protocol_at(columns, row),
        metadata: metadata_at(columns, row),
    }
}

/// What reading columns gives that have so many rows.
pub open spec fn batch_of(row_count: nat, columns: Seq<ColumnData>) -> BatchView {
    BatchView {
        num_columns: columns.len(),
        file_url: required(columns[COL_FILE as int].string_at(0), field(COL_FILE as int)),
        rows: Seq::new(row_count, |row: int| row_at(columns, row)),
    }
}

impl View for ColumnBatch {
    type V = BatchView;

    open spec fn view(&self) -> BatchView {
        batch_of(self.spec_row_count(), self.spec_columns())
    }
}

/// The batches by what reading them gives. One that could not be had is its error.
pub open spec fn batch_views(batches: Seq<DeltaResult<ColumnBatch>>) -> Seq<
    Result<BatchView, ErrorView>,
> {
    Seq::new(
        batches.len(),
        |i: int|
            match batches[i] {
                Ok(batch) => Ok(batch@),
                Err(e) => Err(e@),
            },
    )
}

/// Can the actions of the row be read: are all columns there, and do they have the row?
pub open spec fn readable(columns: Seq<ColumnData>, row: int) -> bool {
    columns.len() == replay_column_count() && have_rows(columns, row + 1)
}

/// The names by which the columns are read are those that the replay selects, in their order.
proof fn lemma_fields()
    ensures
        field(0) == "_file"@,
        field(1) == "commitInfo.operation"@,
        field(2) == "commitInfo.inCommitTimestamp"@,
        field(3) == "add.size"@,
        field(4) == "remove.path"@,
        field(5) == "remove.size"@,
        field(6) == "domainMetadata.domain"@,
        field(7) == "domainMetadata.configuration"@,
        field(8) == "domainMetadata.removed"@,
        field(9) == "txn.appId"@,
        field(10) == "txn.version"@,
        field(11) == "txn.lastUpdated"@,
        field(12) == "protocol.minReaderVersion"@,
        field(13) == "protocol.minWriterVersion"@,
        field(14) == "protocol.readerFeatures"@,
        field(15) == "protocol.writerFeatures"@,
        field(16) == "metaData.id"@,
        field(17) == "metaData.name"@,
        field(18) == "metaData.description"@,
        field(19) == "metaData.format.provider"@,
        field(20) == "metaData.format.options"@,
        field(21) == "metaData.schemaString"@,
        field(22) == "metaData.partitionColumns"@,
        field(23) == "metaData.createdTime"@,
        field(24) == "metaData.configuration"@,
{
}

/// Does a result say what the model says?
pub open spec fn reads_as<T>(r: DeltaResult<T>, expected: Result<T, ErrorView>) -> bool {
    match r {
        Ok(value) => expected == Ok::<T, ErrorView>(value),
        Err(e) => expected == Err::<T, ErrorView>(e@),
    }
}

/// The URL of the commit file, out of the first row.
pub fn read_file_url(columns: &Vec<ColumnData>) -> (r: DeltaResult<&str>)
    requires
        readable(columns@, 0),
    ensures
        match r {
            Ok(url) => batch_of(1, columns@).file_url == Ok::<Seq<char>, ErrorView>(url@),
            Err(e) => batch_of(1, columns@).file_url == Err::<Seq<char>, ErrorView>(e@),
        },
{
    proof {
        lemma_fields();
    }
    match columns[COL_FILE].get_str(0, "_file") {
        Ok(Some(url)) => Ok(url),
        Ok(None) => Err(Error::missing_data("_file")),
        Err(e) => Err(e),
    }
}

/// Reads the operation and the timestamp of the commitInfo action in a row.
pub fn read_commit_info(columns: &Vec<ColumnData>, row: usize) -> (r: DeltaResult<
    (Option<&str>, Option<i64>),
>)
    requires
        readable(columns@, row as int),
    ensures
        match r {
            Ok((operation, timestamp)) => commit_info_at(columns@, row as int) == Ok::<
                (Option<Seq<char>>, Option<i64>),
                ErrorView,
            >((opt_str(operation), timestamp)),
            Err(e) => commit_info_at(columns@, row as int) == Err::<
                (Option<Seq<char>>, Option<i64>),
                ErrorView,
            >(e@),
        },
{
    proof {
        lemma_fields();
    }
    let operation = match columns[COL_OP].get_str(row, "commitInfo.operation") {
        Ok(operation) => operation,
        Err(e) => {
            return Err(e);
        },
    };
    match columns[COL_ICT].get_long(row, "commitInfo.inCommitTimestamp") {
        Ok(timestamp) => Ok((operation, timestamp)),
        Err(e) => Err(e),
    }
}

/// Reads the size of the file that a row adds.
pub fn read_add_size(columns: &Vec<ColumnData>, row: usize) -> (r: DeltaResult<Option<i64>>)
    requires
        readable(columns@, row as int),
    ensures
        reads_as(r, add_size_at(columns@, row as int)),
{
    proof {
        lemma_fields();
    }
    columns[COL_ADD_SIZE].get_long(row, "add.size")
}

/// Reads the path and the size of the file that a row removes.
pub fn read_remove(columns: &Vec<ColumnData>, row: usize) -> (r: DeltaResult<
    Option<(&str, Option<i64>)>,
>)
    requires
        readable(columns@, row as int),
    ensures
        match r {
            Ok(Some((path, size))) => remove_size_at(columns@, row as int) == Ok::<
                Option<Option<i64>>,
                ErrorView,
            >(Some(size)) && columns@[COL_REMOVE_PATH as int].string_at(row as int) == Some(
                Some(path@),
            ),
            Ok(None) => remove_size_at(columns@, row as int) == Ok::<
                Option<Option<i64>>,
                ErrorView,
            >(None),
            Err(e) => remove_size_at(columns@, row as int) == Err::<
                Option<Option<i64>>,
                ErrorView,
            >(e@),
        },
{
    proof {
        lemma_fields();
    }
    match columns[COL_REMOVE_PATH].get_str(row, "remove.path") {
        Err(e) => Err(e),
        Ok(None) => Ok(None),
        Ok(Some(path)) => match columns[COL_REMOVE_SIZE].get_long(row, "remove.size") {
            Ok(size) => Ok(Some((path, size))),
            Err(e) => Err(e),
        },
    }
}

/// Reads the domainMetadata action in a row.
pub fn read_domain(columns: &Vec<ColumnData>, row: usize) -> (r: DeltaResult<
    Option<DomainMetadata>,
>)
    requires
        readable(columns@, row as int),
    ensures
        reads_as(r, domain_at(columns@, row as int)),
{
    proof {
        lemma_fields();
    }
    let domain = match columns[COL_DM_DOMAIN].get_string(row, "domainMetadata.domain") {
        Ok(Some(domain)) => domain,
        Ok(None) => {
            return Ok(None);
        },
        Err(e) => {
            return Err(e);
        },
    };
    let configuration = match columns[COL_DM_CONFIG].get_string(
        row,
        "domainMetadata.configuration",
    ) {
        Ok(Some(configuration)) => configuration,
        Ok(None) => {
            return Err(Error::missing_data("domainMetadata.configuration"));
        },
        Err(e) => {
            return Err(e);
        },
    };
    match columns[COL_DM_REMOVED].get_bool(row, "domainMetadata.removed") {
        Ok(Some(removed)) => Ok(Some(DomainMetadata { domain, configuration, removed })),
        Ok(None) => Err(Error::missing_data("domainMetadata.removed")),
        Err(e) => Err(e),
    }
}

/// Reads the txn action in a row.
pub fn read_transaction(columns: &Vec<ColumnData>, row: usize) -> (r: DeltaResult<
    Option<SetTransaction>,
>)
    requires
        readable(columns@, row as int),
    ensures
        reads_as(r, transaction_at(columns@, row as int)),
{
    proof {
        lemma_fields();
    }
    let app_id = match columns[COL_TXN_APP_ID].get_string(row, "txn.appId") {
        Ok(Some(app_id)) => app_id,
        Ok(None) => {
            return Ok(None);
        },
        Err(e) => {
            return Err(e);
        },
    };
    let version = match columns[COL_TXN_VERSION].get_long(row, "txn.version") {
        Ok(Some(version)) => version,
        Ok(None) => {
            return Err(Error::missing_data("txn.version"));
        },
        Err(e) => {
            return Err(e);
        },
    };
    match columns[COL_TXN_LAST_UPDATED].get_long(row, "txn.lastUpdated") {
        Ok(last_updated) => Ok(Some(SetTransaction { app_id, version, last_updated })),
        Err(e) => Err(e),
    }
}

/// Reads the protocol action in a row.
pub fn visit_protocol_at(columns: &Vec<ColumnData>, row: usize) -> (r: DeltaResult<
    Option<Protocol>,
>)
    requires
        readable(columns@, row as int),
    ensures
        match r {
            Ok(Some(protocol)) => protocol_at(columns@, row as int) == Ok::<
                Option<ProtocolView>,
                ErrorView,
            >(Some(protocol@)),
            Ok(None) => protocol_at(columns@, row as int) == Ok::<Option<ProtocolView>, ErrorView>(
                None,
            ),
            Err(e) => protocol_at(columns@, row as int) == Err::<Option<ProtocolView>, ErrorView>(
                e@,
            ),
        },
{
    proof {
        lemma_fields();
    }
    let min_reader_version = match columns[COL_PROTOCOL].get_int(
        row,
        "protocol.minReaderVersion",
    ) {
        Ok(Some(version)) => version,
        Ok(None) => {
            return Ok(None);
        },
        Err(e) => {
            return Err(e);
        },
    };
    let min_writer_version = match columns[COL_PROTOCOL + 1].get_int(
        row,
        "protocol.minWriterVersion",
    ) {
        Ok(Some(version)) => version,
        Ok(None) => {
            return Err(Error::missing_data("protocol.minWriterVersion"));
        },
        Err(e) => {
            return Err(e);
        },
    };
    let reader_features = match columns[COL_PROTOCOL + 2].get_list(
        row,
        "protocol.readerFeatures",
    ) {
        Ok(features) => features,
        Err(e) => {
            return Err(e);
        },
    };
    match columns[COL_PROTOCOL + 3].get_list(row, "protocol.writerFeatures") {
        Ok(writer_features) => Ok(
            Some(
                Protocol {
                    min_reader_version,
                    min_writer_version,
                    reader_features,
                    writer_features,
                },
            ),
        ),
        Err(e) => Err(e),
    }
}

fn copy_text(s: Option<&str>) -> (r: Option<String>)
    ensures
        opt_text(r) == opt_str(s),
{
    match s {
        Some(s) => Some(s.to_owned()),
        None => None,
    }
}

fn or_empty(map: Option<StringMap<String>>) -> (r: StringMap<String>)
    ensures
        text_map(r@) == map_or_empty(
            match map {
                Some(map) => Some(text_map(map@)),
                None => None,
            },
        ),
{
    match map {
        Some(map) => map,
        None => {
            let empty: StringMap<String> = StringMap::new();
            assert(text_map(empty@) =~= Map::empty());
            empty
        },
    }
}

fn read_names(columns: &Vec<ColumnData>, row: usize) -> (r: DeltaResult<
    (Option<String>, Option<String>),
>)
    requires
        readable(columns@, row as int),
    ensures
        match r {
            Ok((name, description)) => names_at(columns@, row as int) == Ok::<
                (Option<Seq<char>>, Option<Seq<char>>),
                ErrorView,
            >((opt_text(name), opt_text(description))),
            Err(e) => names_at(columns@, row as int) == Err::<
                (Option<Seq<char>>, Option<Seq<char>>),
                ErrorView,
            >(e@),
        },
{
    proof {
        lemma_fields();
    }
    let name = match columns[COL_METADATA + 1].get_str(row, "metaData.name") {
        Ok(name) => name,
        Err(e) => {
            return Err(e);
        },
    };
    match columns[COL_METADATA + 2].get_str(row, "metaData.description") {
        Ok(description) => Ok((copy_text(name), copy_text(description))),
        Err(e) => Err(e),
    }
}

fn read_format(columns: &Vec<ColumnData>, row: usize) -> (r: DeltaResult<Format>)
    requires
        readable(columns@, row as int),
    ensures
        match r {
            Ok(format) => format_at(columns@, row as int) == Ok::<
                (Seq<char>, Map<Seq<char>, Seq<char>>),
                ErrorView,
            >((format.provider@, text_map(format.options@))),
            Err(e) => format_at(columns@, row as int) == Err::<
                (Seq<char>, Map<Seq<char>, Seq<char>>),
                ErrorView,
            >(e@),
        },
{
    proof {
        lemma_fields();
    }
    let provider = match columns[COL_METADATA + 3].get_str(row, "metaData.format.provider") {
        Ok(Some(provider)) => provider,
        Ok(None) => {
            return Err(Error::missing_data("metaData.format.provider"));
        },
        Err(e) => {
            return Err(e);
        },
    };
    match columns[COL_METADATA + 4].get_map(row, "metaData.format.options") {
        Ok(options) => Ok(Format { provider: provider.to_owned(), options: or_empty(options) }),
        Err(e) => Err(e),
    }
}

fn read_layout(columns: &Vec<ColumnData>, row: usize) -> (r: DeltaResult<(String, Vec<String>)>)
    requires
        readable(columns@, row as int),
    ensures
        match r {
            Ok((schema_string, partition_columns)) => layout_at(columns@, row as int) == Ok::<
                (Seq<char>, Seq<Seq<char>>),
                ErrorView,
            >((schema_string@, texts(partition_columns@))),
            Err(e) => layout_at(columns@, row as int) == Err::<
                (Seq<char>, Seq<Seq<char>>),
                ErrorView,
            >(e@),
        },
{
    proof {
        lemma_fields();
    }
    let schema_string = match columns[COL_METADATA + 5].get_str(row, "metaData.schemaString") {
        Ok(Some(schema_string)) => schema_string,
        Ok(None) => {
            return Err(Error::missing_data("metaData.schemaString"));
        },
        Err(e) => {
            return Err(e);
        },
    };
    match columns[COL_METADATA + 6].get_list(row, "metaData.partitionColumns") {
        Ok(Some(partition_columns)) => Ok((schema_string.to_owned(), partition_columns)),
        Ok(None) => Err(Error::missing_data("metaData.partitionColumns")),
        Err(e) => Err(e),
    }
}

fn read_settings(columns: &Vec<ColumnData>, row: usize) -> (r: DeltaResult<
    (Option<i64>, StringMap<String>),
>)
    requires
        readable(columns@, row as int),
    ensures
        match r {
            Ok((created_time, configuration)) => settings_at(columns@, row as int) == Ok::<
                (Option<i64>, Map<Seq<char>, Seq<char>>),
                ErrorView,
            >((created_time, text_map(configuration@))),
            Err(e) => settings_at(columns@, row as int) == Err::<
                (Option<i64>, Map<Seq<char>, Seq<char>>),
                ErrorView,
            >(e@),
        },
{
    proof {
        lemma_fields();
    }
    let created_time = match columns[COL_METADATA + 7].get_long(row, "metaData.createdTime") {
        Ok(created_time) => created_time,
        Err(e) => {
            return Err(e);
        },
    };
    match columns[COL_METADATA + 8].get_map(row, "metaData.configuration") {
        Ok(configuration) => Ok((created_time, or_empty(configuration))),
        Err(e) => Err(e),
    }
}

/// Reads the metadata action in a row.
pub fn visit_metadata_at(columns: &Vec<ColumnData>, row: usize) -> (r: DeltaResult<
    Option<Metadata>,
>)
    requires
        readable(columns@, row as int),
    ensures
        match r {
            Ok(Some(metadata)) => metadata_at(columns@, row as int) == Ok::<
                Option<MetadataView>,
                ErrorView,
            >(Some(metadata@)),
            Ok(None) => metadata_at(columns@, row as int) == Ok::<Option<MetadataView>, ErrorView>(
                None,
            ),
            Err(e) => metadata_at(columns@, row as int) == Err::<Option<MetadataView>, ErrorView>(
                e@,
            ),
        },
{
    proof {
        lemma_fields();
    }
    let id = match columns[COL_METADATA].get_str(row, "metaData.id") {
        Ok(Some(id)) => id,
        Ok(None) => {
            return Ok(None);
        },
        Err(e) => {
            return Err(e);
        },
    };
    let (name, description) = match read_names(columns, row) {
        Ok(names) => names,
        Err(e) => {
            return Err(e);
        },
    };
    let format = match read_format(columns, row) {
        Ok(format) => format,
        Err(e) => {
            return Err(e);
        },
    };
    let (schema_string, partition_columns) = match read_layout(columns, row) {
        Ok(layout) => layout,
        Err(e) => {
            return Err(e);
        },
    };
    let (created_time, configuration) = match read_settings(columns, row) {
        Ok(settings) => settings,
        Err(e) => {
            return Err(e);
        },
    };
    Ok(
        Some(
            Metadata {
                id: id.to_owned(),
                name,
                description,
                format,
                schema_string,
                partition_columns,
                created_time,
                configuration,
            },
        ),
    )
}

/// Does the column hold values of the type?
pub open spec fn holds(column: ColumnData, data_type: DataTypeView) -> bool {
    match data_type {
        DataTypeView::Primitive(PrimitiveType::String) => column is Strings,
        DataTypeView::Primitive(PrimitiveType::Integer) => column is Integers,
        DataTypeView::Primitive(PrimitiveType::Long) => column is Longs,
        DataTypeView::Primitive(PrimitiveType::Boolean) => column is Booleans,
        DataTypeView::Array { .. } => column is Lists,
        DataTypeView::Mapping { .. } => column is Maps,
        _ => false,
    }
}

/// Columns of the types that the replay selects are read without an error, but for a value that is missing:
/// a commitInfo, add or remove action can always be read.
pub proof fn law_selected_columns_can_be_read(columns: Seq<ColumnData>, row: int)
    requires
        columns.len() == replay_column_count(),
        forall|k: int|
            0 <= k < columns.len() ==> holds(#[trigger] columns[k], replay_columns()[k].1),
    ensures
        row_at(columns, row).commit_info is Ok,
        row_at(columns, row).add_size is Ok,
        row_at(columns, row).remove_size is Ok,
        row_at(columns, row).domain matches Err(e) ==> e is MissingData,
        row_at(columns, row).transaction matches Err(e) ==> e is MissingData,
        row_at(columns, row).protocol matches Err(e) ==> e is MissingData,
        row_at(columns, row).metadata matches Err(e) ==> e is MissingData,
{
}

} // verus!
