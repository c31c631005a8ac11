//! The properties of tables that Unity Catalog manages.

use vstd::prelude::*;

use crate::actions::Version;
use crate::error::{DeltaResult, Error, ErrorView};
use crate::expressions::ColumnName;
use crate::string_map::{lemma_text_map_insert, text_map, StringMap};
use crate::text::{decimal, decimal_int, decimal_int_text, decimal_text, join2, texts};
use crate::text_laws::{law_decimal_notation_denotes_the_number, number_of};

verus! {

/// The property that marks a table as managed by a catalog.
pub const CATALOG_MANAGED_FEATURE_KEY: &'static str = "delta.feature.catalogManaged";

/// The property that has the protocol checked before files are removed.
pub const VACUUM_PROTOCOL_CHECK_FEATURE_KEY: &'static str = "delta.feature.vacuumProtocolCheck";

/// The value of a property that marks a feature as supported.
pub const FEATURE_SUPPORTED: &'static str = "supported";

/// The property that holds the identifier of a table in the catalog.
pub const UC_TABLE_ID_KEY: &'static str = "io.unitycatalog.tableId";

/// The property that holds the last version of a table that the catalog knows.
pub const METASTORE_LAST_UPDATE_VERSION: &'static str = "delta.lastUpdateVersion";

/// The property that holds the timestamp of that version.
pub const METASTORE_LAST_COMMIT_TIMESTAMP: &'static str = "delta.lastCommitTimestamp";

/// The property that holds the columns by which a table is clustered.
pub const CLUSTERING_COLUMNS: &'static str = "clusteringColumns";

/// The properties that a managed table must have in its log.
pub open spec fn disk_properties(uc_table_id: Seq<char>) -> Map<Seq<char>, Seq<char>> {
    Map::empty().insert(CATALOG_MANAGED_FEATURE_KEY@, FEATURE_SUPPORTED@).insert(
        VACUUM_PROTOCOL_CHECK_FEATURE_KEY@,
        FEATURE_SUPPORTED@,
    ).insert(UC_TABLE_ID_KEY@, uc_table_id)
}

/// The properties that must be written to the log of a new managed table.
pub fn get_required_properties_for_disk(uc_table_id: &str) -> (r: StringMap<String>)
    ensures
        text_map(r@) == disk_properties(uc_table_id@),
{
    broadcast use lemma_text_map_insert;

    let mut properties: StringMap<String> = StringMap::new();
    assert(text_map(properties@) =~= Map::empty());
    properties.insert(CATALOG_MANAGED_FEATURE_KEY.to_owned(), FEATURE_SUPPORTED.to_owned());
    properties.insert(VACUUM_PROTOCOL_CHECK_FEATURE_KEY.to_owned(), FEATURE_SUPPORTED.to_owned());
    properties.insert(UC_TABLE_ID_KEY.to_owned(), uc_table_id.to_owned());
    properties
}

/// The three properties in the log of a managed table do not get in each other's way.
pub proof fn law_disk_properties_are_three(uc_table_id: Seq<char>)
    ensures
        disk_properties(uc_table_id).dom().finite(),
        disk_properties(uc_table_id).dom().len() == 3,
        disk_properties(uc_table_id)[CATALOG_MANAGED_FEATURE_KEY@] == FEATURE_SUPPORTED@,
        disk_properties(uc_table_id)[VACUUM_PROTOCOL_CHECK_FEATURE_KEY@] == FEATURE_SUPPORTED@,
        disk_properties(uc_table_id)[UC_TABLE_ID_KEY@] == uc_table_id,
{
    reveal_strlit("delta.feature.catalogManaged");
    reveal_strlit("delta.feature.vacuumProtocolCheck");
    reveal_strlit("io.unitycatalog.tableId");
    assert("delta.feature.catalogManaged"@.len() == 28);
    assert("delta.feature.vacuumProtocolCheck"@.len() == 33);
    assert("io.unitycatalog.tableId"@.len() == 23);
}

/// What is known of a table after its creation.
#[derive(Debug)]
pub struct CreatedTable {
    /// The version of the snapshot.
    pub version: Version,
    /// The properties of the table.
    pub metadata_configuration: StringMap<String>,
    /// The properties that follow from the table's protocol.
    pub protocol_derived_properties: StringMap<String>,
    /// The timestamp in the commit, if it could be looked up and is there.
    pub in_commit_timestamp: DeltaResult<Option<i64>>,
    /// The logical names of the columns by which the table is clustered, if they could be looked up and there
    /// are any.
    pub clustering_columns: DeltaResult<Option<Vec<ColumnName>>>,
}

/// The paths of columns.
pub open spec fn column_paths(columns: Seq<ColumnName>) -> Seq<Seq<Seq<char>>> {
    Seq::new(columns.len(), |i: int| columns[i]@)
}

/// The texts of lists of strings.
pub open spec fn path_texts(paths: Seq<Vec<String>>) -> Seq<Seq<Seq<char>>> {
    Seq::new(paths.len(), |i: int| texts(paths[i]@))
}

/// What `serde_json::to_string` makes of lists of strings: a JSON text, or the message of its error.
pub uninterp spec fn json_of_paths(paths: Seq<Seq<Seq<char>>>) -> Result<Seq<char>, Seq<char>>;

/// Calls `serde_json::to_string`. What comes back depends on the strings alone; how JSON is written is not
/// stated here.
#[verifier::external_body]
fn paths_to_json(paths: &Vec<Vec<String>>) -> (r: Result<String, String>)
    ensures
        match r {
            Ok(json) => json_of_paths(path_texts(paths@)) == Ok::<Seq<char>, Seq<char>>(json@),
            Err(message) => json_of_paths(path_texts(paths@)) == Err::<Seq<char>, Seq<char>>(
                message@,
            ),
        },
{
    match serde_json::to_string(paths) {
        Ok(json) => Ok(json),
        Err(e) => Err(e.to_string()),
    }
}

/// The paths of columns as JSON, or the message of the error.
pub fn columns_to_json(columns: &Vec<ColumnName>) -> (r: Result<String, String>)
    ensures
        match r {
            Ok(json) => json_of_paths(column_paths(columns@)) == Ok::<Seq<char>, Seq<char>>(json@),
            Err(message) => json_of_paths(column_paths(columns@)) == Err::<Seq<char>, Seq<char>>(
                message@,
            ),
        },
{
    let mut paths: Vec<Vec<String>> = Vec::new();
    let mut i: usize = 0;
    while i < columns.len()
        invariant
            i <= columns@.len(),
            paths@.len() == i,
            forall|k: int| 0 <= k < i ==> texts((#[trigger] paths@[k])@) == columns@[k]@,
        decreases columns@.len() - i,
    {
        let path = columns[i].path();
        let mut names: Vec<String> = Vec::new();
        let mut j: usize = 0;
        while j < path.len()
            invariant
                j <= path@.len(),
                names@.len() == j,
                forall|k: int| 0 <= k < j ==> (#[trigger] names@[k])@ == path@[k]@,
            decreases path@.len() - j,
        {
            names.push(path[j].clone());
            j += 1;
        }
        assert(texts(names@) =~= texts(path@));
        paths.push(names);
        i += 1;
    }
    assert(path_texts(paths@) =~= column_paths(columns@));
    paths_to_json(&paths)
}

/// The message for a table that is not new.
pub open spec fn not_new_message(version: Version) -> Seq<char> {
    "get_final_required_properties_for_uc is only valid for version 0 (table creation) snapshots, but snapshot is at version "@
        + decimal(version as nat)
}

/// The properties of a new table without those of its clustering.
pub open spec fn plain_properties(
    metadata_configuration: Map<Seq<char>, Seq<char>>,
    protocol_derived_properties: Map<Seq<char>, Seq<char>>,
    version: Version,
    timestamp: i64,
) -> Map<Seq<char>, Seq<char>> {
    metadata_configuration.union_prefer_right(protocol_derived_properties).insert(
        METASTORE_LAST_UPDATE_VERSION@,
        decimal(version as nat),
    ).insert(METASTORE_LAST_COMMIT_TIMESTAMP@, decimal_int(timestamp as int))
}

/// Is it what is returned for a new table whose clustering columns gave this JSON?
pub open spec fn is_final(
    result: DeltaResult<StringMap<String>>,
    version: Version,
    metadata_configuration: Map<Seq<char>, Seq<char>>,
    protocol_derived_properties: Map<Seq<char>, Seq<char>>,
    in_commit_timestamp: DeltaResult<Option<i64>>,
    clustering: DeltaResult<Option<Result<Seq<char>, Seq<char>>>>,
) -> bool {
    if version != 0 {
        result is Err && result->Err_0@ == ErrorView::Generic(not_new_message(version))
    } else {
        match (in_commit_timestamp, clustering) {
            (Err(e), _) => result == Err::<StringMap<String>, Error>(e),
            (Ok(None), _) => result is Err && result->Err_0@ == ErrorView::Generic(
                "In-commit timestamp is required for UC catalog-managed tables but was not found"@,
            ),
            (Ok(Some(_)), Err(e)) => result == Err::<StringMap<String>, Error>(e),
            (Ok(Some(_)), Ok(Some(Err(message)))) => result is Err && result->Err_0@
                == ErrorView::Generic("Failed to serialize clustering columns: "@ + message),
            (Ok(Some(timestamp)), Ok(None)) => result is Ok && text_map(result->Ok_0@)
                == plain_properties(
                metadata_configuration,
                protocol_derived_properties,
                version,
                timestamp,
            ),
            (Ok(Some(timestamp)), Ok(Some(Ok(json)))) => result is Ok && text_map(result->Ok_0@)
                == plain_properties(
                metadata_configuration,
                protocol_derived_properties,
                version,
                timestamp,
            ).insert(CLUSTERING_COLUMNS@, json),
        }
    }
}

/// The texts of what clustering columns gave.
pub open spec fn clustering_texts(clustering: DeltaResult<Option<Result<String, String>>>) -> DeltaResult<
    Option<Result<Seq<char>, Seq<char>>>,
> {
    match clustering {
        Err(e) => Err(e),
        Ok(None) => Ok(None),
        Ok(Some(Ok(json))) => Ok(Some(Ok(json@))),
        Ok(Some(Err(message))) => Ok(Some(Err(message@))),
    }
}

/// What the names of clustering columns give.
pub open spec fn clustering_json(columns: DeltaResult<Option<Vec<ColumnName>>>) -> DeltaResult<
    Option<Result<Seq<char>, Seq<char>>>,
> {
    match columns {
        Err(e) => Err(e),
        Ok(None) => Ok(None),
        Ok(Some(columns)) => Ok(Some(json_of_paths(column_paths(columns@)))),
    }
}

/// The properties of a new table, given the JSON of its clustering columns.
pub fn assemble_properties(
    version: Version,
    metadata_configuration: StringMap<String>,
    protocol_derived_properties: StringMap<String>,
    in_commit_timestamp: DeltaResult<Option<i64>>,
    clustering: DeltaResult<Option<Result<String, String>>>,
) -> (r: DeltaResult<StringMap<String>>)
    ensures
        is_final(
            r,
            version,
            text_map(metadata_configuration@),
            text_map(protocol_derived_properties@),
            in_commit_timestamp,
            clustering_texts(clustering),
        ),
{
    broadcast use lemma_text_map_insert;

    if version != 0 {
        let n = decimal_text(version);
        return Err(
            Error::generic(
                join2(
                    "get_final_required_properties_for_uc is only valid for version 0 (table creation) snapshots, but snapshot is at version ",
                    n.as_str(),
                ),
            ),
        );
    }
    let timestamp = match in_commit_timestamp {
        Ok(Some(timestamp)) => timestamp,
        Ok(None) => {
            return Err(
                Error::generic(
                    "In-commit timestamp is required for UC catalog-managed tables but was not found".to_owned(),
                ),
            );
        },
        Err(e) => {
            return Err(e);
        },
    };
    let clustering = match clustering {
        Ok(clustering) => clustering,
        Err(e) => {
            return Err(e);
        },
    };
    let ghost config = metadata_configuration@;
    let ghost protocol = protocol_derived_properties@;
    let mut properties = metadata_configuration;
    properties.extend(protocol_derived_properties);
    assert(text_map(properties@) =~= text_map(config).union_prefer_right(text_map(protocol)));
    properties.insert(METASTORE_LAST_UPDATE_VERSION.to_owned(), decimal_text(version));
    properties.insert(METASTORE_LAST_COMMIT_TIMESTAMP.to_owned(), decimal_int_text(timestamp));
    match clustering {
        Some(Ok(json)) => {
            properties.insert(CLUSTERING_COLUMNS.to_owned(), json);
        },
        Some(Err(message)) => {
            return Err(
                Error::generic(
                    join2("Failed to serialize clustering columns: ", message.as_str()),
                ),
            );
        },
        None => {},
    }
    Ok(properties)
}

/// The properties that are sent to the catalog when the creation of a table is finished: those of the table,
/// over them those of its protocol, and over them the version, the timestamp and the clustering columns.
pub fn get_final_required_properties_for_uc(table: CreatedTable) -> (r: DeltaResult<
    StringMap<String>,
>)
    ensures
        is_final(
            r,
            table.version,
            text_map(table.metadata_configuration@),
            text_map(table.protocol_derived_properties@),
            table.in_commit_timestamp,
            clustering_json(table.clustering_columns),
        ),
{
    let clustering = match table.clustering_columns {
        Ok(Some(columns)) => Ok(Some(columns_to_json(&columns))),
        Ok(None) => Ok(None),
        Err(e) => Err(e),
    };
    assert(clustering_texts(clustering) == clustering_json(table.clustering_columns));
    assemble_properties(
        table.version,
        table.metadata_configuration,
        table.protocol_derived_properties,
        table.in_commit_timestamp,
        clustering,
    )
}

/// The version and the timestamp that are sent to the catalog are those of the snapshot, whatever the table's
/// own properties say.
pub proof fn law_snapshot_properties_win(
    metadata_configuration: Map<Seq<char>, Seq<char>>,
    protocol_derived_properties: Map<Seq<char>, Seq<char>>,
    version: Version,
    timestamp: i64,
    json: Seq<char>,
)
    ensures
        ({
            let sent = plain_properties(
                metadata_configuration,
                protocol_derived_properties,
                version,
                timestamp,
            );
            let clustered = sent.insert(CLUSTERING_COLUMNS@, json);
            &&& sent[METASTORE_LAST_UPDATE_VERSION@] == decimal(version as nat)
            &&& sent[METASTORE_LAST_COMMIT_TIMESTAMP@] == decimal_int(timestamp as int)
            &&& clustered[METASTORE_LAST_UPDATE_VERSION@] == decimal(version as nat)
            &&& clustered[METASTORE_LAST_COMMIT_TIMESTAMP@] == decimal_int(timestamp as int)
            &&& clustered[CLUSTERING_COLUMNS@] == json
        }),
{
    reveal_strlit("delta.lastUpdateVersion");
    reveal_strlit("delta.lastCommitTimestamp");
    reveal_strlit("clusteringColumns");
    assert("delta.lastUpdateVersion"@.len() == 23);
    assert("delta.lastCommitTimestamp"@.len() == 25);
    assert("clusteringColumns"@.len() == 17);
}

/// Every property of the table is sent with its own value, unless the protocol or the snapshot sets one of the
/// same name; every property of the protocol is sent unless the snapshot sets it.
pub proof fn law_table_properties_are_sent(
    metadata_configuration: Map<Seq<char>, Seq<char>>,
    protocol_derived_properties: Map<Seq<char>, Seq<char>>,
    version: Version,
    timestamp: i64,
    key: Seq<char>,
)
    requires
        key != METASTORE_LAST_UPDATE_VERSION@,
        key != METASTORE_LAST_COMMIT_TIMESTAMP@,
    ensures
        ({
            let sent = plain_properties(
                metadata_configuration,
                protocol_derived_properties,
                version,
                timestamp,
            );
            &&& sent.contains_key(key) == (metadata_configuration.contains_key(key)
                || protocol_derived_properties.contains_key(key))
            &&& protocol_derived_properties.contains_key(key) ==> sent[key]
                == protocol_derived_properties[key]
            &&& metadata_configuration.contains_key(key)
                && !protocol_derived_properties.contains_key(key) ==> sent[key]
                == metadata_configuration[key]
        }),
{
}

/// The properties for the log of a managed table are these three, and no other.
pub proof fn law_disk_has_three_properties(uc_table_id: &str, r: StringMap<String>, key: Seq<char>)
    requires
        call_ensures(get_required_properties_for_disk, (uc_table_id,), r),
    ensures
        r@.contains_key(key) <==> key == "delta.feature.catalogManaged"@ || key
            == "delta.feature.vacuumProtocolCheck"@ || key == "io.unitycatalog.tableId"@,
        r@.contains_key(key) ==> r@[key]@ == if key == "io.unitycatalog.tableId"@ {
            uc_table_id@
        } else {
            "supported"@
        },
{
    reveal_strlit("delta.feature.catalogManaged");
    reveal_strlit("delta.feature.vacuumProtocolCheck");
    reveal_strlit("io.unitycatalog.tableId");
    assert("delta.feature.catalogManaged"@.len() == 28);
    assert("delta.feature.vacuumProtocolCheck"@.len() == 33);
    assert("io.unitycatalog.tableId"@.len() == 23);
    assert(text_map(r@).contains_key(key) <==> r@.contains_key(key));
    assert(r@.contains_key(key) ==> text_map(r@)[key] == r@[key]@);
}

proof fn lemma_three_keys()
    ensures
        "delta.lastUpdateVersion"@ != "delta.lastCommitTimestamp"@,
        "delta.lastUpdateVersion"@ != "clusteringColumns"@,
        "delta.lastCommitTimestamp"@ != "clusteringColumns"@,
{
    reveal_strlit("delta.lastUpdateVersion");
    reveal_strlit("delta.lastCommitTimestamp");
    reveal_strlit("clusteringColumns");
    assert("delta.lastUpdateVersion"@.len() == 23);
    assert("delta.lastCommitTimestamp"@.len() == 25);
    assert("clusteringColumns"@.len() == 17);
}

/// The properties of a new table can be sent exactly if it is at version zero, its timestamp was found, and its
/// clustering columns, if it has any, were found and written.
pub proof fn law_new_tables_have_properties(
    version: Version,
    config: StringMap<String>,
    protocol: StringMap<String>,
    timestamp: DeltaResult<Option<i64>>,
    clustering: DeltaResult<Option<Result<String, String>>>,
    r: DeltaResult<StringMap<String>>,
)
    requires
        call_ensures(assemble_properties, (version, config, protocol, timestamp, clustering), r),
    ensures
        r is Ok <==> {
            &&& version == 0
            &&& timestamp is Ok && timestamp->Ok_0 is Some
            &&& clustering is Ok
            &&& clustering->Ok_0 is None || clustering->Ok_0->0 is Ok
        },
        version == 0 && timestamp is Err ==> r->Err_0 == timestamp->Err_0,
        version == 0 && timestamp is Ok && timestamp->Ok_0 is Some && clustering is Err ==> r->Err_0
            == clustering->Err_0,
{
}

/// Whether a new table is clustered or not, its version, its timestamp and its clustering columns are sent, and
/// otherwise exactly the properties of its protocol and those of the table itself. Of properties with the same
/// name the first of these is sent.
pub proof fn law_sent_properties(
    version: Version,
    config: StringMap<String>,
    protocol: StringMap<String>,
    timestamp: DeltaResult<Option<i64>>,
    clustering: DeltaResult<Option<Result<String, String>>>,
    r: DeltaResult<StringMap<String>>,
    key: Seq<char>,
)
    requires
        call_ensures(assemble_properties, (version, config, protocol, timestamp, clustering), r),
        r is Ok,
    ensures
        ({
            let sent = r->Ok_0@;
            if key == "delta.lastUpdateVersion"@ {
                sent.contains_key(key) && number_of(sent[key]@) == version && sent[key]@ == "0"@
            } else if key == "delta.lastCommitTimestamp"@ {
                &&& sent.contains_key(key)
                &&& timestamp->Ok_0->0 >= 0 ==> number_of(sent[key]@) == timestamp->Ok_0->0
                &&& timestamp->Ok_0->0 < 0 ==> sent[key]@[0] == '-' && number_of(sent[key]@.skip(1))
                    == -(timestamp->Ok_0->0)
            } else if key == "clusteringColumns"@ && clustering->Ok_0 is Some {
                sent.contains_key(key) && sent[key]@ == clustering->Ok_0->0->Ok_0@
            } else if protocol@.contains_key(key) {
                sent.contains_key(key) && sent[key]@ == protocol@[key]@
            } else if config@.contains_key(key) {
                sent.contains_key(key) && sent[key]@ == config@[key]@
            } else {
                !sent.contains_key(key)
            }
        }),
{
    lemma_three_keys();
    let sent = r->Ok_0@;
    let t = timestamp->Ok_0->0;
    assert(text_map(sent).contains_key(key) <==> sent.contains_key(key));
    assert(sent.contains_key(key) ==> text_map(sent)[key] == sent[key]@);
    law_decimal_notation_denotes_the_number(version as nat);
    reveal_strlit("0");
    assert(version == 0);
    assert(decimal(0) =~= "0"@);
    if t >= 0 {
        law_decimal_notation_denotes_the_number(t as nat);
    } else {
        law_decimal_notation_denotes_the_number((-t) as nat);
        assert(decimal_int(t as int).skip(1) =~= decimal((-t) as nat));
    }
}

/// What is sent for a created table is what is assembled from its version, its properties, its timestamp and the
/// JSON of the paths of its clustering columns.
pub proof fn law_created_table_is_assembled(
    table: CreatedTable,
    r: DeltaResult<StringMap<String>>,
    key: Seq<char>,
)
    requires
        call_ensures(get_final_required_properties_for_uc, (table,), r),
    ensures
        r is Ok ==> {
            &&& table.version == 0
            &&& table.in_commit_timestamp is Ok && table.in_commit_timestamp->Ok_0 is Some
            &&& table.clustering_columns is Ok
        },
        table.version == 0 && table.in_commit_timestamp is Ok && table.in_commit_timestamp->Ok_0
            is Some && table.clustering_columns is Ok && table.clustering_columns->Ok_0 is None
            ==> r is Ok,
        r is Ok ==> {
            let sent = r->Ok_0@;
            let timestamp = table.in_commit_timestamp->Ok_0->0;
            let protocol = table.protocol_derived_properties@;
            let config = table.metadata_configuration@;
            if key == "delta.lastUpdateVersion"@ {
                sent.contains_key(key) && sent[key]@ == "0"@
            } else if key == "delta.lastCommitTimestamp"@ {
                &&& sent.contains_key(key)
                &&& timestamp >= 0 ==> number_of(sent[key]@) == timestamp
                &&& timestamp < 0 ==> sent[key]@[0] == '-' && number_of(sent[key]@.skip(1))
                    == -timestamp
            } else if key == "clusteringColumns"@ && table.clustering_columns->Ok_0 is Some {
                &&& sent.contains_key(key)
                &&& json_of_paths(
                    Seq::new(
                        table.clustering_columns->Ok_0->0@.len(),
                        |i: int| table.clustering_columns->Ok_0->0@[i]@,
                    ),
                ) == Ok::<Seq<char>, Seq<char>>(sent[key]@)
            } else if protocol.contains_key(key) {
                sent.contains_key(key) && sent[key]@ == protocol[key]@
            } else if config.contains_key(key) {
                sent.contains_key(key) && sent[key]@ == config[key]@
            } else {
                !sent.contains_key(key)
            }
        },
{
    lemma_three_keys();
    if r is Ok {
        let sent = r->Ok_0@;
        let t = table.in_commit_timestamp->Ok_0->0;
        assert(text_map(sent).contains_key(key) <==> sent.contains_key(key));
        assert(sent.contains_key(key) ==> text_map(sent)[key] == sent[key]@);
        reveal_strlit("0");
        assert(decimal(0) =~= "0"@);
        if t >= 0 {
            law_decimal_notation_denotes_the_number(t as nat);
        } else {
            law_decimal_notation_denotes_the_number((-t) as nat);
            assert(decimal_int(t as int).skip(1) =~= decimal((-t) as nat));
        }
        if let Ok(Some(columns)) = table.clustering_columns {
            assert(column_paths(columns@) =~= Seq::new(columns@.len(), |i: int| columns@[i]@));
        }
    }
}

/// Properties that cannot be assembled are refused with the reason. The version comes first, then the timestamp, then the
/// clustering columns.
pub proof fn law_refusals_give_the_reason(
    version: Version,
    configuration: StringMap<String>,
    derived: StringMap<String>,
    timestamp: DeltaResult<Option<i64>>,
    clustering: DeltaResult<Option<Result<String, String>>>,
    r: DeltaResult<StringMap<String>>,
)
    requires
        call_ensures(
            assemble_properties,
            (version, configuration, derived, timestamp, clustering),
            r,
        ),
    ensures
        version != 0 ==> r is Err && r->Err_0@ == ErrorView::Generic(
            "get_final_required_properties_for_uc is only valid for version 0 (table creation) snapshots, but snapshot is at version "@
                + decimal(version as nat),
        ),
        version == 0 && timestamp is Err ==> r is Err && r->Err_0 == timestamp->Err_0,
        version == 0 && timestamp is Ok && timestamp->Ok_0 is None ==> r is Err && r->Err_0@
            == ErrorView::Generic(
            "In-commit timestamp is required for UC catalog-managed tables but was not found"@,
        ),
        version == 0 && timestamp is Ok && timestamp->Ok_0 is Some && clustering is Err ==> r is Err
            && r->Err_0 == clustering->Err_0,
        version == 0 && timestamp is Ok && timestamp->Ok_0 is Some && clustering is Ok
            && clustering->Ok_0 is Some && clustering->Ok_0->0 is Err ==> r is Err && r->Err_0@
            == ErrorView::Generic(
            "Failed to serialize clustering columns: "@ + clustering->Ok_0->0->Err_0@,
        ),
{
}

} // verus!
