//! The actions of a Delta log.

use vstd::prelude::*;

use crate::string_map::{text_map, StringMap};
use crate::text::{opt_text, texts};

verus! {

/// The version of a table.
pub type Version = u64;

/// A file and what is known of it without opening it.
#[derive(Debug, PartialEq)]
pub struct FileMeta {
    /// The URL of the file.
    pub location: String,
    /// The time of the last modification, in milliseconds since the epoch.
    pub last_modified: i64,
    /// The size in bytes.
    pub size: u64,
}

/// What a [`FileMeta`] says.
pub struct FileMetaView {
    pub location: Seq<char>,
    pub last_modified: i64,
    pub size: u64,
}

impl View for FileMeta {
    type V = FileMetaView;

    open spec fn view(&self) -> FileMetaView {
        FileMetaView {
            location: self.location@,
            last_modified: self.last_modified,
            size: self.size,
        }
    }
}

impl Clone for FileMeta {
    fn clone(&self) -> (r: Self)
        ensures
            r@ == self@,
    {
        FileMeta {
            location: self.location.clone(),
            last_modified: self.last_modified,
            size: self.size,
        }
    }
}

/// The views of a list of files.
pub open spec fn file_views(files: Seq<FileMeta>) -> Seq<FileMetaView> {
    Seq::new(files.len(), |i: int| files[i]@)
}

/// The versions and features that a table asks of its readers and writers.
#[derive(Debug)]
pub struct Protocol {
    pub min_reader_version: i32,
    pub min_writer_version: i32,
    pub reader_features: Option<Vec<String>>,
    pub writer_features: Option<Vec<String>>,
}

/// What a [`Protocol`] says.
#[verifier::ext_equal]
pub struct ProtocolView {
    pub min_reader_version: i32,
    pub min_writer_version: i32,
    pub reader_features: Option<Seq<Seq<char>>>,
    pub writer_features: Option<Seq<Seq<char>>>,
}

/// The texts of an optional list of strings.
pub open spec fn opt_texts(list: Option<Vec<String>>) -> Option<Seq<Seq<char>>> {
    match list {
        Some(list) => Some(texts(list@)),
        None => None,
    }
}

impl View for Protocol {
    type V = ProtocolView;

    open spec fn view(&self) -> ProtocolView {
        ProtocolView {
            min_reader_version: self.min_reader_version,
            min_writer_version: self.min_writer_version,
            reader_features: opt_texts(self.reader_features),
            writer_features: opt_texts(self.writer_features),
        }
    }
}

/// The view of an optional protocol.
pub open spec fn protocol_view(protocol: Option<Protocol>) -> Option<ProtocolView> {
    match protocol {
        Some(protocol) => Some(protocol@),
        None => None,
    }
}

/// The format of the data files.
#[derive(Debug)]
pub struct Format {
    pub provider: String,
    pub options: StringMap<String>,
}

/// The metadata of a table.
#[derive(Debug)]
pub struct Metadata {
    pub id: String,
    pub name: Option<String>,
    pub description: Option<String>,
    pub format: Format,
    pub schema_string: String,
    pub partition_columns: Vec<String>,
    pub created_time: Option<i64>,
    pub configuration: StringMap<String>,
}

/// What a [`Metadata`] says.
#[verifier::ext_equal]
pub struct MetadataView {
    pub id: Seq<char>,
    pub name: Option<Seq<char>>,
    pub description: Option<Seq<char>>,
    pub format_provider: Seq<char>,
    pub format_options: Map<Seq<char>, Seq<char>>,
    pub schema_string: Seq<char>,
    pub partition_columns: Seq<Seq<char>>,
    pub created_time: Option<i64>,
    pub configuration: Map<Seq<char>, Seq<char>>,
}

impl View for Metadata {
    type V = MetadataView;

    open spec fn view(&self) -> MetadataView {
        MetadataView {
            id: self.id@,
            name: opt_text(self.name),
            description: opt_text(self.description),
            format_provider: self.format.provider@,
            format_options: text_map(self.format.options@),
            schema_string: self.schema_string@,
            partition_columns: texts(self.partition_columns@),
            created_time: self.created_time,
            configuration: text_map(self.configuration@),
        }
    }
}

/// The view of optional metadata.
pub open spec fn metadata_view(metadata: Option<Metadata>) -> Option<MetadataView> {
    match metadata {
        Some(metadata) => Some(metadata@),
        None => None,
    }
}

/// The configuration of one metadata domain, or the mark of its removal.
#[derive(Debug)]
pub struct DomainMetadata {
    pub domain: String,
    pub configuration: String,
    pub removed: bool,
}

impl DomainMetadata {
    /// The domain with the given configuration.
    pub fn new(domain: String, configuration: String) -> (r: DomainMetadata)
        ensures
            r == (DomainMetadata { domain, configuration, removed: false }),
    {
        DomainMetadata { domain, configuration, removed: false }
    }

    /// The mark that the domain was removed.
    pub fn remove(domain: String, configuration: String) -> (r: DomainMetadata)
        ensures
            r == (DomainMetadata { domain, configuration, removed: true }),
    {
        DomainMetadata { domain, configuration, removed: true }
    }

    /// The configuration of the domain.
    pub fn configuration(&self) -> (r: &str)
        ensures
            r@ == self.configuration@,
    {
        self.configuration.as_str()
    }

    /// Was the domain removed?
    pub fn is_removed(&self) -> (r: bool)
        ensures
            r == self.removed,
    {
        self.removed
    }
}

/// The progress that an application has recorded in the log.
#[derive(Debug)]
pub struct SetTransaction {
    pub app_id: String,
    pub version: i64,
    pub last_updated: Option<i64>,
}

impl SetTransaction {
    /// The progress of an application.
    pub fn new(app_id: String, version: i64, last_updated: Option<i64>) -> (r: SetTransaction)
        ensures
            r == (SetTransaction { app_id, version, last_updated }),
    {
        SetTransaction { app_id, version, last_updated }
    }
}

} // verus!
