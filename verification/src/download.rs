//! The catalog of `d.*` operations: the fields of a download that a
//! multicall can read.

use vstd::prelude::*;
use crate::operation::{remote_name_of, EntityKind, Operation, OperationView};
use crate::value::ResultType;

verus! {

/// A field of a download.
#[derive(Clone, Copy, Debug, PartialEq, Eq, Structural)]
pub enum DownloadField {
    /// Infohash for this torrent.
    Hash,
    BaseFilename,
    BasePath,
    Directory,
    DirectoryBase,
    /// The item's chunk size, in bytes (also known as "piece size").
    ChunkSize,
    /// Is the download complete (100%)?
    Complete,
    /// Is the download incomplete (less than 100%)?
    Incomplete,
    /// The number of completed bytes.
    CompletedBytes,
    /// The number of completed chunks (pieces).
    CompletedChunks,
    /// Get the download rate.
    DownRate,
    /// Get the download total (bytes).
    DownTotal,
    /// Is this torrent active?
    IsActive,
    IsOpen,
    IsClosed,
    /// The metafile from which this download was created.
    LoadedFile,
    /// Unstructured error messages, either generated by rtorrent, or forwarded from the
    /// tracker.
    Message,
    /// Get the name of the torrent.
    Name,
    /// Get the upload/download ratio for this download.
    Ratio,
    /// Get the size, in bytes, of the torrent contents.
    SizeBytes,
    /// Get the number of files associated with this download.
    SizeFiles,
    /// Get the state (`false` is stopped).
    State,
    /// Starts as the file the download was initially created from.
    TiedToFile,
    /// Get the number of trackers associated with this download.
    TrackerSize,
    /// Get the upload rate.
    UpRate,
    /// Get the upload total (bytes).
    UpTotal,
}

impl DownloadField {
    /// The name of this field within the namespace of downloads.
    pub open spec fn short_name(self) -> Seq<char> {
        match self {
            DownloadField::Hash => "hash"@,
            DownloadField::BaseFilename => "base_filename"@,
            DownloadField::BasePath => "base_path"@,
            DownloadField::Directory => "directory"@,
            DownloadField::DirectoryBase => "directory_base"@,
            DownloadField::ChunkSize => "chunk_size"@,
            DownloadField::Complete => "complete"@,
            DownloadField::Incomplete => "incomplete"@,
            DownloadField::CompletedBytes => "completed_bytes"@,
            DownloadField::CompletedChunks => "completed_chunks"@,
            DownloadField::DownRate => "down.rate"@,
            DownloadField::DownTotal => "down.total"@,
            DownloadField::IsActive => "is_active"@,
            DownloadField::IsOpen => "is_open"@,
            DownloadField::IsClosed => "is_closed"@,
            DownloadField::LoadedFile => "loaded_file"@,
            DownloadField::Message => "message"@,
            DownloadField::Name => "name"@,
            DownloadField::Ratio => "ratio"@,
            DownloadField::SizeBytes => "size_bytes"@,
            DownloadField::SizeFiles => "size_files"@,
            DownloadField::State => "state"@,
            DownloadField::TiedToFile => "tied_to_file"@,
            DownloadField::TrackerSize => "tracker_size"@,
            DownloadField::UpRate => "up.rate"@,
            DownloadField::UpTotal => "up.total"@,
        }
    }

    /// The type of this field's value.
    pub open spec fn declared_type(self) -> ResultType {
        match self {
            DownloadField::Hash
            | DownloadField::BaseFilename
            | DownloadField::BasePath
            | DownloadField::Directory
            | DownloadField::DirectoryBase
            | DownloadField::LoadedFile
            | DownloadField::Message
            | DownloadField::Name
            | DownloadField::TiedToFile => ResultType::Text,
            DownloadField::ChunkSize
            | DownloadField::CompletedBytes
            | DownloadField::CompletedChunks
            | DownloadField::DownRate
            | DownloadField::DownTotal
            | DownloadField::SizeBytes
            | DownloadField::SizeFiles
            | DownloadField::TrackerSize
            | DownloadField::UpRate
            | DownloadField::UpTotal => ResultType::Int64,
            DownloadField::Complete
            | DownloadField::Incomplete
            | DownloadField::IsActive
            | DownloadField::IsOpen
            | DownloadField::IsClosed
            | DownloadField::State => ResultType::Bool,
            DownloadField::Ratio => ResultType::Float64,
        }
    }

    /// The name of this field within the namespace of downloads.
    pub fn api(self) -> (name: &'static str)
        ensures
            name@ == self.short_name(),
    {
        match self {
            DownloadField::Hash => "hash",
            DownloadField::BaseFilename => "base_filename",
            DownloadField::BasePath => "base_path",
            DownloadField::Directory => "directory",
            DownloadField::DirectoryBase => "directory_base",
            DownloadField::ChunkSize => "chunk_size",
            DownloadField::Complete => "complete",
            DownloadField::Incomplete => "incomplete",
            DownloadField::CompletedBytes => "completed_bytes",
            DownloadField::CompletedChunks => "completed_chunks",
            DownloadField::DownRate => "down.rate",
            DownloadField::DownTotal => "down.total",
            DownloadField::IsActive => "is_active",
            DownloadField::IsOpen => "is_open",
            DownloadField::IsClosed => "is_closed",
            DownloadField::LoadedFile => "loaded_file",
            DownloadField::Message => "message",
            DownloadField::Name => "name",
            DownloadField::Ratio => "ratio",
            DownloadField::SizeBytes => "size_bytes",
            DownloadField::SizeFiles => "size_files",
            DownloadField::State => "state",
            DownloadField::TiedToFile => "tied_to_file",
            DownloadField::TrackerSize => "tracker_size",
            DownloadField::UpRate => "up.rate",
            DownloadField::UpTotal => "up.total",
        }
    }

    /// The type of this field's value.
    pub fn result_type(self) -> (t: ResultType)
        ensures
            t == self.declared_type(),
    {
        match self {
            DownloadField::Hash
            | DownloadField::BaseFilename
            | DownloadField::BasePath
            | DownloadField::Directory
            | DownloadField::DirectoryBase
            | DownloadField::LoadedFile
            | DownloadField::Message
            | DownloadField::Name
            | DownloadField::TiedToFile => ResultType::Text,
            DownloadField::ChunkSize
            | DownloadField::CompletedBytes
            | DownloadField::CompletedChunks
            | DownloadField::DownRate
            | DownloadField::DownTotal
            | DownloadField::SizeBytes
            | DownloadField::SizeFiles
            | DownloadField::TrackerSize
            | DownloadField::UpRate
            | DownloadField::UpTotal => ResultType::Int64,
            DownloadField::Complete
            | DownloadField::Incomplete
            | DownloadField::IsActive
            | DownloadField::IsOpen
            | DownloadField::IsClosed
            | DownloadField::State => ResultType::Bool,
            DownloadField::Ratio => ResultType::Float64,
        }
    }

    /// The descriptor of this field, for use as a column of a multicall
    /// over downloads.
    pub fn operation(self) -> (op: Operation)
        ensures
            op@ == (OperationView {
                kind: EntityKind::Download,
                remote_name: remote_name_of(EntityKind::Download, self.short_name()),
                result_type: self.declared_type(),
            }),
    {
        Operation::new(EntityKind::Download, self.api(), self.result_type())
    }
}

} // verus!
