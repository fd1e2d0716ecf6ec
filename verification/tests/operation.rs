use rtorrent_xmlrpc_bindings::{DownloadField, EntityKind, Operation, ResultType};

#[test]
fn remote_name_is_namespace_then_short_name() {
    let op = Operation::new(EntityKind::Download, "name", ResultType::Text);
    assert_eq!(op.remote_name(), "d.name");
    assert_eq!(op.kind(), EntityKind::Download);
    assert_eq!(op.result_type(), ResultType::Text);
}

#[test]
fn every_kind_has_its_own_namespace() {
    assert_eq!(Operation::new(EntityKind::Download, "x", ResultType::Bool).remote_name(), "d.x");
    assert_eq!(Operation::new(EntityKind::File, "x", ResultType::Bool).remote_name(), "f.x");
    assert_eq!(Operation::new(EntityKind::Peer, "x", ResultType::Bool).remote_name(), "p.x");
    assert_eq!(Operation::new(EntityKind::Tracker, "x", ResultType::Bool).remote_name(), "t.x");
    assert_eq!(EntityKind::Download.prefix(), "d.");
    assert_eq!(EntityKind::File.prefix(), "f.");
    assert_eq!(EntityKind::Peer.prefix(), "p.");
    assert_eq!(EntityKind::Tracker.prefix(), "t.");
}

#[test]
fn every_kind_has_its_own_multicall() {
    assert_eq!(EntityKind::Download.multicall(), "d.multicall2");
    assert_eq!(EntityKind::File.multicall(), "f.multicall2");
    assert_eq!(EntityKind::Peer.multicall(), "p.multicall2");
    assert_eq!(EntityKind::Tracker.multicall(), "t.multicall2");
}

#[test]
fn remote_name_is_the_same_on_every_derivation() {
    let first = Operation::new(EntityKind::Peer, "down_rate", ResultType::Int64);
    let second = Operation::new(EntityKind::Peer, "down_rate", ResultType::Int64);
    assert_eq!(first.remote_name(), "p.down_rate");
    assert_eq!(first.remote_name(), second.remote_name());
    assert_eq!(first.clone().remote_name(), first.remote_name());
}

#[test]
fn empty_short_name_leaves_the_namespace() {
    let op = Operation::new(EntityKind::Tracker, "", ResultType::Text);
    assert_eq!(op.remote_name(), "t.");
}

#[test]
fn short_name_with_dots_is_kept_as_it_is() {
    let op = Operation::new(EntityKind::Download, "down.rate", ResultType::Int64);
    assert_eq!(op.remote_name(), "d.down.rate");
}

#[test]
fn descriptors_are_equal_by_remote_name() {
    let text = Operation::new(EntityKind::Download, "name", ResultType::Text);
    let bytes = Operation::new(EntityKind::Download, "name", ResultType::Bytes);
    let other_field = Operation::new(EntityKind::Download, "hash", ResultType::Text);
    let other_kind = Operation::new(EntityKind::File, "name", ResultType::Text);
    assert!(text == bytes);
    assert!(text != other_field);
    assert!(text != other_kind);
}

#[test]
fn a_copy_of_a_descriptor_is_the_same_descriptor() {
    let op = Operation::new(EntityKind::File, "size_bytes", ResultType::Int64);
    let copy = op.clone();
    assert_eq!(copy.kind(), EntityKind::File);
    assert_eq!(copy.remote_name(), "f.size_bytes");
    assert_eq!(copy.result_type(), ResultType::Int64);
}

#[test]
fn download_catalog_names_and_types() {
    let table = [
        (DownloadField::Hash, "d.hash", ResultType::Text),
        (DownloadField::BaseFilename, "d.base_filename", ResultType::Text),
        (DownloadField::BasePath, "d.base_path", ResultType::Text),
        (DownloadField::Directory, "d.directory", ResultType::Text),
        (DownloadField::DirectoryBase, "d.directory_base", ResultType::Text),
        (DownloadField::ChunkSize, "d.chunk_size", ResultType::Int64),
        (DownloadField::Complete, "d.complete", ResultType::Bool),
        (DownloadField::Incomplete, "d.incomplete", ResultType::Bool),
        (DownloadField::CompletedBytes, "d.completed_bytes", ResultType::Int64),
        (DownloadField::CompletedChunks, "d.completed_chunks", ResultType::Int64),
        (DownloadField::DownRate, "d.down.rate", ResultType::Int64),
        (DownloadField::DownTotal, "d.down.total", ResultType::Int64),
        (DownloadField::IsActive, "d.is_active", ResultType::Bool),
        (DownloadField::IsOpen, "d.is_open", ResultType::Bool),
        (DownloadField::IsClosed, "d.is_closed", ResultType::Bool),
        (DownloadField::LoadedFile, "d.loaded_file", ResultType::Text),
        (DownloadField::Message, "d.message", ResultType::Text),
        (DownloadField::Name, "d.name", ResultType::Text),
        (DownloadField::Ratio, "d.ratio", ResultType::Float64),
        (DownloadField::SizeBytes, "d.size_bytes", ResultType::Int64),
        (DownloadField::SizeFiles, "d.size_files", ResultType::Int64),
        (DownloadField::State, "d.state", ResultType::Bool),
        (DownloadField::TiedToFile, "d.tied_to_file", ResultType::Text),
        (DownloadField::TrackerSize, "d.tracker_size", ResultType::Int64),
        (DownloadField::UpRate, "d.up.rate", ResultType::Int64),
        (DownloadField::UpTotal, "d.up.total", ResultType::Int64),
    ];
    for (field, remote_name, result_type) in table {
        let op = field.operation();
        assert_eq!(op.kind(), EntityKind::Download);
        assert_eq!(op.remote_name(), remote_name);
        assert_eq!(op.result_type(), result_type);
        assert_eq!(field.result_type(), result_type);
        assert_eq!(format!("d.{}", field.api()), remote_name);
    }
}
