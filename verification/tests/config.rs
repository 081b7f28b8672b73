use whatsong::client::to_u32;
use whatsong::database::initialize_db_conn_string;
use whatsong::error::Error;
use whatsong::init_api_keys_from_env;
use whatsong::server_error::{ServerError, UserError};
use whatsong::util::Directories;

#[test]
fn little_endian_header() {
    assert_eq!(to_u32([1, 0, 0, 0]), 1);
    assert_eq!(to_u32([0x78, 0x56, 0x34, 0x12]), 0x1234_5678);
    assert_eq!(to_u32([0xff, 0xff, 0xff, 0xff]), u32::MAX);
}

#[test]
fn db_path_joins_data_dir() {
    assert_eq!(Directories::db_path("/home/user/.config/whatsong"), "/home/user/.config/whatsong/videos.db");
}

#[test]
fn conn_string_configuration() {
    let config = initialize_db_conn_string("/tmp/videos.db".to_string());
    assert_eq!(config.conn_string, "/tmp/videos.db");
}

#[test]
fn api_key_configuration() {
    let keys = init_api_keys_from_env("example-api-key".to_string());
    assert_eq!(keys.youtube, "example-api-key");
}

#[test]
fn error_messages() {
    assert_eq!(Error::UnsupportedVersion { expected: 1, got: 9 }.message(), "invalid item version");
    assert_eq!(
        Error::InvalidSourceUrl("https://nope".to_string()).message(),
        "invalid youtube url: https://nope"
    );
    assert_eq!(Error::InvalidMetadata.message(), "invalid youtube data");
    assert_eq!(Error::MetadataUnavailable.message(), "youtube catalog unavailable");
    assert_eq!(Error::StorageError.message(), "storage error");
    assert_eq!(Error::NotFound.message(), "not found");
}

#[test]
fn user_error_labels() {
    let label = |e: Error| UserError { error: e }.as_reply();
    assert_eq!(label(Error::UnsupportedVersion { expected: 1, got: 2 }), Some("invalid_version"));
    assert_eq!(label(Error::InvalidSourceUrl("x".to_string())), Some("invalid_youtube_url"));
    assert_eq!(label(Error::InvalidMetadata), Some("invalid_youtube_data"));
    assert_eq!(label(Error::MetadataUnavailable), None);
    assert_eq!(label(Error::StorageError), None);
    assert_eq!(label(Error::NotFound), None);
}

#[test]
fn server_error_labels() {
    let label = |e: Error| ServerError { error: e }.as_reply();
    assert_eq!(label(Error::StorageError), Some("storage"));
    assert_eq!(label(Error::MetadataUnavailable), Some("metadata_unavailable"));
    assert_eq!(label(Error::UnsupportedVersion { expected: 1, got: 2 }), None);
    assert_eq!(label(Error::InvalidSourceUrl("x".to_string())), None);
    assert_eq!(label(Error::InvalidMetadata), None);
    assert_eq!(label(Error::NotFound), None);
}
