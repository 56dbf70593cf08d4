use tura::error::{ErrorKind, SongError};

#[test]
fn every_failure_has_its_heading() {
    let d = || "detail".to_string();
    assert_eq!(SongError::Io(d()).message(), "Failed to perform I/O operation: detail");
    assert_eq!(SongError::Json(d()).message(), "Failed to work with json data: detail");
    assert_eq!(SongError::Parse(d()).message(), "Failed to parse string to other type: detail");
    assert_eq!(SongError::Stream(d()).message(), "Failed to stream music: detail");
    assert_eq!(SongError::Decode(d()).message(), "Failed to decode music data: detail");
    assert_eq!(SongError::YtDlpError(d()).message(), "Yt-dlp command failed: detail");
    assert_eq!(SongError::Catalog(d()).message(), "Catalog is not valid: detail");
    assert_eq!(
        SongError::MissingAsset(d()).message(),
        "Audio file of a song in the catalog is missing: detail"
    );
}

#[test]
fn every_failure_has_its_kind() {
    let d = || String::new();
    assert_eq!(SongError::Io(d()).kind(), ErrorKind::Io);
    assert_eq!(SongError::Json(d()).kind(), ErrorKind::Json);
    assert_eq!(SongError::Parse(d()).kind(), ErrorKind::Parse);
    assert_eq!(SongError::Stream(d()).kind(), ErrorKind::Stream);
    assert_eq!(SongError::Decode(d()).kind(), ErrorKind::Decode);
    assert_eq!(SongError::YtDlpError(d()).kind(), ErrorKind::YtDlp);
    assert_eq!(SongError::Catalog(d()).kind(), ErrorKind::Catalog);
    assert_eq!(SongError::MissingAsset(d()).kind(), ErrorKind::MissingAsset);
}
