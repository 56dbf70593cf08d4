//! What can go wrong while a command is served.

use vstd::prelude::*;
use vstd::string::StringExecFns;

verus! {

/// A failure, with the detail that came with it as text.
#[derive(Debug, PartialEq, Eq)]
pub enum SongError {
    /// A file could not be read or written.
    Io(String),
    /// The stored catalog is not in the expected format.
    Json(String),
    /// A number was expected, and the text holds none.
    Parse(String),
    /// No audio output could be opened.
    Stream(String),
    /// The audio file could not be decoded.
    Decode(String),
    /// The download tool failed or printed too little.
    YtDlpError(String),
    /// The stored catalog breaks a rule of catalogs.
    Catalog(String),
    /// The catalog lists a song whose audio file is not there.
    MissingAsset(String),
}

/// The kinds of failure.
#[derive(Clone, Copy, Debug, PartialEq, Eq, Structural)]
pub enum ErrorKind {
    Io,
    Json,
    Parse,
    Stream,
    Decode,
    YtDlp,
    Catalog,
    MissingAsset,
}

/// A failure as plain values.
pub struct Failure {
    pub kind: ErrorKind,
    pub detail: Seq<char>,
}

impl View for SongError {
    type V = Failure;

    open spec fn view(&self) -> Failure {
        Failure { kind: self.kind_of(), detail: self.detail() }
    }
}

impl SongError {
    /// Which kind of failure this is.
    pub open spec fn kind_of(self) -> ErrorKind {
        match self {
            SongError::Io(_) => ErrorKind::Io,
            SongError::Json(_) => ErrorKind::Json,
            SongError::Parse(_) => ErrorKind::Parse,
            SongError::Stream(_) => ErrorKind::Stream,
            SongError::Decode(_) => ErrorKind::Decode,
            SongError::YtDlpError(_) => ErrorKind::YtDlp,
            SongError::Catalog(_) => ErrorKind::Catalog,
            SongError::MissingAsset(_) => ErrorKind::MissingAsset,
        }
    }

    /// Which kind of failure this is.
    pub fn kind(&self) -> (kind: ErrorKind)
        ensures
            kind == self.kind_of(),
    {
        match self {
            SongError::Io(_) => ErrorKind::Io,
            SongError::Json(_) => ErrorKind::Json,
            SongError::Parse(_) => ErrorKind::Parse,
            SongError::Stream(_) => ErrorKind::Stream,
            SongError::Decode(_) => ErrorKind::Decode,
            SongError::YtDlpError(_) => ErrorKind::YtDlp,
            SongError::Catalog(_) => ErrorKind::Catalog,
            SongError::MissingAsset(_) => ErrorKind::MissingAsset,
        }
    }

    /// The text that came with the failure.
    pub open spec fn detail(self) -> Seq<char> {
        match self {
            SongError::Io(detail) => detail@,
            SongError::Json(detail) => detail@,
            SongError::Parse(detail) => detail@,
            SongError::Stream(detail) => detail@,
            SongError::Decode(detail) => detail@,
            SongError::YtDlpError(detail) => detail@,
            SongError::Catalog(detail) => detail@,
            SongError::MissingAsset(detail) => detail@,
        }
    }

    /// What is said before the detail, by the kind of failure.
    pub open spec fn heading(self) -> Seq<char> {
        match self {
            SongError::Io(_) => "Failed to perform I/O operation: "@,
            SongError::Json(_) => "Failed to work with json data: "@,
            SongError::Parse(_) => "Failed to parse string to other type: "@,
            SongError::Stream(_) => "Failed to stream music: "@,
            SongError::Decode(_) => "Failed to decode music data: "@,
            SongError::YtDlpError(_) => "Yt-dlp command failed: "@,
            SongError::Catalog(_) => "Catalog is not valid: "@,
            SongError::MissingAsset(_) => "Audio file of a song in the catalog is missing: "@,
        }
    }

    /// The message shown for this failure: its heading, then its detail.
    pub fn message(&self) -> (text: String)
        ensures
            text@ == self.heading() + self.detail(),
    {
        match self {
            SongError::Io(detail) => String::from_str("Failed to perform I/O operation: ").concat(
                detail.as_str(),
            ),
            SongError::Json(detail) => String::from_str("Failed to work with json data: ").concat(
                detail.as_str(),
            ),
            SongError::Parse(detail) => String::from_str(
                "Failed to parse string to other type: ",
            ).concat(detail.as_str()),
            SongError::Stream(detail) => String::from_str("Failed to stream music: ").concat(
                detail.as_str(),
            ),
            SongError::Decode(detail) => String::from_str("Failed to decode music data: ").concat(
                detail.as_str(),
            ),
            SongError::YtDlpError(detail) => String::from_str("Yt-dlp command failed: ").concat(
                detail.as_str(),
            ),
            SongError::Catalog(detail) => String::from_str("Catalog is not valid: ").concat(
                detail.as_str(),
            ),
            SongError::MissingAsset(detail) => String::from_str(
                "Audio file of a song in the catalog is missing: ",
            ).concat(detail.as_str()),
        }
    }
}

} // verus!
