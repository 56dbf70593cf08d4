//! Turning a query into a new catalog entry: what to hand to the download
//! tool, how to read what it prints, and how the result enters the
//! catalog.

use crate::catalog::{has_id, index_of, only_at, SongList};
use crate::error::{ErrorKind, Failure, SongError};
use crate::song::{texts, Song, SongView};
use crate::text::{contains_text, decimal, lines, occurs_in, parse_decimal, split_lines};
use vstd::prelude::*;
use vstd::string::StringExecFns;

verus! {

/// What the download tool says of the audio it stored.
#[derive(Debug, PartialEq, Eq)]
pub struct Fetched {
    pub title: String,
    pub duration: u32,
    pub id: String,
}

/// A fetch report as plain values.
pub struct FetchedView {
    pub title: Seq<char>,
    pub duration: u32,
    pub id: Seq<char>,
}

impl View for Fetched {
    type V = FetchedView;

    open spec fn view(&self) -> FetchedView {
        FetchedView { title: self.title@, duration: self.duration, id: self.id@ }
    }
}

/// A query that names its source directly: it holds the address of a
/// video page.
pub open spec fn is_locator(search: Seq<char>) -> bool {
    occurs_in("youtube.com/"@, search) || occurs_in("youtu.be/"@, search)
}

/// What the download tool is asked for: a locator as it is, anything else
/// as a search for the first hit.
pub open spec fn target_of(search: Seq<char>) -> Seq<char> {
    if is_locator(search) {
        search
    } else {
        "ytsearch1:"@ + search
    }
}

/// What to ask the download tool for, given a query.
pub fn search_target(search: &str) -> (target: String)
    ensures
        target@ == target_of(search@),
{
    if !contains_text(search, "youtube.com/") && !contains_text(search, "youtu.be/") {
        String::from_str("ytsearch1:").concat(search)
    } else {
        String::from_str(search)
    }
}

/// The arguments of the download tool: one audio file in m4a, no
/// playlist, stored in `songs_dir` under the id of its source, and title,
/// duration and id printed once the file is in place.
pub open spec fn arguments_of(songs_dir: Seq<char>, target: Seq<char>) -> Seq<Seq<char>> {
    seq![
        "--no-playlist"@,
        "-x"@,
        "--audio-format"@,
        "m4a"@,
        "-P"@,
        songs_dir,
        "-o"@,
        "%(id)s.%(ext)s"@,
        "--print"@,
        "after_move:title"@,
        "--print"@,
        "after_move:duration"@,
        "--print"@,
        "after_move:id"@,
        target,
    ]
}

/// The arguments with which the download tool is run.
pub fn fetch_arguments(songs_dir: &str, target: &str) -> (arguments: Vec<String>)
    ensures
        texts(arguments@) == arguments_of(songs_dir@, target@),
{
    let mut arguments: Vec<String> = Vec::new();
    arguments.push(String::from_str("--no-playlist"));
    arguments.push(String::from_str("-x"));
    arguments.push(String::from_str("--audio-format"));
    arguments.push(String::from_str("m4a"));
    arguments.push(String::from_str("-P"));
    arguments.push(String::from_str(songs_dir));
    arguments.push(String::from_str("-o"));
    arguments.push(String::from_str("%(id)s.%(ext)s"));
    arguments.push(String::from_str("--print"));
    arguments.push(String::from_str("after_move:title"));
    arguments.push(String::from_str("--print"));
    arguments.push(String::from_str("after_move:duration"));
    arguments.push(String::from_str("--print"));
    arguments.push(String::from_str("after_move:id"));
    arguments.push(String::from_str(target));
    arguments
}

/// The name of the audio file of a song.
pub fn asset_name(id: &str) -> (name: String)
    ensures
        name@ == id@ + ".m4a"@,
{
    String::from_str(id).concat(".m4a")
}

/// A failure of the download tool, with what there is to say of it.
pub open spec fn tool_failure(detail: Seq<char>) -> Failure {
    Failure { kind: ErrorKind::YtDlp, detail }
}

/// What a run of the download tool amounts to. A run that did not end well
/// fails with what the tool wrote to its error stream. Otherwise its output
/// is read line by line: the title, the duration in whole seconds, the id.
/// A line that is not there, or a duration that is no number, fails the
/// fetch.
pub open spec fn fetch_outcome(success: bool, output: Seq<char>, errors: Seq<char>) -> Result<
    FetchedView,
    Failure,
> {
    let found = lines(output);
    if !success {
        Err(tool_failure(errors))
    } else if found.len() < 1 {
        Err(tool_failure("Missing Title"@))
    } else if found.len() < 2 {
        Err(tool_failure("Missing Duration"@))
    } else if decimal(found[1], u32::MAX as nat) is None {
        Err(Failure { kind: ErrorKind::Parse, detail: found[1] })
    } else if found.len() < 3 {
        Err(tool_failure("Missing Id"@))
    } else {
        Ok(
            FetchedView {
                title: found[0],
                duration: decimal(found[1], u32::MAX as nat)->0 as u32,
                id: found[2],
            },
        )
    }
}

/// Reads the report of a run of the download tool.
pub fn parse_fetch_output(success: bool, output: &str, errors: &str) -> (outcome: Result<
    Fetched,
    SongError,
>)
    ensures
        match outcome {
            Ok(fetched) => fetch_outcome(success, output@, errors@) == Ok::<FetchedView, Failure>(
                fetched@,
            ),
            Err(error) => fetch_outcome(success, output@, errors@) == Err::<FetchedView, Failure>(
                error@,
            ),
        },
{
    if !success {
        return Err(SongError::YtDlpError(String::from_str(errors)));
    }
    let found = split_lines(output);
    if found.len() < 1 {
        return Err(SongError::YtDlpError(String::from_str("Missing Title")));
    }
    if found.len() < 2 {
        return Err(SongError::YtDlpError(String::from_str("Missing Duration")));
    }
    let duration: u32 = match parse_decimal(found[1].as_str(), u32::MAX as u64) {
        Some(seconds) => seconds as u32,
        None => {
            return Err(SongError::Parse(found[1].clone()));
        },
    };
    if found.len() < 3 {
        return Err(SongError::YtDlpError(String::from_str("Missing Id")));
    }
    Ok(Fetched { title: found[0].clone(), duration, id: found[2].clone() })
}

/// The song that a fetch stands for in the catalog: the one that carries
/// its id already, or else a new song remembered under the query.
pub open spec fn registered(
    songs: Seq<SongView>,
    fetched: FetchedView,
    query: Seq<char>,
) -> SongView {
    if has_id(songs, fetched.id) {
        songs[index_of(songs, fetched.id)]
    } else {
        SongView {
            id: fetched.id,
            title: fetched.title,
            duration: fetched.duration,
            searches: seq![query],
        }
    }
}

/// A fetch as it stands in the catalog: the song, its position, and
/// whether it was added just now.
#[derive(Debug, PartialEq, Eq)]
pub struct Entry {
    pub song: Song,
    pub at: usize,
    pub added: bool,
}

/// Enters a fetch into the catalog. Where a song carries the id already,
/// what was fetched is dropped and the catalog stays as it is; otherwise a
/// new song is added at the end, remembered under `query`.
pub fn register(list: &mut SongList, fetched: Fetched, query: &str) -> (entry: Entry)
    ensures
        entry.song@ == registered(old(list)@, fetched@, query@),
        entry.added == !has_id(old(list)@, fetched@.id),
        entry.added ==> final(list)@ == old(list)@.push(entry.song@),
        !entry.added ==> final(list)@ == old(list)@,
        only_at(final(list)@, fetched@.id, entry.at as int),
        final(list)@[entry.at as int] == entry.song@,
{
    match list.find(fetched.id.as_str()) {
        Some(at) => Entry { song: list.songs()[at].clone(), at, added: false },
        None => {
            let at = list.len();
            let search = String::from_str(query);
            let song = Song::new(fetched.id, fetched.title, fetched.duration, search);
            let added = list.add_song(&song);
            Entry { song, at, added }
        },
    }
}

} // verus!
