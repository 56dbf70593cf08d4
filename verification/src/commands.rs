//! The command surface: which tasks a command line asks for, what listing
//! the catalog shows, and how a song is picked for removal.

use crate::catalog::{has_id, lemma_without_known, song_views, SongList};
use crate::resolver::MatchCandidate;
use crate::song::{texts, Song, SongView};
use crate::text::{decimal, decimal_text, digits_of, parse_decimal, trim, trimmed};
use vstd::prelude::*;
use vstd::string::StringExecFns;

verus! {

/// How many songs are offered for removal.
pub const REMOVE_CHOICES: usize = 3;

/// What the command line holds.
#[derive(Debug, PartialEq, Eq)]
pub struct Cli {
    pub song: Option<String>,
    pub download: bool,
    pub loop_song: bool,
    pub remove: bool,
    pub all_songs: bool,
}

/// A command line as plain values.
pub struct CliView {
    pub song: Option<Seq<char>>,
    pub download: bool,
    pub loop_song: bool,
    pub remove: bool,
    pub all_songs: bool,
}

impl View for Cli {
    type V = CliView;

    open spec fn view(&self) -> CliView {
        CliView {
            song: match self.song {
                Some(song) => Some(song@),
                None => None,
            },
            download: self.download,
            loop_song: self.loop_song,
            remove: self.remove,
            all_songs: self.all_songs,
        }
    }
}

/// One thing for the worker to do.
#[derive(Debug, PartialEq, Eq)]
pub enum Task {
    /// List the catalog.
    ShowSongs,
    /// Offer the best matches of this query and remove the chosen one.
    Remove(String),
    /// Play the song that answers this query over and over. The flag
    /// tells that a fresh fetch was asked for, which looping never does.
    Loop(String, bool),
    /// Play the song that answers this query, after a fresh fetch if the
    /// flag is set.
    Play(String, bool),
    /// Say that a song was to be named and none was.
    NoSong,
    /// Tell the observer to quit.
    Quit,
}

/// A task as plain values.
pub enum TaskView {
    ShowSongs,
    Remove(Seq<char>),
    Loop(Seq<char>, bool),
    Play(Seq<char>, bool),
    NoSong,
    Quit,
}

impl View for Task {
    type V = TaskView;

    open spec fn view(&self) -> TaskView {
        match self {
            Task::ShowSongs => TaskView::ShowSongs,
            Task::Remove(song) => TaskView::Remove(song@),
            Task::Loop(song, download) => TaskView::Loop(song@, *download),
            Task::Play(song, download) => TaskView::Play(song@, *download),
            Task::NoSong => TaskView::NoSong,
            Task::Quit => TaskView::Quit,
        }
    }
}

/// The views of a sequence of tasks, one by one.
pub open spec fn task_views(tasks: Seq<Task>) -> Seq<TaskView> {
    Seq::new(tasks.len(), |i: int| tasks[i]@)
}

/// The one task that the flags and the song name ask for besides listing:
/// removing goes before looping, looping before playing, and the first two
/// need a song.
pub open spec fn main_task(cli: CliView) -> Option<TaskView> {
    if cli.remove {
        Some(
            match cli.song {
                Some(song) => TaskView::Remove(song),
                None => TaskView::NoSong,
            },
        )
    } else if cli.loop_song {
        Some(
            match cli.song {
                Some(song) => TaskView::Loop(song, cli.download),
                None => TaskView::NoSong,
            },
        )
    } else {
        match cli.song {
            Some(song) => Some(TaskView::Play(song, cli.download)),
            None => None,
        }
    }
}

/// The tasks of a command line, in the order in which they are done: the
/// listing if it is asked for, then the main task if there is one, and in
/// the end, always, the word to the observer to quit.
pub open spec fn tasks_of(cli: CliView) -> Seq<TaskView> {
    let listing = if cli.all_songs {
        seq![TaskView::ShowSongs]
    } else {
        Seq::empty()
    };
    let main = match main_task(cli) {
        Some(task) => seq![task],
        None => Seq::empty(),
    };
    listing + main + seq![TaskView::Quit]
}

/// Every command line ends by telling the observer to quit.
pub proof fn lemma_tasks_end_with_quit(cli: CliView)
    ensures
        tasks_of(cli).len() > 0,
        tasks_of(cli).last() == TaskView::Quit,
{
}

/// Says what a command line asks for.
pub fn check_cli(cli: Cli) -> (tasks: Vec<Task>)
    ensures
        task_views(tasks@) == tasks_of(cli@),
{
    let mut tasks: Vec<Task> = Vec::new();
    if cli.all_songs {
        tasks.push(Task::ShowSongs);
    }
    if cli.remove {
        match cli.song {
            Some(song) => tasks.push(Task::Remove(song)),
            None => tasks.push(Task::NoSong),
        }
    } else if cli.loop_song {
        match cli.song {
            Some(song) => tasks.push(Task::Loop(song, cli.download)),
            None => tasks.push(Task::NoSong),
        }
    } else {
        match cli.song {
            Some(song) => tasks.push(Task::Play(song, cli.download)),
            None => {},
        }
    }
    tasks.push(Task::Quit);
    tasks
}

/// The lines that list a catalog: after an empty line the number of songs,
/// then the title of each song.
pub open spec fn listing(songs: Seq<SongView>) -> Seq<Seq<char>> {
    seq!["\n"@ + digits_of(songs.len()) + " Songs"@] + Seq::new(
        songs.len(),
        |i: int| " - "@ + songs[i].title,
    )
}

/// The lines that list the catalog.
pub fn show_songs(song_list: &SongList) -> (shown: Vec<String>)
    ensures
        texts(shown@) == listing(song_list@),
{
    let songs = song_list.songs();
    let n: usize = songs.len();
    let mut shown: Vec<String> = Vec::new();
    shown.push(String::from_str("\n").concat(decimal_text(n as u64).as_str()).concat(" Songs"));
    let mut i: usize = 0;
    while i < n
        invariant
            i <= n,
            n == songs@.len(),
            n == song_list@.len(),
            song_views(songs@) == song_list@,
            shown@.len() == i + 1,
            texts(shown@) =~= listing(song_list@).take(i + 1),
        decreases n - i,
    {
        shown.push(String::from_str(" - ").concat(songs[i].title().as_str()));
        i += 1;
    }
    shown
}

/// Which of `shown` offers an answer picks, counting from zero: the answer
/// is a number from one to `shown`.
pub open spec fn choice_of(answer: Seq<char>, shown: nat) -> Option<int> {
    match decimal(answer, shown) {
        Some(n) => if n >= 1 {
            Some(n - 1)
        } else {
            None
        },
        None => None,
    }
}

/// Which of `shown` offers the answer picks, if it picks one. The answer
/// is taken as it stands, white space and all.
pub fn choice(answer: &str, shown: usize) -> (picked: Option<usize>)
    ensures
        picked is Some <==> choice_of(answer@, shown as nat) is Some,
        picked matches Some(k) ==> choice_of(answer@, shown as nat) == Some(k as int) && k < shown,
{
    match parse_decimal(answer, shown as u64) {
        Some(n) => if n >= 1 {
            Some((n - 1) as usize)
        } else {
            None
        },
        None => None,
    }
}

/// Which of `shown` offers the line that the user typed picks, once the
/// white space around it is gone.
pub fn read_choice(line: &str, shown: usize) -> (picked: Option<usize>)
    ensures
        picked is Some <==> choice_of(trimmed(line@), shown as nat) is Some,
        picked matches Some(k) ==> choice_of(trimmed(line@), shown as nat) == Some(k as int) && k
            < shown,
{
    choice(trim(line), shown)
}

/// The position in the catalog of the pick that an answer chooses, if the
/// answer chooses one of the picks and that pick names a song.
pub open spec fn chosen(
    songs: Seq<SongView>,
    picks: Seq<MatchCandidate>,
    answer: Seq<char>,
) -> Option<int> {
    match choice_of(answer, picks.len()) {
        Some(k) => if picks[k].index < songs.len() {
            Some(picks[k].index as int)
        } else {
            None
        },
        None => None,
    }
}

/// Removes the song that the user chose among the picks offered: `line`
/// is what was typed, a number counting the picks from one. Returns the
/// song that was removed; where the line chooses none, nothing changes.
pub fn remove_song(song_list: &mut SongList, picks: &Vec<MatchCandidate>, line: &str) -> (removed:
    Option<Song>)
    ensures
        removed is Some <==> chosen(old(song_list)@, picks@, trimmed(line@)) is Some,
        removed matches Some(song) ==> {
            let at = chosen(old(song_list)@, picks@, trimmed(line@))->0;
            &&& song@ == old(song_list)@[at]
            &&& final(song_list)@ == old(song_list)@.remove(at)
            &&& !has_id(final(song_list)@, song@.id)
        },
        removed is None ==> final(song_list)@ == old(song_list)@,
{
    match read_choice(line, picks.len()) {
        Some(k) => {
            let at: usize = picks[k].index;
            if at < song_list.len() {
                let song = song_list.songs()[at].clone();
                proof {
                    assert(song@ == song_list@[at as int]);
                    lemma_without_known(song_list@, song@.id, at as int);
                }
                song_list.remove(&song);
                Some(song)
            } else {
                None
            }
        },
        None => None,
    }
}

} // verus!
