//! The worker's decisions: from a request to playing, by way of a fetch
//! when nothing known is good enough. The coordinator decides and keeps the
//! catalog in step; running the download tool and the player is left to
//! its caller, who reports back what came of it.

use crate::acquire::{
    fetch_outcome, parse_fetch_output, register, registered, search_target, target_of, FetchedView,
};
use crate::catalog::{after_search, has_id, index_of, records, same_song, SongList};
use crate::error::{Failure, SongError};
use crate::observer::{action_views, Action, ActionView};
use crate::resolver::{best_of, scores, Resolver};
use crate::song::{Song, SongView};
use vstd::prelude::*;
use vstd::string::StringExecFns;

verus! {

/// Where the worker stands.
#[derive(Clone, Copy, Debug, PartialEq, Eq, Structural)]
pub enum Phase {
    /// Waiting for a request.
    Idle,
    /// A fetch is under way.
    Acquiring,
    /// A song is playing.
    Playing,
    /// The one command of this run is done.
    Terminated,
}

/// What the caller is to do next.
#[derive(Debug, PartialEq, Eq)]
pub enum Order {
    /// Run the download tool for this target and report what it printed.
    Fetch(String),
    /// Play this song, over and over if `looped`, and report when it ends.
    Play { song: Song, looped: bool },
    /// Nothing.
    Rest,
}

/// An order as plain values.
pub enum OrderView {
    Fetch(Seq<char>),
    Play { song: SongView, looped: bool },
    Rest,
}

impl View for Order {
    type V = OrderView;

    open spec fn view(&self) -> OrderView {
        match self {
            Order::Fetch(target) => OrderView::Fetch(target@),
            Order::Play { song, looped } => OrderView::Play { song: song@, looped: *looped },
            Order::Rest => OrderView::Rest,
        }
    }
}

/// What a step of the coordinator asks of its caller: an order, the
/// messages to send to the observer in this order, whether the catalog
/// changed and has to be stored, and the failure that ended the command if
/// one did.
#[derive(Debug, PartialEq, Eq)]
pub struct Turn {
    pub order: Order,
    pub events: Vec<Action>,
    pub save: bool,
    pub failure: Option<SongError>,
}

/// A turn as plain values.
pub struct TurnView {
    pub order: OrderView,
    pub events: Seq<ActionView>,
    pub save: bool,
    pub failure: Option<Failure>,
}

/// The view of a failure that may or may not have come about.
pub open spec fn failure_view(failure: Option<SongError>) -> Option<Failure> {
    match failure {
        Some(error) => Some(error@),
        None => None,
    }
}

impl View for Turn {
    type V = TurnView;

    open spec fn view(&self) -> TurnView {
        TurnView {
            order: self.order@,
            events: action_views(self.events@),
            save: self.save,
            failure: failure_view(self.failure),
        }
    }
}

/// The coordinator as plain values.
pub struct CoordinatorView {
    pub fold_case: bool,
    pub threshold: u32,
    pub one_shot: bool,
    pub phase: Phase,
    pub query: Seq<char>,
}

/// The state machine of the worker.
#[derive(Debug)]
pub struct Coordinator {
    resolver: Resolver,
    one_shot: bool,
    phase: Phase,
    query: String,
}

impl View for Coordinator {
    type V = CoordinatorView;

    closed spec fn view(&self) -> CoordinatorView {
        CoordinatorView {
            fold_case: self.resolver.fold_case,
            threshold: self.resolver.threshold,
            one_shot: self.one_shot,
            phase: self.phase,
            query: self.query@,
        }
    }
}

/// What a step leads to: the coordinator and the catalog after it, and the
/// turn handed to the caller.
pub struct Next {
    pub state: CoordinatorView,
    pub songs: Seq<SongView>,
    pub turn: TurnView,
}

/// A turn that asks for nothing.
pub open spec fn idle_turn() -> TurnView {
    TurnView { order: OrderView::Rest, events: Seq::empty(), save: false, failure: None }
}

/// A step that does not apply in the present phase changes nothing.
pub open spec fn ignored(state: CoordinatorView, songs: Seq<SongView>) -> Next {
    Next { state, songs, turn: idle_turn() }
}

/// The coordinator at the end of a command: a run for one command has
/// terminated; otherwise the coordinator waits for the next request.
pub open spec fn settled(state: CoordinatorView) -> CoordinatorView {
    CoordinatorView {
        phase: if state.one_shot {
            Phase::Terminated
        } else {
            Phase::Idle
        },
        ..state
    }
}

/// The turn that ends a command: nothing more to do, and for a run for one
/// command the word to the observer to quit.
pub open spec fn closing(state: CoordinatorView, failure: Option<Failure>) -> TurnView {
    TurnView {
        order: OrderView::Rest,
        events: if state.one_shot {
            seq![ActionView::Quit]
        } else {
            Seq::empty()
        },
        save: false,
        failure,
    }
}

/// The end of a command, with the failure that brought it about if one
/// did.
pub open spec fn wound_up(
    state: CoordinatorView,
    songs: Seq<SongView>,
    failure: Option<Failure>,
) -> Next {
    Next { state: settled(state), songs, turn: closing(state, failure) }
}

/// The turn that starts playback of a song.
pub open spec fn opening(song: SongView, looped: bool, save: bool) -> TurnView {
    TurnView {
        order: OrderView::Play { song, looped },
        events: seq![ActionView::Playing(song.title)],
        save,
        failure: None,
    }
}

/// The start of playback of the song at `at`, which the catalog `songs`
/// holds after a change that `save` tells of.
pub open spec fn playing(
    state: CoordinatorView,
    songs: Seq<SongView>,
    at: int,
    looped: bool,
    save: bool,
) -> Next {
    Next {
        state: CoordinatorView { phase: Phase::Playing, ..state },
        songs,
        turn: opening(songs[at], looped, save),
    }
}

/// The known song that answers a query well enough: the one that ranks
/// first, if its score reaches the threshold.
pub open spec fn accepted(state: CoordinatorView, songs: Seq<SongView>, query: Seq<char>) -> Option<
    int,
> {
    let all = scores(songs, query, state.fold_case);
    if songs.len() > 0 && all[best_of(all)] >= state.threshold {
        Some(best_of(all))
    } else {
        None
    }
}

/// What a request to play leads to. It counts only while the coordinator
/// is idle. A known song that answers the query well enough is played, and
/// the query is offered to its history. Failing that, or when a fresh
/// download is asked for, the song is fetched; but never for playing in a
/// loop, which ends the command when nothing known is good enough.
pub open spec fn requested(
    state: CoordinatorView,
    songs: Seq<SongView>,
    query: Seq<char>,
    download: bool,
    looped: bool,
) -> Next {
    let asked = CoordinatorView { query, ..state };
    if state.phase != Phase::Idle {
        ignored(state, songs)
    } else if (looped || !download) && accepted(state, songs, query) is Some {
        let at = accepted(state, songs, query)->0;
        let id = songs[at].id;
        playing(
            asked,
            after_search(songs, id, query, state.fold_case),
            at,
            looped,
            records(songs, id, query, state.fold_case),
        )
    } else if looped {
        wound_up(asked, songs, None)
    } else {
        Next {
            state: CoordinatorView { phase: Phase::Acquiring, ..asked },
            songs,
            turn: TurnView {
                order: OrderView::Fetch(target_of(query)),
                events: seq![ActionView::Downloading],
                save: false,
                failure: None,
            },
        }
    }
}

/// The catalog once a fetch is entered: as it was where the id is known,
/// else with the new song at its end.
pub open spec fn grown(
    songs: Seq<SongView>,
    report: FetchedView,
    query: Seq<char>,
) -> Seq<SongView> {
    if has_id(songs, report.id) {
        songs
    } else {
        songs.push(registered(songs, report, query))
    }
}

/// What the report of a fetch leads to. It counts only while a fetch is
/// under way. A failed fetch ends the command with its failure. A fetch
/// that went well is entered into the catalog, the query is offered to the
/// history of the song that stands for it, and that song is played.
pub open spec fn fetched(
    state: CoordinatorView,
    songs: Seq<SongView>,
    success: bool,
    output: Seq<char>,
    errors: Seq<char>,
) -> Next {
    if state.phase != Phase::Acquiring {
        ignored(state, songs)
    } else {
        match fetch_outcome(success, output, errors) {
            Err(failure) => wound_up(state, songs, Some(failure)),
            Ok(report) => {
                let entered = grown(songs, report, state.query);
                playing(
                    state,
                    after_search(entered, report.id, state.query, state.fold_case),
                    index_of(entered, report.id),
                    false,
                    !has_id(songs, report.id) || records(
                        entered,
                        report.id,
                        state.query,
                        state.fold_case,
                    ),
                )
            },
        }
    }
}

/// What a step that leaves the catalog alone leads to: the coordinator
/// after it, and the turn handed to the caller.
pub struct Close {
    pub state: CoordinatorView,
    pub turn: TurnView,
}

/// What the end of playback leads to: the end of the command. It counts
/// only while a song is playing.
pub open spec fn played(state: CoordinatorView) -> Close {
    if state.phase != Phase::Playing {
        Close { state, turn: idle_turn() }
    } else {
        Close { state: settled(state), turn: closing(state, None) }
    }
}

/// What a failure outside the coordinator leads to, be it in storing the
/// catalog, in running the download tool or in playing: the end of the
/// command, with that failure. It counts while a command is under way.
pub open spec fn failed(state: CoordinatorView, failure: Failure) -> Close {
    if state.phase == Phase::Idle || state.phase == Phase::Terminated {
        Close { state, turn: idle_turn() }
    } else {
        Close { state: settled(state), turn: closing(state, Some(failure)) }
    }
}

/// Playing in a loop never leads to a fetch.
pub proof fn lemma_loop_never_fetches(
    state: CoordinatorView,
    songs: Seq<SongView>,
    query: Seq<char>,
    download: bool,
)
    requires
        state.phase == Phase::Idle,
    ensures
        requested(state, songs, query, download, true).state.phase != Phase::Acquiring,
        !(requested(state, songs, query, download, true).turn.order is Fetch),
{
}

/// A request removes no song and leaves every song in its place, with
/// its id, title and duration; it changes at most one song's history.
pub proof fn lemma_request_keeps_songs(
    state: CoordinatorView,
    songs: Seq<SongView>,
    query: Seq<char>,
    download: bool,
    looped: bool,
)
    ensures
        requested(state, songs, query, download, looped).songs.len() == songs.len(),
        forall|i: int|
            0 <= i < songs.len() ==> same_song(
                songs[i],
                #[trigger] requested(state, songs, query, download, looped).songs[i],
            ),
        forall|i: int, j: int|
            0 <= i < j < songs.len() ==> #[trigger] requested(
                state,
                songs,
                query,
                download,
                looped,
            ).songs[i] == songs[i] || #[trigger] requested(
                state,
                songs,
                query,
                download,
                looped,
            ).songs[j] == songs[j],
{
}

/// The report of a fetch removes no song and leaves every song in its
/// place, with its id, title and duration; it adds at most one song, at the
/// end.
pub proof fn lemma_fetched_keeps_songs(
    state: CoordinatorView,
    songs: Seq<SongView>,
    success: bool,
    output: Seq<char>,
    errors: Seq<char>,
)
    ensures
        songs.len() <= fetched(state, songs, success, output, errors).songs.len() <= songs.len()
            + 1,
        forall|i: int|
            0 <= i < songs.len() ==> same_song(
                songs[i],
                #[trigger] fetched(state, songs, success, output, errors).songs[i],
            ),
{
}

/// A run for one command tells the observer to quit whenever it ends: the
/// turn that ends the command has `Quit` as its last message, whether or
/// not a failure ended it.
pub proof fn lemma_termination_is_announced(state: CoordinatorView, failure: Option<Failure>)
    requires
        state.one_shot,
    ensures
        settled(state).phase == Phase::Terminated,
        closing(state, failure).events.len() > 0,
        closing(state, failure).events.last() == ActionView::Quit,
{
}

impl Coordinator {
    /// A coordinator that waits for its first request. With `one_shot` it
    /// serves one command and terminates.
    pub fn new(resolver: Resolver, one_shot: bool) -> (coordinator: Coordinator)
        ensures
            coordinator@ == (CoordinatorView {
                fold_case: resolver.fold_case,
                threshold: resolver.threshold,
                one_shot,
                phase: Phase::Idle,
                query: Seq::<char>::empty(),
            }),
    {
        Coordinator { resolver, one_shot, phase: Phase::Idle, query: String::new() }
    }

    /// Where the worker stands.
    pub fn phase(&self) -> (phase: Phase)
        ensures
            phase == self@.phase,
    {
        self.phase
    }

    /// The query of the command under way.
    pub fn query(&self) -> (query: &String)
        ensures
            query@ == self@.query,
    {
        &self.query
    }

    fn rest(&self) -> (turn: Turn)
        ensures
            turn@ == idle_turn(),
    {
        let events: Vec<Action> = Vec::new();
        assert(action_views(events@) =~= Seq::<ActionView>::empty());
        Turn { order: Order::Rest, events, save: false, failure: None }
    }

    fn wind_up(&mut self, failure: Option<SongError>) -> (turn: Turn)
        ensures
            final(self)@ == settled(old(self)@),
            turn@ == closing(old(self)@, failure_view(failure)),
    {
        let mut events: Vec<Action> = Vec::new();
        if self.one_shot {
            self.phase = Phase::Terminated;
            events.push(Action::Quit);
            assert(action_views(events@) =~= seq![ActionView::Quit]);
        } else {
            self.phase = Phase::Idle;
            assert(action_views(events@) =~= Seq::<ActionView>::empty());
        }
        Turn { order: Order::Rest, events, save: false, failure }
    }

    fn start(&mut self, list: &SongList, at: usize, looped: bool, save: bool) -> (turn: Turn)
        requires
            at < list@.len(),
        ensures
            final(self)@ == (CoordinatorView { phase: Phase::Playing, ..old(self)@ }),
            turn@ == opening(list@[at as int], looped, save),
    {
        let song = list.songs()[at].clone();
        let mut events: Vec<Action> = Vec::new();
        events.push(Action::Playing(song.title().clone()));
        assert(action_views(events@) =~= seq![ActionView::Playing(list@[at as int].title)]);
        self.phase = Phase::Playing;
        Turn { order: Order::Play { song, looped }, events, save, failure: None }
    }

    /// Takes a request to play the song that answers `title` once.
    /// `download` asks for a fresh fetch even if a known song would do.
    pub fn play_song(&mut self, song_list: &mut SongList, title: &str, download: bool) -> (turn:
        Turn)
        ensures
            final(self)@ == requested(old(self)@, old(song_list)@, title@, download, false).state,
            final(song_list)@ == requested(
                old(self)@,
                old(song_list)@,
                title@,
                download,
                false,
            ).songs,
            turn@ == requested(old(self)@, old(song_list)@, title@, download, false).turn,
    {
        self.request(song_list, title, download, false)
    }

    /// Takes a request to play the song that answers `title` over and
    /// over. Nothing is fetched for that, whatever `download` says: where
    /// no known song is good enough, the command ends.
    pub fn loop_song(&mut self, song_list: &mut SongList, title: &str, download: bool) -> (turn:
        Turn)
        ensures
            final(self)@ == requested(old(self)@, old(song_list)@, title@, download, true).state,
            final(song_list)@ == requested(
                old(self)@,
                old(song_list)@,
                title@,
                download,
                true,
            ).songs,
            turn@ == requested(old(self)@, old(song_list)@, title@, download, true).turn,
            !(turn.order is Fetch),
            old(self)@.phase != Phase::Acquiring ==> final(self)@.phase != Phase::Acquiring,
    {
        self.request(song_list, title, download, true)
    }

    /// Takes a request to play the song that answers `query`: once, or
    /// over and over if `looped`. `download` asks for a fresh fetch even if
    /// a known song would do; it is not heeded for playing in a loop.
    fn request(&mut self, list: &mut SongList, query: &str, download: bool, looped: bool) -> (turn:
        Turn)
        ensures
            final(self)@ == requested(old(self)@, old(list)@, query@, download, looped).state,
            final(list)@ == requested(old(self)@, old(list)@, query@, download, looped).songs,
            turn@ == requested(old(self)@, old(list)@, query@, download, looped).turn,
            looped ==> !(turn.order is Fetch),
            looped && old(self)@.phase != Phase::Acquiring ==> final(self)@.phase
                != Phase::Acquiring,
    {
        if self.phase != Phase::Idle {
            return self.rest();
        }
        self.query = String::from_str(query);
        let pick = if looped || !download {
            match self.resolver.best(list, query) {
                Some(candidate) => if self.resolver.accepts(candidate.score) {
                    Some(candidate.index)
                } else {
                    None
                },
                None => None,
            }
        } else {
            None
        };
        match pick {
            Some(at) => {
                let song = list.songs()[at].clone();
                let save = list.add_search(&song, query, self.resolver.fold_case);
                self.start(list, at, looped, save)
            },
            None => {
                if looped {
                    self.wind_up(None)
                } else {
                    let mut events: Vec<Action> = Vec::new();
                    events.push(Action::Downloading);
                    assert(action_views(events@) =~= seq![ActionView::Downloading]);
                    self.phase = Phase::Acquiring;
                    Turn {
                        order: Order::Fetch(search_target(query)),
                        events,
                        save: false,
                        failure: None,
                    }
                }
            },
        }
    }

    /// Takes the report of the fetch that the last turn ordered: whether
    /// the download tool ended well, and what it wrote to its output and to
    /// its error stream.
    pub fn fetched(
        &mut self,
        list: &mut SongList,
        success: bool,
        output: &str,
        errors: &str,
    ) -> (turn: Turn)
        ensures
            final(self)@ == fetched(old(self)@, old(list)@, success, output@, errors@).state,
            final(list)@ == fetched(old(self)@, old(list)@, success, output@, errors@).songs,
            turn@ == fetched(old(self)@, old(list)@, success, output@, errors@).turn,
    {
        if self.phase != Phase::Acquiring {
            return self.rest();
        }
        match parse_fetch_output(success, output, errors) {
            Err(error) => self.wind_up(Some(error)),
            Ok(report) => {
                let fold_case = self.resolver.fold_case;
                let entry = register(list, report, self.query.as_str());
                let recorded = list.add_search(&entry.song, self.query.as_str(), fold_case);
                self.start(list, entry.at, false, entry.added || recorded)
            },
        }
    }

    /// Takes the news that the song has played to its end.
    pub fn played(&mut self) -> (turn: Turn)
        ensures
            final(self)@ == played(old(self)@).state,
            turn@ == played(old(self)@).turn,
    {
        if self.phase != Phase::Playing {
            return self.rest();
        }
        self.wind_up(None)
    }

    /// Takes the news that something outside the coordinator failed.
    pub fn failed(&mut self, error: SongError) -> (turn: Turn)
        ensures
            final(self)@ == failed(old(self)@, error@).state,
            turn@ == failed(old(self)@, error@).turn,
    {
        if self.phase == Phase::Idle || self.phase == Phase::Terminated {
            return self.rest();
        }
        self.wind_up(Some(error))
    }
}

} // verus!
