//! The catalog: every known song, each under an id of its own.

use crate::error::{ErrorKind, SongError};
use crate::similarity::{similarity_of, similarity_under};
use crate::song::{pushed, Song, SongView};
use vstd::prelude::*;

verus! {

/// The songs as plain values, in catalog order.
pub open spec fn song_views(songs: Seq<Song>) -> Seq<SongView> {
    Seq::new(songs.len(), |i: int| songs[i]@)
}

/// No two songs share an id.
pub open spec fn distinct_ids(songs: Seq<SongView>) -> bool {
    forall|i: int, j: int| 0 <= i < j < songs.len() ==> songs[i].id != songs[j].id
}

/// The song at `j` carries an id that an earlier song carries too.
pub open spec fn repeats(songs: Seq<SongView>, j: int) -> bool {
    0 <= j < songs.len() && exists|k: int| 0 <= k < j && #[trigger] songs[k].id == songs[j].id
}

/// The song at `j` is the first that repeats an earlier id.
pub open spec fn first_repeat(songs: Seq<SongView>, j: int) -> bool {
    repeats(songs, j) && forall|earlier: int| 0 <= earlier < j ==> !repeats(songs, earlier)
}

/// Some song carries `id`.
pub open spec fn has_id(songs: Seq<SongView>, id: Seq<char>) -> bool {
    exists|i: int| 0 <= i < songs.len() && #[trigger] songs[i].id == id
}

/// `id` is carried by the song at `at` and by no other.
pub open spec fn only_at(songs: Seq<SongView>, id: Seq<char>, at: int) -> bool {
    &&& 0 <= at < songs.len()
    &&& forall|i: int| 0 <= i < songs.len() ==> (#[trigger] songs[i].id == id <==> i == at)
}

/// Where the song that carries `id` stands. It means something only when
/// some song does.
pub open spec fn index_of(songs: Seq<SongView>, id: Seq<char>) -> int {
    choose|at: int| 0 <= at < songs.len() && #[trigger] songs[at].id == id
}

/// Tells the songs that do not carry `id`.
pub open spec fn other_than(id: Seq<char>) -> spec_fn(SongView) -> bool {
    |song: SongView| song.id != id
}

/// The catalog with every song that carries `id` taken out.
pub open spec fn without_id(songs: Seq<SongView>, id: Seq<char>) -> Seq<SongView> {
    songs.filter(other_than(id))
}

/// The catalog with `song` entered: as it was where a song carries the id
/// already, else with `song` at its end.
pub open spec fn inserted(songs: Seq<SongView>, song: SongView) -> Seq<SongView> {
    if has_id(songs, song.id) {
        songs
    } else {
        songs.push(song)
    }
}

/// After a song is entered its id is in the catalog, and entering keeps
/// ids distinct: exactly one song carries the id.
pub proof fn lemma_inserted_once(songs: Seq<SongView>, song: SongView)
    requires
        distinct_ids(songs),
    ensures
        distinct_ids(inserted(songs, song)),
        has_id(inserted(songs, song), song.id),
        exists|at: int| only_at(inserted(songs, song), song.id, at),
{
    let after = inserted(songs, song);
    if has_id(songs, song.id) {
        let at = index_of(songs, song.id);
        assert(only_at(after, song.id, at));
    } else {
        let at = songs.len() as int;
        assert(after[at].id == song.id);
        assert(only_at(after, song.id, at));
    }
}

/// Entering a song whose id the catalog holds changes nothing; so entering
/// the same song twice is the same as entering it once.
pub proof fn lemma_inserted_twice(songs: Seq<SongView>, song: SongView, again: SongView)
    requires
        again.id == song.id,
    ensures
        inserted(inserted(songs, song), again) == inserted(songs, song),
        has_id(songs, song.id) ==> inserted(songs, song) == songs,
{
    let after = inserted(songs, song);
    if !has_id(songs, song.id) {
        assert(after[songs.len() as int].id == song.id);
    }
}

/// A song with `search` recorded in its history.
pub open spec fn with_search(song: SongView, search: Seq<char>) -> SongView {
    SongView { searches: pushed(song.searches, search), ..song }
}

/// How similar a search must be to the newest remembered one to be
/// remembered too: seven tenths.
pub const HISTORY_GATE: u32 = 700_000;

/// A search is worth remembering when it is close to the newest entry of
/// the history. An empty history takes nothing in.
pub open spec fn continues(history: Seq<Seq<char>>, search: Seq<char>, fold_case: bool) -> bool {
    history.len() > 0 && similarity_under(fold_case, history.last(), search) >= HISTORY_GATE
}

/// A search is recorded for `id` when a song carries the id and the search
/// continues that song's history.
pub open spec fn records(
    songs: Seq<SongView>,
    id: Seq<char>,
    search: Seq<char>,
    fold_case: bool,
) -> bool {
    has_id(songs, id) && continues(songs[index_of(songs, id)].searches, search, fold_case)
}

/// The catalog after a search for `id`: the song's history has taken the
/// search in if it is recorded, and nothing else has changed.
pub open spec fn after_search(
    songs: Seq<SongView>,
    id: Seq<char>,
    search: Seq<char>,
    fold_case: bool,
) -> Seq<SongView> {
    if records(songs, id, search, fold_case) {
        let at = index_of(songs, id);
        songs.update(at, with_search(songs[at], search))
    } else {
        songs
    }
}

/// Two views of one song: the same id, title and duration, whatever the
/// histories.
pub open spec fn same_song(one: SongView, other: SongView) -> bool {
    one.id == other.id && one.title == other.title && one.duration == other.duration
}

/// A search changes nothing but one history: the catalog keeps its length,
/// every song keeps its place, id, title and duration, and every song but
/// the one that carries the id keeps its history too.
pub proof fn lemma_after_search_keeps(
    songs: Seq<SongView>,
    id: Seq<char>,
    search: Seq<char>,
    fold_case: bool,
)
    ensures
        after_search(songs, id, search, fold_case).len() == songs.len(),
        forall|i: int|
            0 <= i < songs.len() ==> same_song(
                songs[i],
                #[trigger] after_search(songs, id, search, fold_case)[i],
            ),
        forall|i: int|
            0 <= i < songs.len() && songs[i].id != id ==> #[trigger] after_search(
                songs,
                id,
                search,
                fold_case,
            )[i] == songs[i],
        !records(songs, id, search, fold_case) ==> after_search(songs, id, search, fold_case)
            == songs,
{
}

/// Taking out an id that no song carries leaves the catalog as it is.
pub proof fn lemma_without_unknown(songs: Seq<SongView>, id: Seq<char>)
    requires
        !has_id(songs, id),
    ensures
        without_id(songs, id) == songs,
    decreases songs.len(),
{
    reveal(Seq::filter);
    if songs.len() > 0 {
        let front = songs.drop_last();
        lemma_without_unknown(front, id);
    }
}

/// Where one song carries the id, taking the id out removes that song and
/// leaves the others in place.
pub proof fn lemma_without_known(songs: Seq<SongView>, id: Seq<char>, at: int)
    requires
        only_at(songs, id, at),
    ensures
        without_id(songs, id) == songs.remove(at),
    decreases songs.len(),
{
    reveal(Seq::filter);
    let front = songs.drop_last();
    let last = songs.len() - 1;
    if at == last {
        lemma_without_unknown(front, id);
    } else {
        lemma_without_known(front, id, at);
    }
}

/// The known songs. No two of them share an id.
#[derive(Debug, PartialEq, Eq)]
pub struct SongList {
    songs: Vec<Song>,
}

impl View for SongList {
    type V = Seq<SongView>;

    closed spec fn view(&self) -> Seq<SongView> {
        song_views(self.songs@)
    }
}

impl SongList {
    #[verifier::type_invariant]
    spec fn unique(&self) -> bool {
        distinct_ids(song_views(self.songs@))
    }

    /// A catalog without songs.
    pub fn new() -> (list: SongList)
        ensures
            list@ == Seq::<SongView>::empty(),
    {
        let songs: Vec<Song> = Vec::new();
        SongList { songs }
    }

    /// A catalog of the given songs, as read back from storage. Songs that
    /// share an id make no catalog: the failure names the first id that
    /// comes a second time.
    pub fn from_songs(songs: Vec<Song>) -> (outcome: Result<SongList, SongError>)
        ensures
            outcome is Ok <==> distinct_ids(song_views(songs@)),
            outcome matches Ok(list) ==> list@ == song_views(songs@),
            outcome matches Err(error) ==> error@.kind == ErrorKind::Catalog && exists|j: int|
                first_repeat(song_views(songs@), j) && error@.detail == #[trigger] song_views(
                    songs@,
                )[j].id,
    {
        let ghost views = song_views(songs@);
        let mut j: usize = 0;
        while j < songs.len()
            invariant
                j <= songs@.len(),
                views == song_views(songs@),
                distinct_ids(views.take(j as int)),
            decreases songs@.len() - j,
        {
            let mut i: usize = 0;
            while i < j
                invariant
                    i <= j < songs@.len(),
                    views == song_views(songs@),
                    distinct_ids(views.take(j as int)),
                    forall|k: int| 0 <= k < i ==> views[k].id != views[j as int].id,
                decreases j - i,
            {
                if *songs[i].id() == *songs[j].id() {
                    proof {
                        assert(views[i as int].id == views[j as int].id);
                        assert forall|earlier: int| 0 <= earlier < j implies !repeats(
                            views,
                            earlier,
                        ) by {
                            if repeats(views, earlier) {
                                let k = choose|k: int|
                                    0 <= k < earlier && #[trigger] views[k].id == views[earlier].id;
                                assert(views.take(j as int)[k] == views[k]);
                                assert(views.take(j as int)[earlier] == views[earlier]);
                            }
                        }
                    }
                    return Err(SongError::Catalog(songs[j].id().clone()));
                }
                i += 1;
            }
            j += 1;
        }
        assert(views.take(j as int) =~= views);
        Ok(SongList { songs })
    }

    /// How many songs the catalog holds.
    pub fn len(&self) -> (n: usize)
        ensures
            n == self@.len(),
    {
        self.songs.len()
    }

    /// The songs in catalog order.
    pub fn songs(&self) -> (songs: &Vec<Song>)
        ensures
            song_views(songs@) == self@,
            distinct_ids(self@),
    {
        proof {
            use_type_invariant(self);
        }
        &self.songs
    }

    /// The song at `index`, if there is one.
    pub fn get(&self, index: usize) -> (song: Option<&Song>)
        ensures
            song is Some <==> index < self@.len(),
            song matches Some(s) ==> s@ == self@[index as int],
    {
        if index < self.songs.len() {
            Some(&self.songs[index])
        } else {
            None
        }
    }

    /// Where the song with this id stands.
    pub fn find(&self, id: &str) -> (found: Option<usize>)
        ensures
            found is Some <==> has_id(self@, id@),
            found matches Some(at) ==> only_at(self@, id@, at as int),
    {
        proof {
            use_type_invariant(self);
        }
        let wanted = id.to_owned();
        let mut i: usize = 0;
        while i < self.songs.len()
            invariant
                i <= self.songs@.len(),
                wanted@ == id@,
                distinct_ids(song_views(self.songs@)),
                forall|k: int| 0 <= k < i ==> song_views(self.songs@)[k].id != id@,
            decreases self.songs@.len() - i,
        {
            if *self.songs[i].id() == wanted {
                assert(song_views(self.songs@)[i as int].id == id@);
                return Some(i);
            }
            i += 1;
        }
        None
    }

    /// The song with this id, if the catalog holds one.
    pub fn lookup(&self, id: &str) -> (song: Option<&Song>)
        ensures
            song is Some <==> has_id(self@, id@),
            song matches Some(s) ==> s@ == self@[index_of(self@, id@)],
    {
        match self.find(id) {
            Some(at) => Some(&self.songs[at]),
            None => None,
        }
    }

    /// Adds a copy of `new_song` unless a song with its id is known
    /// already; then the catalog stays as it is. Tells whether the song was
    /// added.
    pub fn add_song(&mut self, new_song: &Song) -> (added: bool)
        ensures
            added == !has_id(old(self)@, new_song@.id),
            final(self)@ == inserted(old(self)@, new_song@),
            distinct_ids(final(self)@),
            has_id(final(self)@, new_song@.id),
            exists|at: int| only_at(final(self)@, new_song@.id, at),
    {
        proof {
            use_type_invariant(&*self);
        }
        match self.find(new_song.id().as_str()) {
            Some(_) => false,
            None => {
                let ghost before = song_views(self.songs@);
                let mut songs: Vec<Song> = Vec::new();
                std::mem::swap(&mut self.songs, &mut songs);
                songs.push(new_song.clone());
                proof {
                    let after = song_views(songs@);
                    assert(after =~= before.push(new_song@));
                    assert(only_at(after, new_song@.id, before.len() as int));
                    assert(after[before.len() as int].id == new_song@.id);
                }
                std::mem::swap(&mut self.songs, &mut songs);
                true
            },
        }
    }

    /// Records `search` in the history of the song that has the id of
    /// `song`, provided the search is close enough to the newest one
    /// remembered there. Tells whether the catalog changed.
    pub fn add_search(&mut self, song: &Song, search: &str, fold_case: bool) -> (recorded: bool)
        ensures
            recorded == records(old(self)@, song@.id, search@, fold_case),
            final(self)@ == after_search(old(self)@, song@.id, search@, fold_case),
            final(self)@.len() == old(self)@.len(),
            distinct_ids(final(self)@),
    {
        proof {
            use_type_invariant(&*self);
        }
        let ghost before = song_views(self.songs@);
        let ghost id = song@.id;
        match self.find(song.id().as_str()) {
            Some(at) => {
                let history = self.songs[at].searches();
                if history.len() == 0 {
                    return false;
                }
                let last = &history[history.len() - 1];
                if similarity_of(fold_case, last.as_str(), search) < HISTORY_GATE {
                    return false;
                }
                let mut songs: Vec<Song> = Vec::new();
                std::mem::swap(&mut self.songs, &mut songs);
                songs[at].push_search(search.to_owned());
                proof {
                    let after = song_views(songs@);
                    let found = with_search(before[at as int], search@);
                    assert(after =~= before.update(at as int, found));
                }
                std::mem::swap(&mut self.songs, &mut songs);
                true
            },
            None => false,
        }
    }

    /// Takes the song with the id of `old_song` out of the catalog. Tells
    /// whether there was one.
    pub fn remove(&mut self, old_song: &Song) -> (removed: bool)
        ensures
            removed == has_id(old(self)@, old_song@.id),
            final(self)@ == without_id(old(self)@, old_song@.id),
            !has_id(final(self)@, old_song@.id),
            distinct_ids(final(self)@),
    {
        proof {
            use_type_invariant(&*self);
        }
        let ghost before = song_views(self.songs@);
        let ghost id = old_song@.id;
        match self.find(old_song.id().as_str()) {
            Some(at) => {
                let mut songs: Vec<Song> = Vec::new();
                std::mem::swap(&mut self.songs, &mut songs);
                songs.remove(at);
                proof {
                    let after = song_views(songs@);
                    assert(after =~= before.remove(at as int));
                    lemma_without_known(before, id, at as int);
                    assert(distinct_ids(after));
                }
                std::mem::swap(&mut self.songs, &mut songs);
                true
            },
            None => {
                proof {
                    lemma_without_unknown(before, id);
                }
                false
            },
        }
    }
}

} // verus!
