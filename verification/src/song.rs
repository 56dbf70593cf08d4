//! One cached song and the short history of searches that led to it.

use vstd::prelude::*;

verus! {

/// How many past searches a song remembers.
pub const MAX_SEARCHES: usize = 3;

/// The views of a sequence of strings, element by element.
pub open spec fn texts(strings: Seq<String>) -> Seq<Seq<char>> {
    Seq::new(strings.len(), |i: int| strings[i]@)
}

/// What a history becomes when `search` is recorded: the search goes to
/// the end, and once the history is full the oldest entry makes room.
pub open spec fn pushed(history: Seq<Seq<char>>, search: Seq<char>) -> Seq<Seq<char>> {
    if history.len() >= MAX_SEARCHES {
        history.drop_first().push(search)
    } else {
        history.push(search)
    }
}

/// A history stays within its bound, and a full one loses its oldest entry
/// to the new search while the others keep their order.
pub proof fn lemma_pushed(history: Seq<Seq<char>>, search: Seq<char>)
    requires
        history.len() <= MAX_SEARCHES,
    ensures
        pushed(history, search).len() <= MAX_SEARCHES,
        pushed(history, search).last() == search,
        history.len() < MAX_SEARCHES ==> pushed(history, search) == history.push(search),
        history.len() == MAX_SEARCHES ==> pushed(history, search) == seq![
            history[1],
            history[2],
            search,
        ],
{
}

/// A song as plain values.
pub struct SongView {
    pub id: Seq<char>,
    pub title: Seq<char>,
    pub duration: u32,
    pub searches: Seq<Seq<char>>,
}

impl SongView {
    /// A history never holds more than `MAX_SEARCHES` entries.
    pub open spec fn wf(self) -> bool {
        self.searches.len() <= MAX_SEARCHES
    }
}

/// A song in the local cache. The id names the source and the audio file;
/// title and duration are kept as they were fetched.
#[derive(Debug, PartialEq, Eq)]
pub struct Song {
    id: String,
    title: String,
    duration: u32,
    searches: Vec<String>,
}

impl View for Song {
    type V = SongView;

    closed spec fn view(&self) -> SongView {
        SongView {
            id: self.id@,
            title: self.title@,
            duration: self.duration,
            searches: texts(self.searches@),
        }
    }
}

impl Clone for Song {
    fn clone(&self) -> (copy: Self)
        ensures
            copy@ == self@,
    {
        proof {
            use_type_invariant(self);
        }
        let copy = Song {
            id: self.id.clone(),
            title: self.title.clone(),
            duration: self.duration,
            searches: self.searches.clone(),
        };
        copy
    }
}

impl Song {
    #[verifier::type_invariant]
    spec fn bounded(&self) -> bool {
        self.searches@.len() <= MAX_SEARCHES
    }

    /// A freshly fetched song, remembered under the search that found it.
    pub fn new(id: String, title: String, duration: u32, search: String) -> (song: Song)
        ensures
            song@ == (SongView { id: id@, title: title@, duration, searches: seq![search@] }),
            song@.wf(),
    {
        let mut searches: Vec<String> = Vec::new();
        searches.push(search);
        assert(texts(searches@) =~= seq![search@]);
        Song { id, title, duration, searches }
    }

    /// A song with a given history, as read back from storage. `None` when
    /// the history is longer than a song may hold.
    pub fn with_history(id: String, title: String, duration: u32, searches: Vec<String>) -> (song:
        Option<Song>)
        ensures
            song is Some <==> searches@.len() <= MAX_SEARCHES,
            song matches Some(s) ==> s@ == (SongView {
                id: id@,
                title: title@,
                duration,
                searches: texts(searches@),
            }),
    {
        if searches.len() <= MAX_SEARCHES {
            Some(Song { id, title, duration, searches })
        } else {
            None
        }
    }

    /// The id that the source gave the song.
    pub fn id(&self) -> (id: &String)
        ensures
            id@ == self@.id,
    {
        &self.id
    }

    /// The title to show.
    pub fn title(&self) -> (title: &String)
        ensures
            title@ == self@.title,
    {
        &self.title
    }

    /// How long the song plays, in seconds.
    pub fn duration(&self) -> (duration: u32)
        ensures
            duration == self@.duration,
    {
        self.duration
    }

    /// The remembered searches, oldest first.
    pub fn searches(&self) -> (searches: &Vec<String>)
        ensures
            texts(searches@) == self@.searches,
            searches@.len() <= MAX_SEARCHES,
            self@.wf(),
    {
        proof {
            use_type_invariant(self);
        }
        &self.searches
    }

    /// Records `search` as the newest entry of the history, evicting the
    /// oldest one when the history is full.
    pub fn push_search(&mut self, search: String)
        ensures
            final(self)@.searches == pushed(old(self)@.searches, search@),
            final(self)@.id == old(self)@.id,
            final(self)@.title == old(self)@.title,
            final(self)@.duration == old(self)@.duration,
            final(self)@.wf(),
    {
        proof {
            use_type_invariant(&*self);
        }
        let mut searches: Vec<String> = Vec::new();
        std::mem::swap(&mut self.searches, &mut searches);
        if searches.len() >= MAX_SEARCHES {
            searches.remove(0);
        }
        searches.push(search);
        std::mem::swap(&mut self.searches, &mut searches);
    }
}

} // verus!
