//! The plain index: a text with one song title to a line, and the title
//! in it that comes closest to a query.

use crate::resolver::{best_of, lemma_best_of, ranks_before};
use crate::similarity::{lowercase, lstein, similarity};
use crate::song::texts;
use crate::text::{lines, split_lines, trim, trimmed};
use vstd::prelude::*;
use vstd::string::StringExecFns;

verus! {

/// The titles of an index: its lines, each without the white space around
/// it.
pub open spec fn titles_of(index: Seq<char>) -> Seq<Seq<char>> {
    Seq::new(lines(index).len(), |k: int| trimmed(lines(index)[k]))
}

/// Some title of the index is `title`, white space at the ends aside.
pub open spec fn listed(index: Seq<char>, title: Seq<char>) -> bool {
    exists|k: int|
        0 <= k < titles_of(index).len() && #[trigger] titles_of(index)[k] == trimmed(title)
}

/// How close a title of the index comes to a query, case aside.
pub open spec fn closeness(song: Seq<char>, title: Seq<char>) -> nat {
    similarity(lowercase(song), lowercase(title))
}

/// How close each of `songs` comes to the query, by position.
pub open spec fn closenesses(songs: Seq<Seq<char>>, title: Seq<char>) -> Seq<nat> {
    Seq::new(songs.len(), |k: int| closeness(songs[k], title))
}

/// Where the title that comes closest to the query stands: of equally
/// close titles the first. It means something only where there is a title.
pub open spec fn closest_at(songs: Seq<Seq<char>>, title: Seq<char>) -> int {
    best_of(closenesses(songs, title))
}

/// The title of `songs` that comes closest to the query. How close it
/// comes does not matter: where no title has anything in common with the
/// query, the first title is the closest.
pub open spec fn closest(songs: Seq<Seq<char>>, title: Seq<char>) -> Seq<char> {
    songs[closest_at(songs, title)]
}

/// The closest title is a title of the index, no title comes closer to
/// the query, and no earlier title comes as close.
pub proof fn lemma_closest(songs: Seq<Seq<char>>, title: Seq<char>)
    requires
        songs.len() > 0,
    ensures
        0 <= closest_at(songs, title) < songs.len(),
        forall|k: int|
            0 <= k < songs.len() ==> closeness(#[trigger] songs[k], title) <= closeness(
                closest(songs, title),
                title,
            ),
        forall|k: int|
            0 <= k < closest_at(songs, title) ==> closeness(#[trigger] songs[k], title)
                < closeness(closest(songs, title), title),
{
    let all = closenesses(songs, title);
    let best = best_of(all);
    lemma_best_of(all);
    assert forall|k: int| 0 <= k < songs.len() implies closeness(#[trigger] songs[k], title)
        <= closeness(closest(songs, title), title) by {
        if k != best {
            assert(ranks_before(all[best] as int, best, all[k] as int, k));
        }
    }
    assert forall|k: int| 0 <= k < best implies closeness(#[trigger] songs[k], title)
        < closeness(closest(songs, title), title) by {
        assert(ranks_before(all[best] as int, best, all[k] as int, k));
    }
}

/// The titles of an index, or `None` where it holds no line.
pub fn get_all_songs(index: &str) -> (songs: Option<Vec<String>>)
    ensures
        songs is Some <==> titles_of(index@).len() > 0,
        songs matches Some(found) ==> texts(found@) == titles_of(index@),
{
    let found = split_lines(index);
    let mut songs: Vec<String> = Vec::new();
    let mut k: usize = 0;
    while k < found.len()
        invariant
            k <= found@.len(),
            texts(found@) == lines(index@),
            texts(songs@) =~= titles_of(index@).take(k as int),
        decreases found@.len() - k,
    {
        let ghost before = texts(songs@);
        let line = trim(found[k].as_str());
        songs.push(String::from_str(line));
        proof {
            assert(texts(songs@) =~= before.push(trimmed(lines(index@)[k as int])));
        }
        k += 1;
    }
    if songs.len() > 0 {
        Some(songs)
    } else {
        None
    }
}

/// The title as it was asked for, if the index lists it.
pub fn get_song(index: &str, title: &str) -> (song: Option<String>)
    ensures
        song is Some <==> listed(index@, title@),
        song matches Some(found) ==> found@ == title@,
{
    let wanted = String::from_str(trim(title));
    let found = split_lines(index);
    let mut k: usize = 0;
    while k < found.len()
        invariant
            k <= found@.len(),
            wanted@ == trimmed(title@),
            texts(found@) == lines(index@),
            forall|j: int| 0 <= j < k ==> titles_of(index@)[j] != trimmed(title@),
        decreases found@.len() - k,
    {
        let line = String::from_str(trim(found[k].as_str()));
        if line == wanted {
            assert(titles_of(index@)[k as int] == trimmed(title@));
            return Some(String::from_str(title));
        }
        k += 1;
    }
    None
}

/// The title of the index that comes closest to `title`, however close
/// that is, and of equally close titles the first; `None` where the index
/// holds no line.
pub fn get_best_match(index: &str, title: &str) -> (song: Option<String>)
    ensures
        song is Some <==> titles_of(index@).len() > 0,
        song matches Some(best) ==> {
            let titles = titles_of(index@);
            &&& best@ == closest(titles, title@)
            &&& exists|k: int| 0 <= k < titles.len() && #[trigger] titles[k] == best@
            &&& forall|k: int|
                0 <= k < titles.len() ==> closeness(#[trigger] titles[k], title@) <= closeness(
                    best@,
                    title@,
                )
        },
{
    match get_all_songs(index) {
        Some(songs) => {
            let ghost titles = texts(songs@);
            let ghost all = closenesses(titles, title@);
            let mut at: usize = 0;
            let mut best: u32 = lstein(songs[0].as_str(), title);
            let mut k: usize = 1;
            while k < songs.len()
                invariant
                    1 <= k <= songs@.len(),
                    titles == texts(songs@),
                    all == closenesses(titles, title@),
                    at == best_of(all.take(k as int)),
                    at < k,
                    best == all[at as int],
                decreases songs@.len() - k,
            {
                proof {
                    assert(all.take(k + 1).drop_last() =~= all.take(k as int));
                }
                let closeness: u32 = lstein(songs[k].as_str(), title);
                if best < closeness {
                    at = k;
                    best = closeness;
                }
                k += 1;
            }
            proof {
                assert(all.take(k as int) =~= all);
                lemma_closest(titles, title@);
            }
            Some(songs[at].clone())
        },
        None => None,
    }
}

/// Enters a title into the index: the title goes to the end, as a line of
/// its own.
pub fn write_song(index: &mut String, title: &str)
    ensures
        final(index)@ == old(index)@ + title@ + "\n"@,
{
    index.append(title);
    index.append("\n");
}

} // verus!
