//! Ranks the songs of a catalog against a query: a little by title, mostly
//! by the searches that found each song before.

use crate::catalog::{song_views, SongList};
use crate::similarity::{lemma_similarity_under, similarity_of, similarity_under, SCALE};
use crate::song::{texts, Song, SongView};
use vstd::prelude::*;

verus! {

/// The score from which a match is good enough to play without a fresh
/// fetch: three quarters.
pub const ACCEPT_THRESHOLD: u32 = 750_000;

/// The similarities of the query to each remembered search, added up.
pub open spec fn history_total(searches: Seq<Seq<char>>, query: Seq<char>, fold_case: bool) -> nat
    decreases searches.len(),
{
    if searches.len() == 0 {
        0
    } else {
        history_total(searches.drop_last(), query, fold_case) + similarity_under(
            fold_case,
            searches.last(),
            query,
        )
    }
}

/// The score of a song for a query, in millionths and rounded down: one
/// tenth of the similarity to the title, and nine tenths of the mean
/// similarity to the remembered searches. A song without history scores by
/// its title alone.
pub open spec fn score(song: SongView, query: Seq<char>, fold_case: bool) -> nat {
    let by_title = similarity_under(fold_case, query, song.title);
    let n = song.searches.len();
    if n == 0 {
        by_title / 10
    } else {
        (n * by_title + 9 * history_total(song.searches, query, fold_case)) / (10 * n)
    }
}

/// The score of every song of a catalog, by position.
pub open spec fn scores(songs: Seq<SongView>, query: Seq<char>, fold_case: bool) -> Seq<nat> {
    Seq::new(songs.len(), |m: int| score(songs[m], query, fold_case))
}

/// A song of the catalog, named by its position, with its score.
#[derive(Clone, Copy, Debug, PartialEq, Eq, Structural)]
pub struct MatchCandidate {
    pub index: usize,
    pub score: u32,
}

/// The order of a ranking: the higher score first, and of two equal scores
/// the song that stands earlier in the catalog.
pub open spec fn ranks_before(x_score: int, x_index: int, y_score: int, y_index: int) -> bool {
    x_score > y_score || (x_score == y_score && x_index < y_index)
}

/// The song at position `m` is among the picks.
pub open spec fn picked(picks: Seq<MatchCandidate>, m: int) -> bool {
    exists|r: int| 0 <= r < picks.len() && #[trigger] picks[r].index == m
}

/// `picks` is the ranking of the best `count` songs: as many picks as
/// asked for, or all songs if there are fewer; each pick a song with its
/// score; the picks in ranking order; and no song left out that would rank
/// before a pick.
pub open spec fn is_ranking(all: Seq<nat>, count: nat, picks: Seq<MatchCandidate>) -> bool {
    &&& picks.len() == if count <= all.len() {
        count
    } else {
        all.len()
    }
    &&& forall|r: int|
        0 <= r < picks.len() ==> (#[trigger] picks[r]).index < all.len() && picks[r].score
            == all[picks[r].index as int]
    &&& forall|r: int, s: int|
        0 <= r < s < picks.len() ==> ranks_before(
            (#[trigger] picks[r]).score as int,
            picks[r].index as int,
            (#[trigger] picks[s]).score as int,
            picks[s].index as int,
        )
    &&& forall|m: int, r: int|
        0 <= m < all.len() && 0 <= r < picks.len() && !picked(picks, m) ==> ranks_before(
            (#[trigger] picks[r]).score as int,
            picks[r].index as int,
            #[trigger] all[m] as int,
            m,
        )
}

/// The position of the song that ranks first: the highest score, and of
/// equal scores the earliest. It means something only for a catalog that
/// holds a song.
pub open spec fn best_of(all: Seq<nat>) -> int
    decreases all.len(),
{
    if all.len() <= 1 {
        0
    } else {
        let earlier = best_of(all.drop_last());
        if all.last() > all[earlier] {
            all.len() - 1
        } else {
            earlier
        }
    }
}

/// The song at `best_of` ranks before every other song.
pub proof fn lemma_best_of(all: Seq<nat>)
    requires
        all.len() > 0,
    ensures
        0 <= best_of(all) < all.len(),
        forall|m: int|
            0 <= m < all.len() && m != best_of(all) ==> ranks_before(
                all[best_of(all)] as int,
                best_of(all),
                #[trigger] all[m] as int,
                m,
            ),
    decreases all.len(),
{
    if all.len() > 1 {
        let front = all.drop_last();
        lemma_best_of(front);
        assert forall|m: int| 0 <= m < all.len() && m != best_of(all) implies ranks_before(
            all[best_of(all)] as int,
            best_of(all),
            #[trigger] all[m] as int,
            m,
        ) by {
            if m < front.len() {
                assert(front[m] == all[m]);
            }
        }
    }
}

/// A ranking that picks anything picks the song at `best_of` first.
pub proof fn lemma_ranking_first(all: Seq<nat>, count: nat, picks: Seq<MatchCandidate>)
    requires
        is_ranking(all, count, picks),
        picks.len() > 0,
    ensures
        picks[0].index == best_of(all),
        picks[0].score == all[best_of(all)],
{
    lemma_best_of(all);
}

/// A catalog and a count have one ranking only: two rankings of the same
/// scores for the same count are the same sequence of picks.
pub proof fn lemma_ranking_unique(
    all: Seq<nat>,
    count: nat,
    one: Seq<MatchCandidate>,
    other: Seq<MatchCandidate>,
)
    requires
        is_ranking(all, count, one),
        is_ranking(all, count, other),
    ensures
        one == other,
{
    assert forall|k: int| 0 <= k < one.len() implies one[k] == other[k] by {
        lemma_rankings_agree(all, count, one, other, k);
    }
}

/// Two rankings agree at every position: by induction on the position, each
/// pick at `k` ranks no later than the other.
proof fn lemma_rankings_agree(
    all: Seq<nat>,
    count: nat,
    one: Seq<MatchCandidate>,
    other: Seq<MatchCandidate>,
    k: int,
)
    requires
        is_ranking(all, count, one),
        is_ranking(all, count, other),
        0 <= k < one.len(),
    ensures
        one[k] == other[k],
    decreases k,
{
    assert forall|j: int| 0 <= j < k implies one[j] == other[j] by {
        lemma_rankings_agree(all, count, one, other, j);
    }
}

/// A history's total is at most one whole for each entry.
pub proof fn lemma_history_total_bound(searches: Seq<Seq<char>>, query: Seq<char>, fold_case: bool)
    ensures
        history_total(searches, query, fold_case) <= searches.len() * SCALE,
    decreases searches.len(),
{
    if searches.len() > 0 {
        lemma_history_total_bound(searches.drop_last(), query, fold_case);
        lemma_similarity_under(fold_case, searches.last(), query);
        assert((searches.len() - 1) * SCALE + SCALE == searches.len() * SCALE)
            by (nonlinear_arith);
    }
}

/// A score is a share of one whole.
pub proof fn lemma_score_bound(song: SongView, query: Seq<char>, fold_case: bool)
    ensures
        score(song, query, fold_case) <= SCALE,
{
    let by_title = similarity_under(fold_case, query, song.title);
    let n = song.searches.len();
    let total = history_total(song.searches, query, fold_case);
    lemma_similarity_under(fold_case, query, song.title);
    lemma_history_total_bound(song.searches, query, fold_case);
    if n > 0 {
        assert((n * by_title + 9 * total) / (10 * n) <= SCALE) by (nonlinear_arith)
            requires
                n > 0,
                by_title <= SCALE,
                total <= n * SCALE,
        ;
    }
}

/// The score of one song for a query.
pub fn score_song(song: &Song, query: &str, fold_case: bool) -> (s: u32)
    ensures
        s == score(song@, query@, fold_case),
        s <= SCALE,
{
    proof {
        lemma_score_bound(song@, query@, fold_case);
    }
    let by_title: u64 = similarity_of(fold_case, query, song.title().as_str()) as u64;
    let searches = song.searches();
    let n: usize = searches.len();
    let ghost history = texts(searches@);
    let mut total: u64 = 0;
    let mut k: usize = 0;
    while k < n
        invariant
            k <= n,
            n == searches@.len(),
            n <= 3,
            history == texts(searches@),
            total == history_total(history.take(k as int), query@, fold_case),
            total <= k * SCALE,
        decreases n - k,
    {
        proof {
            assert(history.take(k + 1).drop_last() =~= history.take(k as int));
        }
        total = total + similarity_of(fold_case, searches[k].as_str(), query) as u64;
        k += 1;
    }
    proof {
        assert(history.take(n as int) =~= history);
    }
    if n == 0 {
        (by_title / 10) as u32
    } else {
        let parts: u64 = n as u64;
        assert(parts * by_title <= 3 * SCALE && total <= 3 * SCALE) by (nonlinear_arith)
            requires
                parts <= 3,
                by_title <= SCALE,
                total <= parts * SCALE,
        ;
        ((parts * by_title + 9 * total) / (10 * parts)) as u32
    }
}

/// The ranking invariant survives a new pick: `c`, the song at `i`, goes
/// in at `p`, behind every pick that scores at least as much, and the last
/// pick makes room if the ranking was full.
proof fn lemma_pick_goes_in(
    all: Seq<nat>,
    i: int,
    count: nat,
    old_picks: Seq<MatchCandidate>,
    p: int,
    c: MatchCandidate,
    new_picks: Seq<MatchCandidate>,
)
    requires
        0 <= i < all.len(),
        is_ranking(all.take(i), count, old_picks),
        old_picks.len() < count ==> forall|m: int| 0 <= m < i ==> picked(old_picks, m),
        c.index == i,
        c.score == all[i],
        0 <= p <= old_picks.len(),
        p < count,
        p == 0 || old_picks[p - 1].score >= c.score,
        forall|r: int| p <= r < old_picks.len() ==> (#[trigger] old_picks[r]).score < c.score,
        new_picks == (if old_picks.len() == count {
            old_picks.drop_last()
        } else {
            old_picks
        }).insert(p, c),
    ensures
        is_ranking(all.take(i + 1), count, new_picks),
        new_picks.len() < count ==> forall|m: int| 0 <= m < i + 1 ==> picked(new_picks, m),
{
    let full = old_picks.len() == count;
    let base = if full {
        old_picks.drop_last()
    } else {
        old_picks
    };
    let after = all.take(i + 1);
    assert(new_picks[p].index == i);
    assert forall|m: int| 0 <= m < i && picked(base, m) implies picked(new_picks, m) by {
        let r0 = choose|r: int| 0 <= r < base.len() && #[trigger] base[r].index == m;
        if r0 < p {
            assert(new_picks[r0].index == m);
        } else {
            assert(new_picks[r0 + 1].index == m);
        }
    }
    assert forall|m: int, r: int|
        0 <= m < after.len() && 0 <= r < new_picks.len() && !picked(
            new_picks,
            m,
        ) implies ranks_before(
        (#[trigger] new_picks[r]).score as int,
        new_picks[r].index as int,
        #[trigger] after[m] as int,
        m,
    ) by {
        if picked(old_picks, m) {
            let r0 = choose|r: int| 0 <= r < old_picks.len() && #[trigger] old_picks[r].index == m;
            if r0 < base.len() {
                assert(base[r0].index == m);
            }
        } else if r == p {
            assert(old_picks[p].score < c.score);
        }
    }
}

/// How a query is matched: with or without regard to case, and from which
/// score a match is taken without asking further.
#[derive(Clone, Copy, Debug, PartialEq, Eq, Structural)]
pub struct Resolver {
    pub fold_case: bool,
    pub threshold: u32,
}

impl Resolver {
    /// A resolver that compares texts as they are, or in lower case when
    /// `fold_case` is set, and accepts scores from `threshold` up.
    pub fn new(fold_case: bool, threshold: u32) -> (resolver: Resolver)
        ensures
            resolver.fold_case == fold_case,
            resolver.threshold == threshold,
    {
        Resolver { fold_case, threshold }
    }

    /// The usual resolver: case matters, and three quarters are enough.
    pub fn standard() -> (resolver: Resolver)
        ensures
            !resolver.fold_case,
            resolver.threshold == ACCEPT_THRESHOLD,
    {
        Resolver { fold_case: false, threshold: ACCEPT_THRESHOLD }
    }

    /// Whether a score is good enough to play the song without a fresh
    /// fetch.
    pub fn accepts(&self, score: u32) -> (good: bool)
        ensures
            good == (score >= self.threshold),
    {
        score >= self.threshold
    }

    /// The song that ranks first for a query, with its score. `None` for an
    /// empty catalog.
    pub fn best(&self, list: &SongList, query: &str) -> (pick: Option<MatchCandidate>)
        ensures
            pick is Some <==> list@.len() > 0,
            pick matches Some(c) ==> c.index < list@.len() && c.index == best_of(
                scores(list@, query@, self.fold_case),
            ) && c.score == scores(list@, query@, self.fold_case)[c.index as int],
    {
        let picks = self.best_matches(list, query, 1);
        if picks.len() > 0 {
            proof {
                lemma_ranking_first(scores(list@, query@, self.fold_case), 1, picks@);
            }
            Some(picks[0])
        } else {
            None
        }
    }

    /// The best `count` songs of the catalog for a query, best first. Songs
    /// that score the same keep their catalog order. Nothing is returned
    /// for an empty catalog or a `count` of zero.
    pub fn best_matches(&self, list: &SongList, query: &str, count: usize) -> (picks: Vec<
        MatchCandidate,
    >)
        ensures
            is_ranking(scores(list@, query@, self.fold_case), count as nat, picks@),
            picks@.len() <= count,
            picks@.len() <= list@.len(),
            forall|r: int, s: int|
                0 <= r < s < picks@.len() ==> (#[trigger] picks@[r]).score >= (
                #[trigger] picks@[s]).score,
            forall|r: int| 0 <= r < picks@.len() ==> (#[trigger] picks@[r]).index < list@.len(),
    {
        let fold_case = self.fold_case;
        let songs = list.songs();
        let n: usize = songs.len();
        let ghost all = scores(list@, query@, fold_case);
        let mut picks: Vec<MatchCandidate> = Vec::new();
        if count == 0 {
            return picks;
        }
        let mut i: usize = 0;
        while i < n
            invariant
                i <= n,
                n == all.len(),
                n == songs@.len(),
                count > 0,
                song_views(songs@) == list@,
                all == scores(list@, query@, fold_case),
                is_ranking(all.take(i as int), count as nat, picks@),
                picks@.len() < count ==> forall|m: int| 0 <= m < i ==> picked(picks@, m),
            decreases n - i,
        {
            let score: u32 = score_song(&songs[i], query, fold_case);
            let mut p: usize = picks.len();
            while p > 0 && picks[p - 1].score < score
                invariant
                    p <= picks@.len(),
                    forall|r: int| p <= r < picks@.len() ==> (#[trigger] picks@[r]).score < score,
                decreases p,
            {
                p -= 1;
            }
            let ghost before = picks@;
            if p < count {
                if picks.len() == count {
                    picks.pop();
                }
                let candidate = MatchCandidate { index: i, score };
                picks.insert(p, candidate);
                proof {
                    lemma_pick_goes_in(
                        all,
                        i as int,
                        count as nat,
                        before,
                        p as int,
                        candidate,
                        picks@,
                    );
                }
            }
            i += 1;
        }
        proof {
            assert(all.take(n as int) =~= all);
        }
        picks
    }
}

/// The best `song_count` songs of the catalog for `title`, best first, as
/// the usual resolver ranks them.
pub fn get_best_match(song_list: &SongList, title: &str, song_count: usize) -> (picks: Vec<
    MatchCandidate,
>)
    ensures
        is_ranking(scores(song_list@, title@, false), song_count as nat, picks@),
        picks@.len() <= song_count,
        picks@.len() <= song_list@.len(),
        forall|r: int, s: int|
            0 <= r < s < picks@.len() ==> (#[trigger] picks@[r]).score >= (
            #[trigger] picks@[s]).score,
        forall|r: int| 0 <= r < picks@.len() ==> (#[trigger] picks@[r]).index < song_list@.len(),
{
    Resolver::standard().best_matches(song_list, title, song_count)
}

} // verus!
