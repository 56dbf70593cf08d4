use tura::catalog::{SongList, HISTORY_GATE};
use tura::error::{ErrorKind, SongError};
use tura::song::Song;

fn song(id: &str, title: &str, search: &str) -> Song {
    Song::new(id.to_string(), title.to_string(), 100, search.to_string())
}

fn ids(list: &SongList) -> Vec<&str> {
    list.songs().iter().map(|s| s.id().as_str()).collect()
}

fn history(list: &SongList, at: usize) -> Vec<&str> {
    list.songs()[at].searches().iter().map(|s| s.as_str()).collect()
}

fn three() -> SongList {
    let mut list = SongList::new();
    list.add_song(&song("a", "Alpha", "alpha"));
    list.add_song(&song("b", "Beta", "beta"));
    list.add_song(&song("c", "Gamma", "gamma"));
    list
}

#[test]
fn a_new_catalog_is_empty() {
    let list = SongList::new();
    assert_eq!(list.len(), 0);
    assert!(list.songs().is_empty());
    assert!(list.get(0).is_none());
}

#[test]
fn songs_are_added_at_the_end() {
    let list = three();
    assert_eq!(ids(&list), vec!["a", "b", "c"]);
    assert_eq!(list.len(), 3);
}

#[test]
fn adding_a_known_id_changes_nothing() {
    let mut list = three();
    let before = list.songs().clone();
    let added = list.add_song(&song("b", "Another title", "another search"));
    assert!(!added);
    assert_eq!(list.songs(), &before);
    assert_eq!(ids(&list).iter().filter(|id| **id == "b").count(), 1);
    assert_eq!(list.songs()[1].title(), "Beta");
}

#[test]
fn adding_the_same_song_twice_is_adding_it_once() {
    let mut list = SongList::new();
    assert!(list.add_song(&song("a", "Alpha", "alpha")));
    let once = list.songs().clone();
    assert!(!list.add_song(&song("a", "Alpha", "alpha")));
    assert_eq!(list.songs(), &once);
    assert_eq!(list.len(), 1);
}

#[test]
fn find_tells_where_an_id_stands() {
    let list = three();
    assert_eq!(list.find("a"), Some(0));
    assert_eq!(list.find("c"), Some(2));
    assert_eq!(list.find("z"), None);
    assert_eq!(list.find(""), None);
}

#[test]
fn lookup_hands_out_the_song() {
    let list = three();
    assert_eq!(list.lookup("b").map(|s| s.title().as_str()), Some("Beta"));
    assert!(list.lookup("z").is_none());
}

#[test]
fn get_is_by_position() {
    let list = three();
    assert_eq!(list.get(2).map(|s| s.id().as_str()), Some("c"));
    assert!(list.get(3).is_none());
}

#[test]
fn remove_takes_out_the_song_with_that_id() {
    let mut list = three();
    assert!(list.remove(&song("b", "whatever", "whatever")));
    assert_eq!(ids(&list), vec!["a", "c"]);
    assert_eq!(list.find("b"), None);
}

#[test]
fn removing_an_unknown_id_changes_nothing() {
    let mut list = three();
    assert!(!list.remove(&song("z", "Zeta", "zeta")));
    assert_eq!(ids(&list), vec!["a", "b", "c"]);
}

#[test]
fn the_gate_is_seven_tenths() {
    assert_eq!(HISTORY_GATE, 700_000);
}

#[test]
fn a_search_close_to_the_newest_one_is_recorded() {
    let mut list = SongList::new();
    list.add_song(&song("abc", "Monody", "fat rat monody"));
    let recorded = list.add_search(&song("abc", "", ""), "the fat rat monody", false);
    assert!(recorded);
    assert_eq!(history(&list, 0), vec!["fat rat monody", "the fat rat monody"]);
}

#[test]
fn a_search_far_from_the_newest_one_is_not_recorded() {
    let mut list = SongList::new();
    list.add_song(&song("abc", "Monody", "fat rat monody"));
    let recorded = list.add_search(&song("abc", "", ""), "something else", false);
    assert!(!recorded);
    assert_eq!(history(&list, 0), vec!["fat rat monody"]);
}

#[test]
fn a_search_exactly_at_the_gate_is_recorded() {
    let mut list = SongList::new();
    list.add_song(&song("abc", "Ten", "abcdefghij"));
    assert!(list.add_search(&song("abc", "", ""), "abcdefgxyz", false));
    assert_eq!(history(&list, 0), vec!["abcdefghij", "abcdefgxyz"]);
}

#[test]
fn a_search_just_below_the_gate_is_not_recorded() {
    let mut list = SongList::new();
    list.add_song(&song("abc", "Ten", "abcdefghij"));
    assert!(!list.add_search(&song("abc", "", ""), "abcdefwxyz", false));
    assert_eq!(history(&list, 0), vec!["abcdefghij"]);
}

#[test]
fn the_gate_looks_at_the_newest_search_only() {
    let mut list = SongList::new();
    list.add_song(&song("abc", "Monody", "aaaaaaaaaa"));
    assert!(list.add_search(&song("abc", "", ""), "aaaaaaabbb", false));
    assert!(list.add_search(&song("abc", "", ""), "aaaabbbbbb", false));
    assert!(!list.add_search(&song("abc", "", ""), "aaaaaaaaaa", false));
    assert_eq!(history(&list, 0), vec!["aaaaaaaaaa", "aaaaaaabbb", "aaaabbbbbb"]);
}

#[test]
fn folding_case_opens_the_gate_for_another_spelling() {
    let mut list = SongList::new();
    list.add_song(&song("abc", "Monody", "MONODY"));
    assert!(!list.add_search(&song("abc", "", ""), "monody", false));
    assert!(list.add_search(&song("abc", "", ""), "monody", true));
    assert_eq!(history(&list, 0), vec!["MONODY", "monody"]);
}

#[test]
fn an_empty_history_takes_no_search() {
    let bare = Song::with_history("abc".to_string(), "Monody".to_string(), 1, vec![]).unwrap();
    let mut list = SongList::from_songs(vec![bare]).unwrap();
    assert!(!list.add_search(&song("abc", "", ""), "monody", false));
    assert!(list.songs()[0].searches().is_empty());
}

#[test]
fn a_search_for_an_unknown_id_changes_nothing() {
    let mut list = three();
    let before = list.songs().clone();
    assert!(!list.add_search(&song("z", "", ""), "alpha", false));
    assert_eq!(list.songs(), &before);
}

#[test]
fn a_recorded_search_touches_one_song_only() {
    let mut list = three();
    assert!(list.add_search(&song("b", "", ""), "beta", false));
    assert_eq!(history(&list, 0), vec!["alpha"]);
    assert_eq!(history(&list, 1), vec!["beta", "beta"]);
    assert_eq!(history(&list, 2), vec!["gamma"]);
    assert_eq!(ids(&list), vec!["a", "b", "c"]);
}

#[test]
fn a_full_history_loses_its_oldest_search() {
    let mut list = SongList::new();
    list.add_song(&song("abc", "Monody", "monody 1"));
    for search in ["monody 2", "monody 3", "monody 4"] {
        assert!(list.add_search(&song("abc", "", ""), search, false));
    }
    assert_eq!(history(&list, 0), vec!["monody 2", "monody 3", "monody 4"]);
}

#[test]
fn stored_songs_with_distinct_ids_make_a_catalog() {
    let list = SongList::from_songs(vec![
        song("a", "Alpha", "alpha"),
        song("b", "Beta", "beta"),
    ])
    .unwrap();
    assert_eq!(ids(&list), vec!["a", "b"]);
    assert_eq!(SongList::from_songs(vec![]).unwrap().len(), 0);
}

#[test]
fn stored_songs_that_share_an_id_make_no_catalog() {
    let outcome = SongList::from_songs(vec![
        song("a", "Alpha", "alpha"),
        song("b", "Beta", "beta"),
        song("c", "Gamma", "gamma"),
        song("b", "Beta again", "beta"),
        song("a", "Alpha again", "alpha"),
    ]);
    let error = outcome.unwrap_err();
    assert_eq!(error, SongError::Catalog("b".to_string()));
    assert_eq!(error.kind(), ErrorKind::Catalog);
}

#[test]
fn a_catalog_taken_apart_and_put_together_is_the_same() {
    let list = three();
    let again = SongList::from_songs(list.songs().clone()).unwrap();
    assert_eq!(again, list);
}
