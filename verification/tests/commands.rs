use tura::catalog::SongList;
use tura::commands::{
    check_cli, choice, read_choice, remove_song, show_songs, Cli, Task, REMOVE_CHOICES,
};
use tura::resolver::{get_best_match, MatchCandidate};
use tura::song::Song;

fn cli(song: Option<&str>, download: bool, loop_song: bool, remove: bool, all_songs: bool) -> Cli {
    Cli { song: song.map(|s| s.to_string()), download, loop_song, remove, all_songs }
}

fn song(id: &str, title: &str, search: &str) -> Song {
    Song::new(id.to_string(), title.to_string(), 100, search.to_string())
}

fn four() -> SongList {
    SongList::from_songs(vec![
        song("a", "Alpha", "zzzz"),
        song("b", "Beta", "monody"),
        song("c", "Gamma", "monodi"),
        song("d", "Delta", "monoxx"),
    ])
    .unwrap()
}

fn ids(list: &SongList) -> Vec<&str> {
    list.songs().iter().map(|s| s.id().as_str()).collect()
}

#[test]
fn a_song_name_alone_is_played() {
    assert_eq!(
        check_cli(cli(Some("monody"), false, false, false, false)),
        vec![Task::Play("monody".to_string(), false), Task::Quit]
    );
    assert_eq!(
        check_cli(cli(Some("monody"), true, false, false, false)),
        vec![Task::Play("monody".to_string(), true), Task::Quit]
    );
}

#[test]
fn nothing_asked_is_nothing_done_but_quit() {
    assert_eq!(check_cli(cli(None, false, false, false, false)), vec![Task::Quit]);
    assert_eq!(check_cli(cli(None, true, false, false, false)), vec![Task::Quit]);
}

#[test]
fn the_listing_comes_first() {
    assert_eq!(
        check_cli(cli(None, false, false, false, true)),
        vec![Task::ShowSongs, Task::Quit]
    );
    assert_eq!(
        check_cli(cli(Some("monody"), false, false, false, true)),
        vec![Task::ShowSongs, Task::Play("monody".to_string(), false), Task::Quit]
    );
}

#[test]
fn removing_goes_before_looping_and_playing() {
    assert_eq!(
        check_cli(cli(Some("monody"), true, true, true, false)),
        vec![Task::Remove("monody".to_string()), Task::Quit]
    );
    assert_eq!(
        check_cli(cli(Some("monody"), false, false, true, true)),
        vec![Task::ShowSongs, Task::Remove("monody".to_string()), Task::Quit]
    );
}

#[test]
fn looping_goes_before_playing() {
    assert_eq!(
        check_cli(cli(Some("monody"), true, true, false, false)),
        vec![Task::Loop("monody".to_string(), true), Task::Quit]
    );
    assert_eq!(
        check_cli(cli(Some("monody"), false, true, false, false)),
        vec![Task::Loop("monody".to_string(), false), Task::Quit]
    );
}

#[test]
fn removing_and_looping_need_a_song() {
    assert_eq!(check_cli(cli(None, false, false, true, false)), vec![Task::NoSong, Task::Quit]);
    assert_eq!(check_cli(cli(None, false, true, false, false)), vec![Task::NoSong, Task::Quit]);
}

#[test]
fn every_command_line_ends_with_quit() {
    for bits in 0..32u8 {
        for song in [None, Some("monody")] {
            let tasks = check_cli(cli(
                song,
                bits & 1 != 0,
                bits & 2 != 0,
                bits & 4 != 0,
                bits & 8 != 0,
            ));
            assert_eq!(tasks.last(), Some(&Task::Quit));
            assert_eq!(tasks.iter().filter(|t| **t == Task::Quit).count(), 1);
        }
    }
}

#[test]
fn the_listing_counts_the_songs_and_names_each() {
    assert_eq!(
        show_songs(&four()),
        vec!["\n4 Songs", " - Alpha", " - Beta", " - Gamma", " - Delta"]
    );
    assert_eq!(show_songs(&SongList::new()), vec!["\n0 Songs"]);
}

#[test]
fn the_listing_counts_in_decimal() {
    let mut list = SongList::new();
    for n in 0..12 {
        list.add_song(&song(&format!("id{n}"), &format!("Title {n}"), "x"));
    }
    let shown = show_songs(&list);
    assert_eq!(shown.len(), 13);
    assert_eq!(shown[0], "\n12 Songs");
    assert_eq!(shown[12], " - Title 11");
}

#[test]
fn three_songs_are_offered_for_removal() {
    assert_eq!(REMOVE_CHOICES, 3);
}

#[test]
fn an_answer_counts_from_one() {
    assert_eq!(choice("1", 3), Some(0));
    assert_eq!(choice("2", 3), Some(1));
    assert_eq!(choice("3", 3), Some(2));
    assert_eq!(choice("+2", 3), Some(1));
    assert_eq!(choice("02", 3), Some(1));
}

#[test]
fn an_answer_outside_the_offers_picks_nothing() {
    assert_eq!(choice("0", 3), None);
    assert_eq!(choice("4", 3), None);
    assert_eq!(choice("3", 2), None);
    assert_eq!(choice("1", 0), None);
    assert_eq!(choice("99999999999999999999999999", 3), None);
}

#[test]
fn an_answer_that_is_no_number_picks_nothing() {
    assert_eq!(choice("", 3), None);
    assert_eq!(choice("two", 3), None);
    assert_eq!(choice("-1", 3), None);
    assert_eq!(choice(" 2", 3), None);
    assert_eq!(choice("2\n", 3), None);
}

#[test]
fn a_typed_line_is_read_without_the_white_space_around_it() {
    assert_eq!(read_choice("2\n", 3), Some(1));
    assert_eq!(read_choice("  3 \r\n", 3), Some(2));
    assert_eq!(read_choice("\t1", 3), Some(0));
    assert_eq!(read_choice("\n", 3), None);
    assert_eq!(read_choice("2 2\n", 3), None);
    assert_eq!(read_choice("4\n", 3), None);
}

#[test]
fn the_second_of_three_offers_is_removed_and_the_others_stay() {
    let mut list = four();
    let picks = get_best_match(&list, "monody", REMOVE_CHOICES);
    assert_eq!(picks.iter().map(|p| p.index).collect::<Vec<_>>(), vec![1, 2, 3]);
    let removed = remove_song(&mut list, &picks, "2\n");
    assert_eq!(removed, Some(song("c", "Gamma", "monodi")));
    assert_eq!(ids(&list), vec!["a", "b", "d"]);
    assert_eq!(list.songs()[0], song("a", "Alpha", "zzzz"));
    assert_eq!(list.songs()[1], song("b", "Beta", "monody"));
    assert_eq!(list.songs()[2], song("d", "Delta", "monoxx"));
}

#[test]
fn the_first_and_the_last_offer_can_be_removed() {
    let mut list = four();
    let picks = get_best_match(&list, "monody", REMOVE_CHOICES);
    assert_eq!(remove_song(&mut list, &picks, "1").map(|s| s.id().clone()), Some("b".to_string()));
    assert_eq!(ids(&list), vec!["a", "c", "d"]);
    let mut list = four();
    assert_eq!(remove_song(&mut list, &picks, "3").map(|s| s.id().clone()), Some("d".to_string()));
    assert_eq!(ids(&list), vec!["a", "b", "c"]);
}

#[test]
fn an_answer_that_picks_nothing_removes_nothing() {
    for line in ["0\n", "4\n", "\n", "second\n", "-2\n"] {
        let mut list = four();
        let picks = get_best_match(&list, "monody", REMOVE_CHOICES);
        assert_eq!(remove_song(&mut list, &picks, line), None, "{line:?}");
        assert_eq!(list, four());
    }
}

#[test]
fn with_fewer_offers_fewer_answers_pick() {
    let mut list = SongList::from_songs(vec![song("a", "Alpha", "alpha")]).unwrap();
    let picks = get_best_match(&list, "alpha", REMOVE_CHOICES);
    assert_eq!(picks.len(), 1);
    assert_eq!(remove_song(&mut list, &picks, "2\n"), None);
    assert_eq!(list.len(), 1);
    assert_eq!(remove_song(&mut list, &picks, "1\n"), Some(song("a", "Alpha", "alpha")));
    assert_eq!(list.len(), 0);
}

#[test]
fn a_pick_that_names_no_song_removes_nothing() {
    let mut list = four();
    let stale = vec![MatchCandidate { index: 9, score: 1 }];
    assert_eq!(remove_song(&mut list, &stale, "1\n"), None);
    assert_eq!(list, four());
}
