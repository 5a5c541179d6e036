use std::sync::Arc;

use rum_player::logger::Logger;
use rum_player::meta::{Album, Artist, Track};
use rum_player::player::{Command, PlayerState};
use rum_player::providers::SearchType;
use rum_player::view::{insert_buffer, AlbumSearch, ArtistSearch, MainView, Playlist, TrackList, View};

fn artist(name: &str) -> Artist {
    Artist { url: format!("/artist/{}", name), name: name.to_string() }
}

fn track(id: u32) -> Track {
    Track { album_id: 1, track_id: id, name: format!("t{}", id), artists: Arc::new(vec![artist("a")]) }
}

#[test]
fn test_search_type_string() {
    assert_eq!(SearchType::Albums.to_string(), "albums");
    assert_eq!(SearchType::Tracks.to_string(), "tracks");
    assert_eq!(SearchType::Artists.to_string(), "artists");
}

#[test]
fn search_url_is_built() {
    assert_eq!(
        SearchType::Tracks.search_url("abba"),
        "https://music.yandex.ru/search?text=abba&type=tracks"
    );
}

#[test]
fn album_id_is_read_from_url() {
    let album = Album { url: "/4766".to_string(), title: "x".to_string(), artists: vec![], year: 2000, version: None };
    assert_eq!(album.id(), 4766);
    let album = Album { url: "/+12/track/5".to_string(), title: "x".to_string(), artists: vec![], year: 2000, version: None };
    assert_eq!(album.id(), 12);
}

#[test]
fn views_report_names_cursors_and_lengths() {
    let v = View::ArtistSearch(ArtistSearch::create("abc".to_string(), vec![artist("a"), artist("b")]));
    assert_eq!(v.name(), "ArtistSearch");
    assert_eq!(v.cursor(), Some(0));
    assert_eq!(v.len(), 2);
    let p = View::Playlist(Playlist::create(vec![track(1)], 0));
    assert_eq!(p.name(), "Playlist");
    assert_eq!(p.cursor(), None);
    assert_eq!(p.len(), 0);
    let t = View::TrackList(TrackList::create(insert_buffer(), vec![track(1), track(2), track(3)]));
    assert_eq!(t.name(), "TrackList");
    assert_eq!(t.len(), 3);
    let d = View::default();
    assert_eq!(d.name(), "AlbumSearch");
    assert_eq!(d.len(), 0);
}

#[test]
fn cursor_is_held_to_the_last_item() {
    let mut t = View::TrackList(TrackList::create(String::new(), vec![track(1), track(2), track(3)]));
    let mut c = t.cursor_mut().unwrap();
    assert_eq!(c.max_cursor, 2);
    c.cursor = 10;
    t.set_cursor(c);
    assert_eq!(t.cursor(), Some(2));
    t.reset_cursor();
    assert_eq!(t.cursor(), Some(0));
    let mut empty = View::AlbumSearch(AlbumSearch::create(String::new(), vec![]));
    let mut c = empty.cursor_mut().unwrap();
    assert_eq!(c.max_cursor, 0);
    c.cursor = 3;
    empty.set_cursor(c);
    assert_eq!(empty.cursor(), Some(0));
    assert!(View::Playlist(Playlist::create(vec![], 0)).cursor_mut().is_none());
}

#[test]
fn insert_buffers_can_be_edited() {
    let mut v = View::AlbumSearch(AlbumSearch::create("ab".to_string(), vec![]));
    v.insert_buffer_mut().unwrap().push('c');
    match &v {
        View::AlbumSearch(s) => assert_eq!(s.insert_buffer, "abc"),
        _ => panic!("view changed"),
    }
    let mut p = View::Playlist(Playlist::create(vec![], 0));
    assert!(p.insert_buffer_mut().is_none());
}

#[test]
fn main_view_replaces_and_lends() {
    let mut m = MainView::default();
    assert_eq!(m.insert_buffer(), "");
    m.insert_buffer_mut().push_str("query");
    assert_eq!(m.insert_buffer(), "query");
    let old = m.replace_view(View::Playlist(Playlist::create(vec![track(7)], 0)));
    assert_eq!(old.name(), "AlbumSearch");
    assert_eq!(m.view().name(), "Playlist");
    let (view, buffer) = m.view_and_buffer_mut();
    buffer.clear();
    *view = View::ArtistSearch(ArtistSearch::create(String::new(), vec![]));
    assert_eq!(m.view().name(), "ArtistSearch");
    assert_eq!(m.insert_buffer(), "");
}

#[test]
fn player_state_follows_commands() {
    let mut s = PlayerState::new();
    assert_eq!(s.current(), 0);
    s.command_done(Command::Enqueue { track: track(1), url: "u1".to_string() });
    s.command_done(Command::Enqueue { track: track(2), url: "u2".to_string() });
    assert_eq!(s.playlist().len(), 2);
    assert_eq!(s.playlist()[1].track_id, 2);
    s.command_done(Command::NextTrack);
    assert_eq!(s.current(), 1);
    s.command_done(Command::PrevTrack);
    s.command_done(Command::PrevTrack);
    assert_eq!(s.current(), 0);
    s.command_done(Command::Pause);
    assert_eq!(s.playlist().len(), 2);
    s.set_current(1);
    assert_eq!(s.current(), 1);
    s.command_done(Command::Stop);
    assert_eq!(s.playlist().len(), 0);
    assert_eq!(s.current(), 0);
}

#[test]
fn logger_keeps_a_line_for_a_few_ticks() {
    let mut l = Logger::new();
    assert_eq!(l.log_lines(), None);
    l.log("hello".to_string());
    for _ in 0..4 {
        assert_eq!(l.log_lines(), Some("hello".to_string()));
    }
    assert_eq!(l.log_lines(), None);
    l.log("again".to_string());
    assert_eq!(l.log_lines(), Some("again".to_string()));
}
