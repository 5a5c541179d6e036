use std::sync::Arc;

use rum_player::key::Context;
use rum_player::meta::{Album, Artist, Track};
use rum_player::state::{context_of_view, State};
use rum_player::view::{AlbumSearch, Playlist, TrackList, View};

fn artist(name: &str) -> Artist {
    Artist { url: format!("/artist/{}", name), name: name.to_string() }
}

fn album(title: &str) -> Album {
    Album { url: "/album/1".to_string(), title: title.to_string(), artists: vec![artist("x"), artist("y")], year: 1999, version: None }
}

fn track(id: u32) -> Track {
    Track { album_id: 1, track_id: id, name: format!("t{}", id), artists: Arc::new(vec![artist("z")]) }
}

fn albums_state(n: usize) -> State {
    let mut s = State::new();
    s.update_view(View::AlbumSearch(AlbumSearch::create("abc".to_string(), (0..n).map(|i| album(&i.to_string())).collect())));
    s.prev_view = None;
    s
}

#[test]
fn pointer_moves_within_the_list() {
    let mut s = albums_state(3);
    s.pointer_up();
    assert_eq!(s.view.cursor(), Some(0));
    s.pointer_down();
    s.pointer_down();
    assert_eq!(s.view.cursor(), Some(2));
    s.pointer_down();
    assert_eq!(s.view.cursor(), Some(2));
    s.pointer_up();
    assert_eq!(s.view.cursor(), Some(1));
    let mut empty = State::new();
    empty.pointer_down();
    assert_eq!(empty.view.cursor(), Some(0));
}

#[test]
fn typing_and_backspace() {
    let mut s = albums_state(0);
    s.push_char('d');
    match &s.view {
        View::AlbumSearch(a) => assert_eq!(a.insert_buffer, "abcd"),
        _ => panic!(),
    }
    s.backspace();
    s.backspace();
    match &s.view {
        View::AlbumSearch(a) => assert_eq!(a.insert_buffer, "ab"),
        _ => panic!(),
    }
}

#[test]
fn backspace_on_playlist_goes_back() {
    let mut s = albums_state(1);
    s.update_view(View::Playlist(Playlist::create(vec![track(1)], 0)));
    assert_eq!(context_of_view(&s.view), Context::playlist());
    s.push_char('x');
    s.backspace();
    assert_eq!(s.view.name(), "AlbumSearch");
    assert!(s.prev_view.is_none());
    s.restore_view();
    assert_eq!(s.view.name(), "AlbumSearch");
}

#[test]
fn switch_to_artist_from_album_and_track() {
    let mut s = albums_state(2);
    s.pointer_down();
    s.switch_to_artist();
    match &s.view {
        View::ArtistSearch(a) => {
            assert_eq!(a.insert_buffer, "abc");
            assert_eq!(a.cached_artists.len(), 2);
            assert_eq!(a.cursor, 0);
        }
        _ => panic!("not the artists"),
    }
    assert_eq!(context_of_view(&s.view), Context::search());
    let mut t = State::new();
    t.update_view(View::TrackList(TrackList::create(String::new(), vec![track(1)])));
    assert_eq!(context_of_view(&t.view), Context::tracklist());
    t.switch_to_artist();
    match &t.view {
        View::ArtistSearch(a) => assert_eq!(a.cached_artists[0].name, "z"),
        _ => panic!("not the artists"),
    }
    let mut none = albums_state(0);
    none.switch_to_artist();
    assert_eq!(none.view.name(), "AlbumSearch");
}

#[test]
fn switch_view_cycles_the_searches() {
    let mut s = albums_state(0);
    assert!(s.switch_view());
    assert_eq!(s.view.name(), "ArtistSearch");
    assert!(s.switch_view());
    assert_eq!(s.view.name(), "AlbumSearch");
    s.update_view(View::Playlist(Playlist::create(vec![], 0)));
    assert!(!s.switch_view());
    assert_eq!(s.view.name(), "Playlist");
}
