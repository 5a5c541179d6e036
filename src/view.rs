use vstd::prelude::*;
use vstd::view::View as _;

use crate::meta::{Album, Artist, Track};

verus! {

/// An empty text buffer for a view.
pub fn insert_buffer() -> (r: String)
    ensures
        r@ == Seq::<char>::empty(),
{
    String::new()
}

/// The view on screen, with the text typed so far.
#[derive(Debug)]
pub struct MainView {
    pub insert_buffer: String,
    pub view: View,
}

impl Default for MainView {
    fn default() -> (r: MainView)
        ensures
            r.insert_buffer@ == Seq::<char>::empty(),
            r.view is AlbumSearch,
            r.view->AlbumSearch_0.cursor == 0,
            r.view->AlbumSearch_0.cached_albums@.len() == 0,
            r.view->AlbumSearch_0.insert_buffer@ == Seq::<char>::empty(),
    {
        MainView { insert_buffer: insert_buffer(), view: View::default() }
    }
}

impl MainView {
    /// Puts `view` on screen and returns the one it replaces.
    pub fn replace_view(&mut self, view: View) -> (r: View)
        ensures
            r == old(self).view,
            final(self).view == view,
            final(self).insert_buffer == old(self).insert_buffer,
    {
        let mut view = view;
        std::mem::swap(&mut self.view, &mut view);
        view
    }

    pub fn insert_buffer(&self) -> (r: &str)
        ensures
            r@ == self.insert_buffer@,
    {
        self.insert_buffer.as_str()
    }

    pub fn insert_buffer_mut(&mut self) -> (r: &mut String)
        ensures
            *r == old(self).insert_buffer,
            final(self).insert_buffer == *final(r),
            final(self).view == old(self).view,
    {
        &mut self.insert_buffer
    }

    pub fn view_and_buffer_mut(&mut self) -> (r: (&mut View, &mut String))
        ensures
            *r.0 == old(self).view,
            *r.1 == old(self).insert_buffer,
            final(self).view == *final(r.0),
            final(self).insert_buffer == *final(r.1),
    {
        (&mut self.view, &mut self.insert_buffer)
    }

    pub fn view(&self) -> (r: &View)
        ensures
            *r == self.view,
    {
        &self.view
    }
}

#[derive(Debug, Clone)]
pub struct ArtistSearch {
    pub insert_buffer: String,
    pub cached_artists: Vec<Artist>,
    pub cursor: usize,
}

impl ArtistSearch {
    pub fn create(insert_buffer: String, cached_artists: Vec<Artist>) -> (r: Self)
        ensures
            r.insert_buffer == insert_buffer,
            r.cached_artists == cached_artists,
            r.cursor == 0,
    {
        ArtistSearch { insert_buffer, cached_artists, cursor: 0 }
    }
}

#[derive(Debug, Clone)]
pub struct AlbumSearch {
    pub insert_buffer: String,
    pub cached_albums: Vec<Album>,
    pub cursor: usize,
}

impl AlbumSearch {
    pub fn create(insert_buffer: String, cached_albums: Vec<Album>) -> (r: Self)
        ensures
            r.insert_buffer == insert_buffer,
            r.cached_albums == cached_albums,
            r.cursor == 0,
    {
        AlbumSearch { insert_buffer, cached_albums, cursor: 0 }
    }
}

#[derive(Debug, Clone)]
pub struct TrackList {
    pub insert_buffer: String,
    pub cached_tracks: Vec<Track>,
    pub cursor: usize,
}

impl TrackList {
    pub fn create(insert_buffer: String, cached_tracks: Vec<Track>) -> (r: Self)
        ensures
            r.insert_buffer == insert_buffer,
            r.cached_tracks == cached_tracks,
            r.cursor == 0,
    {
        TrackList { insert_buffer, cached_tracks, cursor: 0 }
    }
}

#[derive(Debug, Clone)]
pub struct Playlist {
    pub tracks: Vec<Track>,
    pub current: usize,
}

impl Playlist {
    pub fn create(tracks: Vec<Track>, current: usize) -> (r: Self)
        ensures
            r.tracks == tracks,
            r.current == current,
    {
        Playlist { tracks, current }
    }
}

#[derive(Debug, Clone)]
pub enum View {
    ArtistSearch(ArtistSearch),
    AlbumSearch(AlbumSearch),
    TrackList(TrackList),
    Playlist(Playlist),
}

impl Default for View {
    fn default() -> (r: View)
        ensures
            r is AlbumSearch,
            r->AlbumSearch_0.cursor == 0,
            r->AlbumSearch_0.cached_albums@.len() == 0,
            r->AlbumSearch_0.insert_buffer@ == Seq::<char>::empty(),
    {
        View::AlbumSearch(AlbumSearch::create(insert_buffer(), Vec::new()))
    }
}

/// A cursor taken out of a view, with the largest position the view allows;
/// [`View::set_cursor`] puts it back.
#[derive(Debug, Clone, Copy, PartialEq, Eq, Structural)]
pub struct CursorMut {
    pub cursor: usize,
    pub max_cursor: usize,
}

impl View {
    pub open spec fn spec_len(&self) -> nat {
        match self {
            View::ArtistSearch(s) => s.cached_artists@.len(),
            View::AlbumSearch(s) => s.cached_albums@.len(),
            View::TrackList(s) => s.cached_tracks@.len(),
            View::Playlist(_) => 0,
        }
    }

    pub open spec fn spec_cursor(&self) -> Option<usize> {
        match self {
            View::ArtistSearch(s) => Some(s.cursor),
            View::AlbumSearch(s) => Some(s.cursor),
            View::TrackList(s) => Some(s.cursor),
            View::Playlist(_) => None,
        }
    }

    /// The view with its cursor set to `c` (the playlist has none).
    pub open spec fn with_cursor(self, c: usize) -> View {
        match self {
            View::ArtistSearch(s) => View::ArtistSearch(ArtistSearch { cursor: c, ..s }),
            View::AlbumSearch(s) => View::AlbumSearch(AlbumSearch { cursor: c, ..s }),
            View::TrackList(s) => View::TrackList(TrackList { cursor: c, ..s }),
            View::Playlist(p) => View::Playlist(p),
        }
    }

    pub open spec fn spec_insert_buffer(&self) -> Option<String> {
        match self {
            View::ArtistSearch(s) => Some(s.insert_buffer),
            View::AlbumSearch(s) => Some(s.insert_buffer),
            View::TrackList(s) => Some(s.insert_buffer),
            View::Playlist(_) => None,
        }
    }

    pub open spec fn with_insert_buffer(self, b: String) -> View {
        match self {
            View::ArtistSearch(s) => View::ArtistSearch(ArtistSearch { insert_buffer: b, ..s }),
            View::AlbumSearch(s) => View::AlbumSearch(AlbumSearch { insert_buffer: b, ..s }),
            View::TrackList(s) => View::TrackList(TrackList { insert_buffer: b, ..s }),
            View::Playlist(p) => View::Playlist(p),
        }
    }

    pub fn name(&self) -> (r: &'static str)
        ensures
            r@ == match self {
                View::ArtistSearch(_) => "ArtistSearch"@,
                View::AlbumSearch(_) => "AlbumSearch"@,
                View::TrackList(_) => "TrackList"@,
                View::Playlist(_) => "Playlist"@,
            },
    {
        match self {
            View::ArtistSearch(_) => "ArtistSearch",
            View::AlbumSearch(_) => "AlbumSearch",
            View::TrackList(_) => "TrackList",
            View::Playlist(_) => "Playlist",
        }
    }

    pub fn cursor(&self) -> (r: Option<usize>)
        ensures
            r == self.spec_cursor(),
    {
        match self {
            View::ArtistSearch(search) => Some(search.cursor),
            View::AlbumSearch(search) => Some(search.cursor),
            View::TrackList(search) => Some(search.cursor),
            View::Playlist(_) => None,
        }
    }

    /// The cursor with the largest position allowed: one before the number
    /// of items, or 0 when there is none.
    pub fn cursor_mut(&self) -> (r: Option<CursorMut>)
        ensures
            match self.spec_cursor() {
                Some(c) => r == Some(
                    CursorMut {
                        cursor: c,
                        max_cursor: if self.spec_len() > 0 {
                            (self.spec_len() - 1) as usize
                        } else {
                            0
                        },
                    },
                ),
                None => r is None,
            },
            self.spec_len() <= usize::MAX,
    {
        let len = self.len();
        let max_cursor = if len > 0 {
            len - 1
        } else {
            0
        };
        match self.cursor() {
            Some(cursor) => Some(CursorMut { cursor, max_cursor }),
            None => None,
        }
    }

    /// Puts a cursor back, held to its largest position.
    pub fn set_cursor(&mut self, c: CursorMut)
        ensures
            *final(self) == old(self).with_cursor(
                if c.cursor <= c.max_cursor {
                    c.cursor
                } else {
                    c.max_cursor
                },
            ),
    {
        let v = if c.cursor <= c.max_cursor {
            c.cursor
        } else {
            c.max_cursor
        };
        match self {
            View::ArtistSearch(search) => search.cursor = v,
            View::AlbumSearch(search) => search.cursor = v,
            View::TrackList(search) => search.cursor = v,
            View::Playlist(_) => {},
        }
    }

    pub fn reset_cursor(&mut self)
        ensures
            *final(self) == old(self).with_cursor(0),
    {
        match self {
            View::ArtistSearch(search) => search.cursor = 0,
            View::AlbumSearch(search) => search.cursor = 0,
            View::TrackList(search) => search.cursor = 0,
            View::Playlist(_) => {},
        }
    }

    pub fn len(&self) -> (r: usize)
        ensures
            r == self.spec_len(),
    {
        match self {
            View::ArtistSearch(search) => search.cached_artists.len(),
            View::AlbumSearch(search) => search.cached_albums.len(),
            View::TrackList(search) => search.cached_tracks.len(),
            View::Playlist(_) => 0,
        }
    }

    pub fn insert_buffer_mut(&mut self) -> (r: Option<&mut String>)
        ensures
            match old(self).spec_insert_buffer() {
                Some(b) => r matches Some(m) && *m == b && *final(self) == old(self).with_insert_buffer(
                    *final(m),
                ),
                None => r is None && *final(self) == *old(self),
            },
    {
        match self {
            View::ArtistSearch(search) => Some(&mut search.insert_buffer),
            View::AlbumSearch(search) => Some(&mut search.insert_buffer),
            View::TrackList(search) => Some(&mut search.insert_buffer),
            View::Playlist(_) => None,
        }
    }
}

} // verus!
