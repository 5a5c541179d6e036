use vstd::prelude::*;
use vstd::view::View as _;

use crate::key::Context;
use crate::view::{insert_buffer, AlbumSearch, ArtistSearch, CursorMut, View};

verus! {

/// Relies on `String::push`: the character is appended.
#[verifier::external_body]
fn push_to(s: &mut String, c: char)
    ensures
        final(s)@ == old(s)@.push(c),
{
    s.push(c)
}

/// Relies on `String::pop`: the last character is taken off, if any.
#[verifier::external_body]
fn pop_from(s: &mut String) -> (r: Option<char>)
    ensures
        old(s)@.len() == 0 ==> r is None && final(s)@ == old(s)@,
        old(s)@.len() > 0 ==> r == Some(old(s)@.last()) && final(s)@ == old(s)@.drop_last(),
{
    s.pop()
}

/// The context of the mode that a view belongs to.
pub open spec fn context_of(v: View) -> Context {
    match v {
        View::ArtistSearch(_) | View::AlbumSearch(_) => Context::of_flags(true, false, false),
        View::TrackList(_) => Context::of_flags(false, true, false),
        View::Playlist(_) => Context::of_flags(false, false, true),
    }
}

pub fn context_of_view(v: &View) -> (r: Context)
    ensures
        r == context_of(*v),
{
    match v {
        View::ArtistSearch(_) | View::AlbumSearch(_) => Context::search(),
        View::TrackList(_) => Context::tracklist(),
        View::Playlist(_) => Context::playlist(),
    }
}

/// The smaller of two integers.
pub open spec fn min(a: int, b: int) -> int {
    if a <= b {
        a
    } else {
        b
    }
}

/// The largest cursor position of a view: its last item, or 0.
pub open spec fn max_cursor_of(v: View) -> int {
    if v.spec_len() > 0 {
        v.spec_len() - 1
    } else {
        0
    }
}

/// The views of the application: the one on screen and the one before it.
#[derive(Debug)]
pub struct State {
    pub prev_view: Option<View>,
    pub view: View,
}

impl State {
    pub fn new() -> (r: State)
        ensures
            r.prev_view is None,
            r.view is AlbumSearch,
            r.view.spec_len() == 0,
            r.view.spec_cursor() == Some(0usize),
    {
        State { prev_view: None, view: View::default() }
    }

    /// Moves the cursor one item down, unless it is on the last item.
    pub fn pointer_down(&mut self)
        ensures
            final(self).prev_view == old(self).prev_view,
            match old(self).view.spec_cursor() {
                Some(c) => final(self).view == old(self).view.with_cursor(
                    min(
                        if c + 1 < old(self).view.spec_len() {
                            c + 1
                        } else {
                            c as int
                        },
                        max_cursor_of(old(self).view),
                    ) as usize,
                ),
                None => final(self).view == old(self).view,
            },
    {
        let len = self.view.len();
        match self.view.cursor_mut() {
            Some(c) => {
                let mut c: CursorMut = c;
                if c.cursor < len && len - c.cursor > 1 {
                    c.cursor = c.cursor + 1;
                }
                self.view.set_cursor(c);
            },
            None => {},
        }
    }

    /// Moves the cursor one item up, unless it is on the first item.
    pub fn pointer_up(&mut self)
        ensures
            final(self).prev_view == old(self).prev_view,
            match old(self).view.spec_cursor() {
                Some(c) => final(self).view == old(self).view.with_cursor(
                    min(if c > 0 { c - 1 } else { 0 }, max_cursor_of(old(self).view)) as usize,
                ),
                None => final(self).view == old(self).view,
            },
    {
        match self.view.cursor_mut() {
            Some(c) => {
                let mut c: CursorMut = c;
                if c.cursor > 0 {
                    c.cursor = c.cursor - 1;
                }
                self.view.set_cursor(c);
            },
            None => {},
        }
    }

    /// Types a character into the view's text, if it has one.
    pub fn push_char(&mut self, c: char)
        ensures
            final(self).prev_view == old(self).prev_view,
            match old(self).view.spec_insert_buffer() {
                Some(b) => final(self).view.spec_insert_buffer() matches Some(nb) && nb@ == b@.push(c)
                    && final(self).view == old(self).view.with_insert_buffer(nb),
                None => final(self).view == old(self).view,
            },
    {
        match self.view.insert_buffer_mut() {
            Some(b) => push_to(b, c),
            None => {},
        }
    }

    /// Erases the last character typed; a view without text goes back to
    /// the view before it.
    pub fn backspace(&mut self)
        ensures
            match old(self).view.spec_insert_buffer() {
                Some(b) => final(self).view.spec_insert_buffer() matches Some(nb) && (if b@.len()
                    > 0 {
                    nb@ == b@.drop_last()
                } else {
                    nb@ == b@
                }) && final(self).view == old(self).view.with_insert_buffer(nb)
                    && final(self).prev_view == old(self).prev_view,
                None => match old(self).prev_view {
                    Some(p) => final(self).view == p && final(self).prev_view is None,
                    None => final(self).view == old(self).view && final(self).prev_view is None,
                },
            },
    {
        match self.view.insert_buffer_mut() {
            Some(b) => {
                pop_from(b);
                return ;
            },
            None => {},
        }
        self.restore_view();
    }

    /// Goes back to the previous view, if there is one.
    pub fn restore_view(&mut self)
        ensures
            final(self).prev_view is None,
            match old(self).prev_view {
                Some(p) => final(self).view == p,
                None => final(self).view == old(self).view,
            },
    {
        let prev = self.prev_view.take();
        match prev {
            Some(v) => self.view = v,
            None => {},
        }
    }

    /// Shows `new_view`, remembering the current one as the previous.
    pub fn update_view(&mut self, new_view: View)
        ensures
            final(self).view == new_view,
            final(self).prev_view == Some(old(self).view),
    {
        let mut v = new_view;
        std::mem::swap(&mut self.view, &mut v);
        self.prev_view = Some(v);
    }

    /// From an album, the search of its artists (taking the typed text);
    /// from a track, the search of its artists. Without an item under the
    /// cursor the cursor goes back to 0.
    pub fn switch_to_artist(&mut self)
        ensures
            match old(self).view {
                View::AlbumSearch(s) => if s.cursor < s.cached_albums@.len() {
                    &&& final(self).view is ArtistSearch
                    &&& final(self).view.spec_cursor() == Some(0usize)
                    &&& final(self).view->ArtistSearch_0.insert_buffer@ == s.insert_buffer@
                    &&& final(self).prev_view == Some(
                        old(self).view.with_insert_buffer(
                            final(self).prev_view->Some_0->AlbumSearch_0.insert_buffer,
                        ),
                    )
                    &&& final(self).prev_view->Some_0->AlbumSearch_0.insert_buffer@.len() == 0
                } else {
                    final(self).view == old(self).view.with_cursor(0) && final(self).prev_view
                        == old(self).prev_view
                },
                View::TrackList(s) => if s.cursor < s.cached_tracks@.len() {
                    &&& final(self).prev_view == Some(old(self).view)
                    &&& final(self).view is ArtistSearch
                    &&& final(self).view.spec_cursor() == Some(0usize)
                    &&& final(self).view->ArtistSearch_0.insert_buffer@.len() == 0
                } else {
                    final(self).view == old(self).view.with_cursor(0) && final(self).prev_view
                        == old(self).prev_view
                },
                _ => *final(self) == *old(self),
            },
    {
        let next: Option<ArtistSearch> = match &mut self.view {
            View::AlbumSearch(search) => {
                if search.cursor < search.cached_albums.len() {
                    let artists = search.cached_albums[search.cursor].artists.clone();
                    let mut buffer = String::new();
                    std::mem::swap(&mut search.insert_buffer, &mut buffer);
                    Some(ArtistSearch::create(buffer, artists))
                } else {
                    search.cursor = 0;
                    None
                }
            },
            View::TrackList(list) => {
                if list.cursor < list.cached_tracks.len() {
                    let artists = (*list.cached_tracks[list.cursor].artists).clone();
                    Some(ArtistSearch::create(insert_buffer(), artists))
                } else {
                    list.cursor = 0;
                    None
                }
            },
            _ => None,
        };
        match next {
            Some(a) => self.update_view(View::ArtistSearch(a)),
            None => {},
        }
    }

    /// Between the two searches: albums to artists and back, each taking
    /// the typed text; other views stay. Returns whether the view changed.
    pub fn switch_view(&mut self) -> (r: bool)
        ensures
            match old(self).view {
                View::AlbumSearch(s) => {
                    &&& r
                    &&& final(self).prev_view == Some(old(self).view)
                    &&& final(self).view is ArtistSearch
                    &&& final(self).view->ArtistSearch_0.insert_buffer == s.insert_buffer
                    &&& final(self).view->ArtistSearch_0.cached_artists@.len() == 0
                    &&& final(self).view.spec_cursor() == Some(0usize)
                },
                View::ArtistSearch(s) => {
                    &&& r
                    &&& final(self).prev_view == Some(old(self).view)
                    &&& final(self).view is AlbumSearch
                    &&& final(self).view->AlbumSearch_0.insert_buffer == s.insert_buffer
                    &&& final(self).view->AlbumSearch_0.cached_albums@.len() == 0
                    &&& final(self).view.spec_cursor() == Some(0usize)
                },
                _ => !r && *final(self) == *old(self),
            },
    {
        let next = match &self.view {
            View::AlbumSearch(search) => View::ArtistSearch(
                ArtistSearch::create(search.insert_buffer.clone(), Vec::new()),
            ),
            View::ArtistSearch(search) => View::AlbumSearch(
                AlbumSearch::create(search.insert_buffer.clone(), Vec::new()),
            ),
            _ => {
                return false;
            },
        };
        self.update_view(next);
        true
    }
}

} // verus!
