use vstd::prelude::*;

use crate::meta::Track;

verus! {

/// A command for the player.
#[derive(Debug)]
pub enum Command {
    Enqueue { track: Track, url: String },
    Stop,
    NextTrack,
    PrevTrack,
    Pause,
    Forward5,
    Backward5,
}

/// What the player has queued, and where it is.
#[derive(Debug)]
pub struct PlayerState {
    playlist: Vec<Track>,
    current_position: usize,
}

impl PlayerState {
    pub closed spec fn spec_playlist(&self) -> Seq<Track> {
        self.playlist@
    }

    pub closed spec fn spec_current(&self) -> usize {
        self.current_position
    }

    pub fn new() -> (r: Self)
        ensures
            r.spec_playlist().len() == 0,
            r.spec_current() == 0,
    {
        PlayerState { playlist: Vec::new(), current_position: 0 }
    }

    pub fn playlist(&self) -> (r: &[Track])
        ensures
            r@ == self.spec_playlist(),
    {
        self.playlist.as_slice()
    }

    pub fn current(&self) -> (r: usize)
        ensures
            r == self.spec_current(),
    {
        self.current_position
    }

    /// Records a command that the media engine has carried out: an enqueued
    /// track joins the playlist, a stop empties it, next and previous move
    /// the position by one (never below 0 nor past the largest `usize`).
    pub fn command_done(&mut self, command: Command)
        ensures
            match command {
                Command::Enqueue { track, .. } => final(self).spec_playlist() == old(
                    self,
                ).spec_playlist().push(track) && final(self).spec_current() == old(self).spec_current(),
                Command::Stop => final(self).spec_playlist().len() == 0 && final(self).spec_current()
                    == 0,
                Command::NextTrack => final(self).spec_playlist() == old(self).spec_playlist()
                    && final(self).spec_current() == (if old(self).spec_current() < usize::MAX {
                    old(self).spec_current() + 1
                } else {
                    old(self).spec_current() as int
                }),
                Command::PrevTrack => final(self).spec_playlist() == old(self).spec_playlist()
                    && final(self).spec_current() == (if old(self).spec_current() > 0 {
                    old(self).spec_current() - 1
                } else {
                    0
                }),
                _ => *final(self) == *old(self),
            },
    {
        match command {
            Command::Enqueue { track, .. } => self.playlist.push(track),
            Command::Stop => {
                self.playlist.clear();
                self.current_position = 0;
            },
            Command::NextTrack => {
                if self.current_position < usize::MAX {
                    self.current_position += 1;
                }
            },
            Command::PrevTrack => {
                if self.current_position > 0 {
                    self.current_position -= 1;
                }
            },
            _ => {},
        }
    }

    /// Takes the position that the media engine reports.
    pub fn set_current(&mut self, position: usize)
        ensures
            final(self).spec_playlist() == old(self).spec_playlist(),
            final(self).spec_current() == position,
    {
        self.current_position = position;
    }
}

} // verus!
