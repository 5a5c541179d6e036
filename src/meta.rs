use std::sync::Arc;

use vstd::prelude::*;
use vstd::utf8::encode_utf8;

use crate::text::{fields, fields_view, number_of, parse_number, split_fields};

verus! {

#[derive(Debug, Clone)]
pub struct Artist {
    pub url: String,
    pub name: String,
}

#[derive(Debug, Clone)]
pub struct Artists {
    pub artists: Vec<Artist>,
}

#[derive(Debug, Clone)]
pub struct Album {
    pub url: String,
    pub title: String,
    pub artists: Vec<Artist>,
    pub year: u16,
    pub version: Option<String>,
}

/// The identifier in an album address: its second piece between `/`
/// (the first one after a leading `/`), in decimal.
pub open spec fn album_id_of(url: Seq<char>) -> Option<nat> {
    let fs = fields(encode_utf8(url), 0x2F);
    if fs.len() >= 2 {
        number_of(fs[1], 0xFFFF_FFFF)
    } else {
        None
    }
}

impl Album {
    pub fn id(&self) -> (r: u32)
        requires
            album_id_of(self.url@) is Some,
        ensures
            album_id_of(self.url@) == Some(r as nat),
    {
        let bytes = self.url.as_str().as_bytes();
        let fs = split_fields(bytes, 0, bytes.len(), 0x2F);
        assert(bytes@.subrange(0, bytes@.len() as int) =~= bytes@);
        assert(fields_view(fs@)[1] == fs@[1]@);
        match parse_number(&fs[1], 0xFFFF_FFFF) {
            Some(v) => v,
            None => 0,
        }
    }
}

#[derive(Debug)]
pub struct Albums {
    pub albums: Vec<Album>,
}

#[derive(Debug, Clone)]
pub struct Track {
    pub album_id: u32,
    pub track_id: u32,
    pub name: String,
    pub artists: Arc<Vec<Artist>>,
}

#[derive(Debug)]
pub struct Tracks {
    pub tracks: Vec<Track>,
}

} // verus!
