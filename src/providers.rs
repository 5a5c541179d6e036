use vstd::prelude::*;

verus! {

/// Address of the catalog.
pub const BASE_URL: &'static str = "https://music.yandex.ru";

/// What a catalog search looks for.
#[derive(Debug, Clone, Copy, PartialEq, Eq, Structural)]
pub enum SearchType {
    Albums,
    Tracks,
    Artists,
}

impl SearchType {
    pub open spec fn spec_name(self) -> Seq<char> {
        match self {
            SearchType::Albums => "albums"@,
            SearchType::Tracks => "tracks"@,
            SearchType::Artists => "artists"@,
        }
    }

    /// The name of the search type, in snake case.
    pub fn to_string(&self) -> (r: String)
        ensures
            r@ == self.spec_name(),
    {
        match self {
            SearchType::Albums => "albums".to_owned(),
            SearchType::Tracks => "tracks".to_owned(),
            SearchType::Artists => "artists".to_owned(),
        }
    }

    /// The address of a search for `search_text` (inserted as it is).
    pub fn search_url(self, search_text: &str) -> (r: String)
        ensures
            r@ == BASE_URL@ + "/search?text="@ + search_text@ + "&type="@ + self.spec_name(),
    {
        let mut url = BASE_URL.to_owned();
        url.append("/search?text=");
        url.append(search_text);
        url.append("&type=");
        let name = self.to_string();
        url.append(name.as_str());
        url
    }
}

} // verus!
