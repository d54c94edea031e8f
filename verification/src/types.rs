use vstd::prelude::*;

verus! {

/// A performer credited on a track. An absent name is the empty string.
#[derive(Debug)]
pub struct Artist {
    pub name: String,
}

/// The album a track belongs to. An absent name is the empty string.
#[derive(Debug)]
pub struct Album {
    pub name: String,
}

/// A track as the provider describes it. Every field but `id` falls back to
/// an empty value when the provider leaves it out or sends null.
#[derive(Debug)]
pub struct Track {
    pub id: Option<String>,
    pub name: String,
    pub artists: Vec<Artist>,
    pub album: Album,
}

/// One line of a saved-tracks or playlist listing: when the track was added,
/// and the track itself if the provider still knows it.
#[derive(Debug)]
pub struct TrackEntry {
    pub added_at: Option<String>,
    pub track: Option<Track>,
}

/// A playlist of the signed-in user.
#[derive(Debug)]
pub struct Playlist {
    pub id: String,
    pub name: String,
}

/// A playlist as a listing describes it, each field `None` where the
/// provider left it out or sent null.
#[derive(Debug)]
pub struct PlaylistEntry {
    pub id: Option<String>,
    pub name: Option<String>,
}

/// The model of a [`PlaylistEntry`].
pub struct PlaylistEntryView {
    pub id: Option<Seq<char>>,
    pub name: Option<Seq<char>>,
}

impl DeepView for PlaylistEntry {
    type V = PlaylistEntryView;

    open spec fn deep_view(&self) -> PlaylistEntryView {
        PlaylistEntryView { id: self.id.deep_view(), name: self.name.deep_view() }
    }
}

/// The model of a [`Track`]: artists and album stand by their names.
pub struct TrackView {
    pub id: Option<Seq<char>>,
    pub name: Seq<char>,
    pub artists: Seq<Seq<char>>,
    pub album: Seq<char>,
}

/// The model of a [`TrackEntry`].
pub struct TrackEntryView {
    pub added_at: Option<Seq<char>>,
    pub track: Option<TrackView>,
}

/// The model of a [`Playlist`].
pub struct PlaylistView {
    pub id: Seq<char>,
    pub name: Seq<char>,
}

impl DeepView for Artist {
    type V = Seq<char>;

    open spec fn deep_view(&self) -> Seq<char> {
        self.name@
    }
}

impl DeepView for Album {
    type V = Seq<char>;

    open spec fn deep_view(&self) -> Seq<char> {
        self.name@
    }
}

impl DeepView for Track {
    type V = TrackView;

    open spec fn deep_view(&self) -> TrackView {
        TrackView {
            id: self.id.deep_view(),
            name: self.name@,
            artists: self.artists.deep_view(),
            album: self.album.deep_view(),
        }
    }
}

impl DeepView for TrackEntry {
    type V = TrackEntryView;

    open spec fn deep_view(&self) -> TrackEntryView {
        TrackEntryView { added_at: self.added_at.deep_view(), track: self.track.deep_view() }
    }
}

impl DeepView for Playlist {
    type V = PlaylistView;

    open spec fn deep_view(&self) -> PlaylistView {
        PlaylistView { id: self.id@, name: self.name@ }
    }
}

/// The text, or the empty text where the provider sent none.
pub open spec fn spec_text_or_empty(text: Option<Seq<char>>) -> Seq<char> {
    match text {
        Some(text) => text,
        None => Seq::empty(),
    }
}

/// The list, or the empty list where the provider sent none.
pub open spec fn spec_list_or_empty(list: Option<Seq<Seq<char>>>) -> Seq<Seq<char>> {
    match list {
        Some(list) => list,
        None => Seq::empty(),
    }
}

fn text_or_empty(text: Option<String>) -> (out: String)
    ensures
        out@ == spec_text_or_empty(text.deep_view()),
{
    match text {
        Some(text) => text,
        None => String::new(),
    }
}

impl Default for Artist {
    /// The artist without a name.
    fn default() -> (artist: Artist)
        ensures
            artist.deep_view() == Seq::<char>::empty(),
    {
        Artist { name: String::new() }
    }
}

impl Default for Album {
    /// The album without a name.
    fn default() -> (album: Album)
        ensures
            album.deep_view() == Seq::<char>::empty(),
    {
        Album { name: String::new() }
    }
}

impl Artist {
    /// The artist as the provider describes it: a name that is missing or
    /// null is the empty string.
    pub fn new(name: Option<String>) -> (artist: Artist)
        ensures
            artist.deep_view() == spec_text_or_empty(name.deep_view()),
    {
        Artist { name: text_or_empty(name) }
    }
}

impl Album {
    /// The album as the provider describes it: a name that is missing or
    /// null is the empty string.
    pub fn new(name: Option<String>) -> (album: Album)
        ensures
            album.deep_view() == spec_text_or_empty(name.deep_view()),
    {
        Album { name: text_or_empty(name) }
    }
}

impl Track {
    /// The track as the provider describes it. The identifier stays
    /// optional. A name that is missing or null is the empty string, a
    /// missing or null artist list is the empty list, and a missing or null
    /// album is the album without a name.
    pub fn new(
        id: Option<String>,
        name: Option<String>,
        artists: Option<Vec<Artist>>,
        album: Option<Album>,
    ) -> (track: Track)
        ensures
            track.deep_view() == (TrackView {
                id: id.deep_view(),
                name: spec_text_or_empty(name.deep_view()),
                artists: spec_list_or_empty(artists.deep_view()),
                album: spec_text_or_empty(album.deep_view()),
            }),
    {
        let ghost given = artists.deep_view();
        let artists = match artists {
            Some(artists) => artists,
            None => Vec::new(),
        };
        assert(artists.deep_view() =~= spec_list_or_empty(given));
        let album = match album {
            Some(album) => album,
            None => Album::default(),
        };
        Track { id, name: text_or_empty(name), artists, album }
    }
}

} // verus!
