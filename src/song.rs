use vstd::prelude::*;

verus! {

/// What a song is, as the contracts speak of it.
pub struct SongView {
    pub url: Seq<char>,
    pub title: Seq<char>,
    pub thumbnail_b64: Seq<char>,
}

/// One entry of a device queue: where to play it from, its title and a
/// base64 thumbnail.
pub struct SongInternal {
    pub url: String,
    pub title: String,
    pub thumbnail_b64: String,
}

impl View for SongInternal {
    type V = SongView;

    open spec fn view(&self) -> SongView {
        SongView { url: self.url@, title: self.title@, thumbnail_b64: self.thumbnail_b64@ }
    }
}

/// The views of a sequence of songs, in order.
pub open spec fn songs_view(s: Seq<SongInternal>) -> Seq<SongView> {
    s.map_values(|x: SongInternal| x@)
}

impl SongInternal {
    pub fn new(url: &str, title: &str, thumbnail_b64: &str) -> (r: SongInternal)
        ensures
            r@ == (SongView { url: url@, title: title@, thumbnail_b64: thumbnail_b64@ }),
    {
        SongInternal { url: url.to_owned(), title: title.to_owned(), thumbnail_b64: thumbnail_b64.to_owned() }
    }

    pub fn duplicate(&self) -> (r: SongInternal)
        ensures
            r@ == self@,
    {
        SongInternal { url: self.url.clone(), title: self.title.clone(), thumbnail_b64: self.thumbnail_b64.clone() }
    }
}

/// A copy of a list of songs.
pub fn duplicate_songs(songs: &Vec<SongInternal>) -> (r: Vec<SongInternal>)
    ensures
        songs_view(r@) == songs_view(songs@),
{
    let mut r: Vec<SongInternal> = Vec::new();
    let mut i: usize = 0;
    while i < songs.len()
        invariant
            i <= songs.len(),
            r@.len() == i,
            forall|j: int| 0 <= j < i ==> #[trigger] r@[j]@ == songs@[j]@,
        decreases songs.len() - i,
    {
        r.push(songs[i].duplicate());
        i = i + 1;
    }
    assert(songs_view(r@) =~= songs_view(songs@));
    r
}

/// A search result offered to clients: a video's page, its thumbnail as a
/// data URL and its title.
pub struct Song {
    pub url: String,
    pub thumbnail_b64: String,
    pub title: String,
}

impl Song {
    pub fn new(url: &str, thumbnail_b64: &str, title: &str) -> (r: Song)
        ensures
            r.url@ == url@,
            r.thumbnail_b64@ == thumbnail_b64@,
            r.title@ == title@,
    {
        Song { url: url.to_owned(), thumbnail_b64: thumbnail_b64.to_owned(), title: title.to_owned() }
    }

    /// The queue entry for this result.
    pub fn to_queue_entry(&self) -> (r: SongInternal)
        ensures
            r@ == (SongView { url: self.url@, title: self.title@, thumbnail_b64: self.thumbnail_b64@ }),
    {
        SongInternal { url: self.url.clone(), title: self.title.clone(), thumbnail_b64: self.thumbnail_b64.clone() }
    }
}

} // verus!
