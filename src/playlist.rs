use vstd::prelude::*;
use crate::song::{SongInternal, SongView, songs_view, duplicate_songs};
use crate::message::{
    Message, MessageContent, PlaylistCommand, PlaylistCommandContent, PlaylistQuery,
    PlaylistQueryContent, SongFields, SpeakerEvent, SpeakerEventContent,
};

verus! {

/// A usage error that the playlist service reports on the error topic.
#[derive(Clone, Copy, Debug, PartialEq, Eq, Structural)]
pub enum PlaylistError {
    MissingDeviceId,
    MissingContent,
    MissingSong,
    MissingTitle,
    MissingUrl,
    MissingThumbnail,
    IndexOutOfRange,
    InvalidCommandType,
    InvalidQueryType,
}

impl PlaylistError {
    /// The component named as the origin of the report.
    pub fn from_component(&self) -> (r: &'static str)
        ensures
            r@ == "playlist"@,
    {
        "playlist"
    }

    pub open spec fn spec_message(&self) -> Seq<char> {
        match self {
            PlaylistError::MissingDeviceId => "Device id is none"@,
            PlaylistError::MissingContent => "Content is none"@,
            PlaylistError::MissingSong => "Song is none"@,
            PlaylistError::MissingTitle => "Title is none"@,
            PlaylistError::MissingUrl => "Url is none"@,
            PlaylistError::MissingThumbnail => "Thumbnail is none"@,
            PlaylistError::IndexOutOfRange => "Index out of range"@,
            PlaylistError::InvalidCommandType => "Invalid command type"@,
            PlaylistError::InvalidQueryType => "Invalid query type"@,
        }
    }

    /// The text of the report.
    pub fn message(&self) -> (r: &'static str)
        ensures
            r@ == self.spec_message(),
    {
        match self {
            PlaylistError::MissingDeviceId => "Device id is none",
            PlaylistError::MissingContent => "Content is none",
            PlaylistError::MissingSong => "Song is none",
            PlaylistError::MissingTitle => "Title is none",
            PlaylistError::MissingUrl => "Url is none",
            PlaylistError::MissingThumbnail => "Thumbnail is none",
            PlaylistError::IndexOutOfRange => "Index out of range",
            PlaylistError::InvalidCommandType => "Invalid command type",
            PlaylistError::InvalidQueryType => "Invalid query type",
        }
    }
}

/// What the playlist service publishes as a consequence of one message.
pub enum Publication {
    /// The whole queue of a device, after a change or on request.
    StateChanged { device_id: String, songs: Vec<SongInternal> },
    /// A command to the speaker service to play a song on a device.
    Play { device_id: String, url: String },
    /// A command to the speaker service to stop a device.
    Stop { device_id: String },
    /// A usage error.
    Error(PlaylistError),
}

pub enum PublicationView {
    StateChanged { device_id: Seq<char>, songs: Seq<SongView> },
    Play { device_id: Seq<char>, url: Seq<char> },
    Stop { device_id: Seq<char> },
    Error(PlaylistError),
}

impl View for Publication {
    type V = PublicationView;

    open spec fn view(&self) -> PublicationView {
        match self {
            Publication::StateChanged { device_id, songs } => PublicationView::StateChanged {
                device_id: device_id@,
                songs: songs_view(songs@),
            },
            Publication::Play { device_id, url } => PublicationView::Play {
                device_id: device_id@,
                url: url@,
            },
            Publication::Stop { device_id } => PublicationView::Stop { device_id: device_id@ },
            Publication::Error(e) => PublicationView::Error(*e),
        }
    }
}

impl Publication {
    /// The bus topic that the publication goes to.
    pub fn topic(&self) -> (r: &'static str)
        ensures
            r@ == (match self@ {
                PublicationView::StateChanged { .. } => "playlist.event"@,
                PublicationView::Play { .. } => "speaker.command"@,
                PublicationView::Stop { .. } => "speaker.command"@,
                PublicationView::Error(_) => "error"@,
            }),
    {
        match self {
            Publication::StateChanged { .. } => "playlist.event",
            Publication::Play { .. } => "speaker.command",
            Publication::Stop { .. } => "speaker.command",
            Publication::Error(_) => "error",
        }
    }
}

pub open spec fn publications_view(p: Seq<Publication>) -> Seq<PublicationView> {
    p.map_values(|x: Publication| x@)
}

/// What a queue change asks of the speaker service.
#[derive(PartialEq, Eq, Structural)]
pub enum HeadRule {
    /// Nothing: the song at position 0 is unchanged.
    Keep,
    /// Play the song now at position 0.
    PlayHead,
    /// Play the song now at position 0, or stop when none is left.
    Advance,
}

/// The publications that follow a change of the queue of `d` to `q`: the new
/// state first, then at most one playback command.
pub open spec fn announce(d: Seq<char>, q: Seq<SongView>, rule: HeadRule) -> Seq<PublicationView> {
    let changed = PublicationView::StateChanged { device_id: d, songs: q };
    match rule {
        HeadRule::Keep => seq![changed],
        HeadRule::PlayHead => seq![changed, PublicationView::Play { device_id: d, url: q[0].url }],
        HeadRule::Advance => if q.len() > 0 {
            seq![changed, PublicationView::Play { device_id: d, url: q[0].url }]
        } else {
            seq![changed, PublicationView::Stop { device_id: d }]
        },
    }
}

/// A change asked of one queue.
pub enum QueueOp {
    Add(SongView),
    Insert(SongView, int),
    Remove(int),
    Replace(SongView, int),
    Finished,
}

/// The effect of `op` on the queue `q` of device `d`: the new queue, or
/// `None` where the queue is left as it was, and what is published.
pub open spec fn step(d: Seq<char>, q: Seq<SongView>, op: QueueOp) -> (Option<Seq<SongView>>, Seq<PublicationView>) {
    match op {
        QueueOp::Add(s) => {
            let q2 = q.push(s);
            (Some(q2), announce(d, q2, if q2.len() == 1 { HeadRule::PlayHead } else { HeadRule::Keep }))
        },
        QueueOp::Insert(s, i) => if 0 <= i <= q.len() {
            let q2 = q.insert(i, s);
            (Some(q2), announce(d, q2, if i == 0 { HeadRule::PlayHead } else { HeadRule::Keep }))
        } else {
            (None, seq![PublicationView::Error(PlaylistError::IndexOutOfRange)])
        },
        QueueOp::Remove(i) => if 0 <= i < q.len() {
            let q2 = q.remove(i);
            (Some(q2), announce(d, q2, if i == 0 { HeadRule::Advance } else { HeadRule::Keep }))
        } else {
            (None, seq![PublicationView::Error(PlaylistError::IndexOutOfRange)])
        },
        QueueOp::Replace(s, i) => {
            let q2 = if 0 <= i < q.len() { q.update(i, s) } else { q.push(s) };
            (Some(q2), announce(d, q2, if i == 0 { HeadRule::PlayHead } else { HeadRule::Keep }))
        },
        QueueOp::Finished => if q.len() > 0 {
            let q2 = q.remove(0);
            (Some(q2), announce(d, q2, HeadRule::Advance))
        } else {
            (None, Seq::empty())
        },
    }
}

/// The queues after a step on device `d` whose new queue is `q2`.
pub open spec fn after_step(m: Map<Seq<char>, Seq<SongView>>, d: Seq<char>, q2: Option<Seq<SongView>>) -> Map<Seq<char>, Seq<SongView>> {
    match q2 {
        Some(q) => m.insert(d, q),
        None => m,
    }
}

/// `after_step` and the publications of `op` on device `d`.
pub open spec fn apply_op(m: Map<Seq<char>, Seq<SongView>>, d: Seq<char>, op: QueueOp) -> (Map<Seq<char>, Seq<SongView>>, Seq<PublicationView>) {
    let o = step(d, queue_in(m, d), op);
    (after_step(m, d, o.0), o.1)
}

/// The errors for the fields that a song in a command lacks, in the order
/// title, url, thumbnail.
pub open spec fn song_check(f: SongFields) -> Seq<PublicationView> {
    (if f.title.is_none() { seq![PublicationView::Error(PlaylistError::MissingTitle)] } else { Seq::empty() })
        + (if f.url.is_none() { seq![PublicationView::Error(PlaylistError::MissingUrl)] } else { Seq::empty() })
        + (if f.thumbnail_b64.is_none() { seq![PublicationView::Error(PlaylistError::MissingThumbnail)] } else { Seq::empty() })
}

pub open spec fn song_from(f: SongFields) -> SongView {
    SongView { url: f.url.unwrap()@, title: f.title.unwrap()@, thumbnail_b64: f.thumbnail_b64.unwrap()@ }
}

/// A command that carries a song: refused with the song's errors, or run.
pub open spec fn with_song(
    m: Map<Seq<char>, Seq<SongView>>,
    d: Seq<char>,
    song: Option<SongFields>,
    op: spec_fn(SongView) -> QueueOp,
) -> (Map<Seq<char>, Seq<SongView>>, Seq<PublicationView>) {
    match song {
        None => (m, seq![PublicationView::Error(PlaylistError::MissingSong)]),
        Some(f) => if song_check(f).len() > 0 {
            (m, song_check(f))
        } else {
            apply_op(m, d, op(song_from(f)))
        },
    }
}

/// What a playlist command does to the queues, and what it publishes.
pub open spec fn command_step(m: Map<Seq<char>, Seq<SongView>>, c: PlaylistCommand) -> (Map<Seq<char>, Seq<SongView>>, Seq<PublicationView>) {
    match c.device_id {
        None => (m, seq![PublicationView::Error(PlaylistError::MissingDeviceId)]),
        Some(dev) => {
            let d = dev@;
            match c.command {
                PlaylistCommandContent::AddSong { song } => with_song(m, d, song, |s: SongView| QueueOp::Add(s)),
                PlaylistCommandContent::InsertSong { song, index } =>
                    with_song(m, d, song, |s: SongView| QueueOp::Insert(s, index as int)),
                PlaylistCommandContent::RemoveSong { index } => apply_op(m, d, QueueOp::Remove(index as int)),
                PlaylistCommandContent::ReplaceSong { song, index } =>
                    with_song(m, d, song, |s: SongView| QueueOp::Replace(s, index as int)),
                _ => (m, seq![PublicationView::Error(PlaylistError::InvalidCommandType)]),
            }
        },
    }
}

/// What a playlist query publishes.
pub open spec fn query_step(m: Map<Seq<char>, Seq<SongView>>, q: PlaylistQuery) -> Seq<PublicationView> {
    match q.device_id {
        None => seq![PublicationView::Error(PlaylistError::MissingDeviceId)],
        Some(dev) => match q.query {
            PlaylistQueryContent::QueryPlaylistState =>
                seq![PublicationView::StateChanged { device_id: dev@, songs: queue_in(m, dev@) }],
            _ => seq![PublicationView::Error(PlaylistError::InvalidQueryType)],
        },
    }
}

/// What a speaker event does to the queues, and what it publishes: the end
/// of a file advances the queue of its device; other events change nothing.
pub open spec fn speaker_event_step(m: Map<Seq<char>, Seq<SongView>>, e: SpeakerEvent) -> (Map<Seq<char>, Seq<SongView>>, Seq<PublicationView>) {
    match e.device_id {
        None => (m, seq![PublicationView::Error(PlaylistError::MissingDeviceId)]),
        Some(dev) => match e.event {
            SpeakerEventContent::FileEnded => apply_op(m, dev@, QueueOp::Finished),
            _ => (m, Seq::empty()),
        },
    }
}

/// What a bus message does to the queues, and what it publishes. Messages
/// of other families are not for this service.
pub open spec fn message_step(m: Map<Seq<char>, Seq<SongView>>, msg: Message) -> (Map<Seq<char>, Seq<SongView>>, Seq<PublicationView>) {
    match msg.content {
        MessageContent::PlaylistCommand(Some(c)) => command_step(m, c),
        MessageContent::PlaylistQuery(Some(q)) => (m, query_step(m, q)),
        MessageContent::SpeakerEvent(Some(e)) => speaker_event_step(m, e),
        MessageContent::PlaylistCommand(None) => (m, seq![PublicationView::Error(PlaylistError::MissingContent)]),
        MessageContent::PlaylistQuery(None) => (m, seq![PublicationView::Error(PlaylistError::MissingContent)]),
        MessageContent::SpeakerEvent(None) => (m, seq![PublicationView::Error(PlaylistError::MissingContent)]),
        _ => (m, Seq::empty()),
    }
}

/// The queue of a device: empty until a command creates it.
pub open spec fn queue_in(m: Map<Seq<char>, Seq<SongView>>, d: Seq<char>) -> Seq<SongView> {
    if m.contains_key(d) {
        m[d]
    } else {
        Seq::empty()
    }
}

/// One device and its queue.
pub struct DeviceQueue {
    pub device_id: String,
    pub songs: Vec<SongInternal>,
}

/// The queues of all devices.
pub struct Playlists {
    entries: Vec<DeviceQueue>,
}

impl Playlists {
    /// Each device has at most one queue.
    pub closed spec fn wf(&self) -> bool {
        forall|i: int, j: int|
            0 <= i < self.entries@.len() && 0 <= j < self.entries@.len() && i != j
                ==> #[trigger] self.entries@[i].device_id@ != #[trigger] self.entries@[j].device_id@
    }

    closed spec fn holds(&self, d: Seq<char>) -> bool {
        exists|i: int| 0 <= i < self.entries@.len() && #[trigger] self.entries@[i].device_id@ == d
    }

    closed spec fn slot(&self, d: Seq<char>) -> int {
        choose|i: int| 0 <= i < self.entries@.len() && #[trigger] self.entries@[i].device_id@ == d
    }

    /// Device id to queue, for every device that has one.
    pub closed spec fn view(&self) -> Map<Seq<char>, Seq<SongView>> {
        Map::new(|d: Seq<char>| self.holds(d), |d: Seq<char>| songs_view(self.entries@[self.slot(d)].songs@))
    }

    pub fn new() -> (r: Playlists)
        ensures
            r.wf(),
            r.view() == Map::<Seq<char>, Seq<SongView>>::empty(),
    {
        let r = Playlists { entries: Vec::new() };
        assert(r.view() =~= Map::<Seq<char>, Seq<SongView>>::empty());
        r
    }

    fn find(&self, d: &String) -> (r: Option<usize>)
        requires
            self.wf(),
        ensures
            match r {
                Some(i) => i < self.entries@.len() && self.entries@[i as int].device_id@ == d@,
                None => !self.holds(d@),
            },
    {
        let mut i: usize = 0;
        while i < self.entries.len()
            invariant
                i <= self.entries@.len(),
                forall|j: int| 0 <= j < i ==> #[trigger] self.entries@[j].device_id@ != d@,
            decreases self.entries.len() - i,
        {
            if self.entries[i].device_id == *d {
                return Some(i);
            }
            i = i + 1;
        }
        None
    }

    /// A copy of the queue of `d`.
    fn queue_copy(&self, d: &String) -> (r: Vec<SongInternal>)
        requires
            self.wf(),
        ensures
            songs_view(r@) == queue_in(self.view(), d@),
    {
        match self.find(d) {
            Some(i) => {
                assert(self.holds(d@));
                assert(self.slot(d@) == i as int);
                duplicate_songs(&self.entries[i].songs)
            },
            None => Vec::new(),
        }
    }

    /// Gives `d` the queue `songs`.
    fn store(&mut self, d: &String, songs: Vec<SongInternal>)
        requires
            old(self).wf(),
        ensures
            final(self).wf(),
            final(self).view() == old(self).view().insert(d@, songs_view(songs@)),
    {
        let ghost q = songs_view(songs@);
        match self.find(d) {
            Some(i) => {
                let ghost before = *self;
                self.entries[i].songs = songs;
                proof {
                    assert forall|e: Seq<char>| #[trigger] self.holds(e) == before.holds(e) by {
                        if before.holds(e) {
                            let j = before.slot(e);
                            assert(self.entries@[j].device_id@ == e);
                        }
                        if self.holds(e) {
                            let j = self.slot(e);
                            assert(before.entries@[j].device_id@ == e);
                        }
                    }
                    assert forall|e: Seq<char>| self.holds(e) && e != d@ implies
                        songs_view(self.entries@[self.slot(e)].songs@)
                            == songs_view(before.entries@[before.slot(e)].songs@) by {
                        let j = self.slot(e);
                        let k = before.slot(e);
                        assert(j != i);
                        assert(before.entries@[j].device_id@ == e);
                    }
                    assert(self.holds(d@));
                    assert(self.slot(d@) == i as int);
                    assert(self.view() =~= before.view().insert(d@, q));
                }
            },
            None => {
                let ghost before = *self;
                self.entries.push(DeviceQueue { device_id: d.clone(), songs });
                proof {
                    let n = before.entries@.len() as int;
                    assert(self.entries@[n].device_id@ == d@);
                    assert forall|e: Seq<char>| #[trigger] self.holds(e) == (before.holds(e) || e == d@) by {
                        if before.holds(e) {
                            let j = before.slot(e);
                            assert(self.entries@[j].device_id@ == e);
                        }
                        if self.holds(e) && e != d@ {
                            let j = self.slot(e);
                            assert(j != n);
                            assert(before.entries@[j].device_id@ == e);
                        }
                    }
                    assert forall|e: Seq<char>| self.holds(e) && e != d@ implies
                        songs_view(self.entries@[self.slot(e)].songs@)
                            == songs_view(before.entries@[before.slot(e)].songs@) by {
                        let j = self.slot(e);
                        let k = before.slot(e);
                        assert(j != n);
                        assert(before.entries@[j].device_id@ == e);
                    }
                    assert(self.slot(d@) == n);
                    assert(self.view() =~= before.view().insert(d@, q));
                }
            },
        }
    }

    fn announce_change(d: &String, q: &Vec<SongInternal>, rule: HeadRule) -> (r: Vec<Publication>)
        requires
            rule == HeadRule::PlayHead ==> q@.len() > 0,
        ensures
            publications_view(r@) == announce(d@, songs_view(q@), rule),
    {
        let mut r: Vec<Publication> = Vec::new();
        r.push(Publication::StateChanged { device_id: d.clone(), songs: duplicate_songs(q) });
        let play = match rule {
            HeadRule::Keep => false,
            HeadRule::PlayHead => true,
            HeadRule::Advance => q.len() > 0,
        };
        if play {
            r.push(Publication::Play { device_id: d.clone(), url: q[0].url.clone() });
        } else if rule == HeadRule::Advance {
            r.push(Publication::Stop { device_id: d.clone() });
        }
        assert(publications_view(r@) =~= announce(d@, songs_view(q@), rule));
        r
    }

    fn commit(&mut self, d: &String, q: Vec<SongInternal>, rule: HeadRule) -> (r: Vec<Publication>)
        requires
            old(self).wf(),
            rule == HeadRule::PlayHead ==> q@.len() > 0,
        ensures
            final(self).wf(),
            final(self).view() == old(self).view().insert(d@, songs_view(q@)),
            publications_view(r@) == announce(d@, songs_view(q@), rule),
    {
        let r = Self::announce_change(d, &q, rule);
        self.store(d, q);
        r
    }

    fn usage_error(e: PlaylistError) -> (r: Vec<Publication>)
        ensures
            publications_view(r@) == seq![PublicationView::Error(e)],
    {
        let mut r: Vec<Publication> = Vec::new();
        r.push(Publication::Error(e));
        assert(publications_view(r@) =~= seq![PublicationView::Error(e)]);
        r
    }

    /// The queue of `device_id`; empty for a device never named before.
    pub fn query_state(&self, device_id: &str) -> (r: Vec<SongInternal>)
        requires
            self.wf(),
        ensures
            songs_view(r@) == queue_in(self.view(), device_id@),
    {
        self.queue_copy(&device_id.to_owned())
    }

    /// Appends `song` to the queue of `device_id`.
    pub fn add_song(&mut self, device_id: &str, song: SongInternal) -> (r: Vec<Publication>)
        requires
            old(self).wf(),
        ensures
            final(self).wf(),
            ({
                let o = step(device_id@, queue_in(old(self).view(), device_id@), QueueOp::Add(song@));
                &&& final(self).view() == after_step(old(self).view(), device_id@, o.0)
                &&& publications_view(r@) == o.1
            }),
    {
        let key = device_id.to_owned();
        let mut q = self.queue_copy(&key);
        q.push(song);
        assert(songs_view(q@) =~= queue_in(old(self).view(), device_id@).push(song@));
        let rule = if q.len() == 1 { HeadRule::PlayHead } else { HeadRule::Keep };
        self.commit(&key, q, rule)
    }

    /// Inserts `song` at `index` of the queue of `device_id`; an index past
    /// the end is a usage error.
    pub fn insert_song(&mut self, device_id: &str, song: SongInternal, index: u32) -> (r: Vec<Publication>)
        requires
            old(self).wf(),
        ensures
            final(self).wf(),
            ({
                let o = step(device_id@, queue_in(old(self).view(), device_id@), QueueOp::Insert(song@, index as int));
                &&& final(self).view() == after_step(old(self).view(), device_id@, o.0)
                &&& publications_view(r@) == o.1
            }),
    {
        let key = device_id.to_owned();
        let mut q = self.queue_copy(&key);
        if index as usize > q.len() {
            return Self::usage_error(PlaylistError::IndexOutOfRange);
        }
        q.insert(index as usize, song);
        assert(songs_view(q@) =~= queue_in(old(self).view(), device_id@).insert(index as int, song@));
        let rule = if index == 0 { HeadRule::PlayHead } else { HeadRule::Keep };
        self.commit(&key, q, rule)
    }

    /// Removes the song at `index` of the queue of `device_id`; an index past
    /// the last song is a usage error.
    pub fn remove_song(&mut self, device_id: &str, index: u32) -> (r: Vec<Publication>)
        requires
            old(self).wf(),
        ensures
            final(self).wf(),
            ({
                let o = step(device_id@, queue_in(old(self).view(), device_id@), QueueOp::Remove(index as int));
                &&& final(self).view() == after_step(old(self).view(), device_id@, o.0)
                &&& publications_view(r@) == o.1
            }),
    {
        let key = device_id.to_owned();
        let mut q = self.queue_copy(&key);
        if index as usize >= q.len() {
            return Self::usage_error(PlaylistError::IndexOutOfRange);
        }
        let _ = q.remove(index as usize);
        assert(songs_view(q@) =~= queue_in(old(self).view(), device_id@).remove(index as int));
        let rule = if index == 0 { HeadRule::Advance } else { HeadRule::Keep };
        self.commit(&key, q, rule)
    }

    /// Puts `song` in place of the one at `index` of the queue of
    /// `device_id`, or at the end where there is none.
    pub fn replace_song(&mut self, device_id: &str, song: SongInternal, index: u32) -> (r: Vec<Publication>)
        requires
            old(self).wf(),
        ensures
            final(self).wf(),
            ({
                let o = step(device_id@, queue_in(old(self).view(), device_id@), QueueOp::Replace(song@, index as int));
                &&& final(self).view() == after_step(old(self).view(), device_id@, o.0)
                &&& publications_view(r@) == o.1
            }),
    {
        let key = device_id.to_owned();
        let mut q = self.queue_copy(&key);
        let ghost q0 = songs_view(q@);
        let ghost s = song@;
        if (index as usize) < q.len() {
            q.set(index as usize, song);
            assert(songs_view(q@) =~= q0.update(index as int, s));
        } else {
            q.push(song);
            assert(songs_view(q@) =~= q0.push(s));
        }
        let rule = if index == 0 { HeadRule::PlayHead } else { HeadRule::Keep };
        self.commit(&key, q, rule)
    }

    /// The song at position 0 of `device_id` has finished: it leaves the
    /// queue and the next one plays. Nothing happens on an empty queue.
    pub fn on_playback_finished(&mut self, device_id: &str) -> (r: Vec<Publication>)
        requires
            old(self).wf(),
        ensures
            final(self).wf(),
            ({
                let o = step(device_id@, queue_in(old(self).view(), device_id@), QueueOp::Finished);
                &&& final(self).view() == after_step(old(self).view(), device_id@, o.0)
                &&& publications_view(r@) == o.1
            }),
    {
        let key = device_id.to_owned();
        let mut q = self.queue_copy(&key);
        if q.len() == 0 {
            let r: Vec<Publication> = Vec::new();
            assert(publications_view(r@) =~= Seq::<PublicationView>::empty());
            return r;
        }
        let _ = q.remove(0);
        assert(songs_view(q@) =~= queue_in(old(self).view(), device_id@).remove(0));
        self.commit(&key, q, HeadRule::Advance)
    }

    fn take_song(f: SongFields) -> (r: Result<SongInternal, Vec<Publication>>)
        ensures
            match r {
                Ok(song) => song_check(f).len() == 0 && song@ == song_from(f),
                Err(errs) => song_check(f).len() > 0 && publications_view(errs@) == song_check(f),
            },
    {
        let ghost g = f;
        let SongFields { url, title, thumbnail_b64 } = f;
        let mut errs: Vec<Publication> = Vec::new();
        if title.is_none() {
            errs.push(Publication::Error(PlaylistError::MissingTitle));
        }
        if url.is_none() {
            errs.push(Publication::Error(PlaylistError::MissingUrl));
        }
        if thumbnail_b64.is_none() {
            errs.push(Publication::Error(PlaylistError::MissingThumbnail));
        }
        assert(publications_view(errs@) =~= song_check(g));
        match (url, title, thumbnail_b64) {
            (Some(url), Some(title), Some(thumbnail_b64)) => Ok(SongInternal { url, title, thumbnail_b64 }),
            _ => Err(errs),
        }
    }

    /// Runs a playlist command.
    pub fn handle_command(&mut self, c: PlaylistCommand) -> (r: Vec<Publication>)
        requires
            old(self).wf(),
        ensures
            final(self).wf(),
            (final(self).view(), publications_view(r@)) == command_step(old(self).view(), c),
    {
        let ghost g = c;
        let PlaylistCommand { device_id, command } = c;
        let device_id = match device_id {
            Some(d) => d,
            None => return Self::usage_error(PlaylistError::MissingDeviceId),
        };
        match command {
            PlaylistCommandContent::AddSong { song } => match song {
                None => Self::usage_error(PlaylistError::MissingSong),
                Some(f) => match Self::take_song(f) {
                    Ok(s) => self.add_song(device_id.as_str(), s),
                    Err(errs) => errs,
                },
            },
            PlaylistCommandContent::InsertSong { song, index } => match song {
                None => Self::usage_error(PlaylistError::MissingSong),
                Some(f) => match Self::take_song(f) {
                    Ok(s) => self.insert_song(device_id.as_str(), s, index),
                    Err(errs) => errs,
                },
            },
            PlaylistCommandContent::RemoveSong { index } => self.remove_song(device_id.as_str(), index),
            PlaylistCommandContent::ReplaceSong { song, index } => match song {
                None => Self::usage_error(PlaylistError::MissingSong),
                Some(f) => match Self::take_song(f) {
                    Ok(s) => self.replace_song(device_id.as_str(), s, index),
                    Err(errs) => errs,
                },
            },
            _ => Self::usage_error(PlaylistError::InvalidCommandType),
        }
    }

    /// Answers a playlist query.
    pub fn handle_query(&self, q: &PlaylistQuery) -> (r: Vec<Publication>)
        requires
            self.wf(),
        ensures
            publications_view(r@) == query_step(self.view(), *q),
    {
        let device_id = match &q.device_id {
            Some(d) => d,
            None => return Self::usage_error(PlaylistError::MissingDeviceId),
        };
        match q.query {
            PlaylistQueryContent::QueryPlaylistState => {
                let songs = self.queue_copy(device_id);
                let mut r: Vec<Publication> = Vec::new();
                r.push(Publication::StateChanged { device_id: device_id.clone(), songs });
                assert(publications_view(r@) =~= query_step(self.view(), *q));
                r
            },
            _ => Self::usage_error(PlaylistError::InvalidQueryType),
        }
    }

    /// Follows a speaker event.
    pub fn handle_speaker_event(&mut self, e: &SpeakerEvent) -> (r: Vec<Publication>)
        requires
            old(self).wf(),
        ensures
            final(self).wf(),
            (final(self).view(), publications_view(r@)) == speaker_event_step(old(self).view(), *e),
    {
        let device_id = match &e.device_id {
            Some(d) => d,
            None => return Self::usage_error(PlaylistError::MissingDeviceId),
        };
        match e.event {
            SpeakerEventContent::FileEnded => self.on_playback_finished(device_id.as_str()),
            _ => {
                let r: Vec<Publication> = Vec::new();
                assert(publications_view(r@) =~= Seq::<PublicationView>::empty());
                r
            },
        }
    }

    /// Handles one bus message: playlist commands and queries, and the
    /// speaker events that move a queue on.
    pub fn handle_message(&mut self, msg: Message) -> (r: Vec<Publication>)
        requires
            old(self).wf(),
        ensures
            final(self).wf(),
            (final(self).view(), publications_view(r@)) == message_step(old(self).view(), msg),
    {
        match msg.content {
            MessageContent::PlaylistCommand(Some(c)) => self.handle_command(c),
            MessageContent::PlaylistQuery(Some(q)) => self.handle_query(&q),
            MessageContent::SpeakerEvent(Some(e)) => self.handle_speaker_event(&e),
            MessageContent::PlaylistCommand(None) => Self::usage_error(PlaylistError::MissingContent),
            MessageContent::PlaylistQuery(None) => Self::usage_error(PlaylistError::MissingContent),
            MessageContent::SpeakerEvent(None) => Self::usage_error(PlaylistError::MissingContent),
            _ => {
                let r: Vec<Publication> = Vec::new();
                assert(publications_view(r@) =~= Seq::<PublicationView>::empty());
                r
            },
        }
    }
}

} // verus!

verus! {

/// The queue of one device and everything published, after `ops` run in
/// order from the queue `q`.
pub open spec fn run(d: Seq<char>, q: Seq<SongView>, ops: Seq<QueueOp>) -> (Seq<SongView>, Seq<PublicationView>)
    decreases ops.len(),
{
    if ops.len() == 0 {
        (q, Seq::empty())
    } else {
        let prev = run(d, q, ops.drop_last());
        let o = step(d, prev.0, ops.last());
        (
            match o.0 {
                Some(q2) => q2,
                None => prev.0,
            },
            prev.1 + o.1,
        )
    }
}

/// The songs of the last state-changed publication, if there is one.
pub open spec fn latest_state(p: Seq<PublicationView>) -> Option<Seq<SongView>>
    decreases p.len(),
{
    if p.len() == 0 {
        None
    } else {
        match p.last() {
            PublicationView::StateChanged { songs, .. } => Some(songs),
            _ => latest_state(p.drop_last()),
        }
    }
}

/// The urls of the play commands, in order.
pub open spec fn plays(p: Seq<PublicationView>) -> Seq<Seq<char>>
    decreases p.len(),
{
    if p.len() == 0 {
        Seq::empty()
    } else {
        let rest = plays(p.drop_last());
        match p.last() {
            PublicationView::Play { url, .. } => rest.push(url),
            _ => rest,
        }
    }
}

/// The number of stop commands.
pub open spec fn stops(p: Seq<PublicationView>) -> nat
    decreases p.len(),
{
    if p.len() == 0 {
        0
    } else {
        stops(p.drop_last()) + match p.last() {
            PublicationView::Stop { .. } => 1nat,
            _ => 0nat,
        }
    }
}

proof fn lemma_latest_state_concat(a: Seq<PublicationView>, b: Seq<PublicationView>)
    ensures
        latest_state(a + b) == match latest_state(b) {
            Some(s) => Some(s),
            None => latest_state(a),
        },
    decreases b.len(),
{
    if b.len() == 0 {
        assert(a + b =~= a);
    } else {
        assert((a + b).drop_last() =~= a + b.drop_last());
        lemma_latest_state_concat(a, b.drop_last());
    }
}

proof fn lemma_announce(d: Seq<char>, q: Seq<SongView>, rule: HeadRule)
    requires
        rule == HeadRule::PlayHead ==> q.len() > 0,
    ensures
        latest_state(announce(d, q, rule)) == Some(q),
        plays(announce(d, q, rule)) == (match rule {
            HeadRule::Keep => Seq::<Seq<char>>::empty(),
            _ => if q.len() > 0 { seq![q[0].url] } else { Seq::empty() },
        }),
        stops(announce(d, q, rule)) == (if rule == HeadRule::Advance && q.len() == 0 { 1nat } else { 0nat }),
{
    reveal_with_fuel(latest_state, 3);
    reveal_with_fuel(plays, 3);
    reveal_with_fuel(stops, 3);
    let changed = PublicationView::StateChanged { device_id: d, songs: q };
    let p = announce(d, q, rule);
    if p.len() == 2 {
        assert(p.drop_last() =~= seq![changed]);
        assert(seq![changed].drop_last() =~= Seq::<PublicationView>::empty());
    } else {
        assert(p.drop_last() =~= Seq::<PublicationView>::empty());
    }
}

/// After any sequence of queue operations on a fresh device queue, the last
/// state published is exactly the queue held; where nothing was published
/// yet, the queue is empty.
pub proof fn law_published_state_is_queue(d: Seq<char>, ops: Seq<QueueOp>)
    ensures
        ({
            let (q, p) = run(d, Seq::empty(), ops);
            match latest_state(p) {
                Some(s) => s == q,
                None => q == Seq::<SongView>::empty(),
            }
        }),
    decreases ops.len(),
{
    if ops.len() > 0 {
        law_published_state_is_queue(d, ops.drop_last());
        let prev = run(d, Seq::empty(), ops.drop_last());
        let o = step(d, prev.0, ops.last());
        lemma_latest_state_concat(prev.1, o.1);
        match ops.last() {
            QueueOp::Add(s) => lemma_announce(d, prev.0.push(s), if prev.0.push(s).len() == 1 { HeadRule::PlayHead } else { HeadRule::Keep }),
            QueueOp::Insert(s, i) => if 0 <= i <= prev.0.len() {
                lemma_announce(d, prev.0.insert(i, s), if i == 0 { HeadRule::PlayHead } else { HeadRule::Keep });
            } else {
                reveal_with_fuel(latest_state, 2);
            },
            QueueOp::Remove(i) => if 0 <= i < prev.0.len() {
                lemma_announce(d, prev.0.remove(i), if i == 0 { HeadRule::Advance } else { HeadRule::Keep });
            } else {
                reveal_with_fuel(latest_state, 2);
            },
            QueueOp::Replace(s, i) => {
                let q2 = if 0 <= i < prev.0.len() { prev.0.update(i, s) } else { prev.0.push(s) };
                lemma_announce(d, q2, if i == 0 { HeadRule::PlayHead } else { HeadRule::Keep });
            },
            QueueOp::Finished => if prev.0.len() > 0 {
                lemma_announce(d, prev.0.remove(0), HeadRule::Advance);
            },
        }
    }
}

/// Inserting or replacing at position 0, or removing position 0 while
/// another song stays, issues exactly one play command, for the new head,
/// and no stop command.
pub proof fn law_new_head_is_played(d: Seq<char>, q: Seq<SongView>, op: QueueOp)
    requires
        match op {
            QueueOp::Insert(_, i) => i == 0,
            QueueOp::Replace(_, i) => i == 0,
            QueueOp::Remove(i) => i == 0 && q.len() > 1,
            _ => false,
        },
    ensures
        step(d, q, op).0 is Some,
        plays(step(d, q, op).1) == seq![step(d, q, op).0.unwrap()[0].url],
        stops(step(d, q, op).1) == 0,
{
    match op {
        QueueOp::Insert(s, i) => lemma_announce(d, q.insert(0, s), HeadRule::PlayHead),
        QueueOp::Replace(s, i) => {
            let q2 = if 0 < q.len() { q.update(0, s) } else { q.push(s) };
            lemma_announce(d, q2, HeadRule::PlayHead);
        },
        QueueOp::Remove(i) => lemma_announce(d, q.remove(0), HeadRule::Advance),
        _ => {},
    }
}

/// Removing the only song issues exactly one stop command and no play
/// command, and leaves the queue empty.
pub proof fn law_last_removal_stops(d: Seq<char>, q: Seq<SongView>)
    requires
        q.len() == 1,
    ensures
        step(d, q, QueueOp::Remove(0)).0 == Some(Seq::<SongView>::empty()),
        plays(step(d, q, QueueOp::Remove(0)).1) == Seq::<Seq<char>>::empty(),
        stops(step(d, q, QueueOp::Remove(0)).1) == 1,
{
    assert(q.remove(0) =~= Seq::<SongView>::empty());
    lemma_announce(d, q.remove(0), HeadRule::Advance);
}

/// Removing at an index past the last song reports a usage error and leaves
/// the queue as it was.
pub proof fn law_remove_out_of_range(d: Seq<char>, q: Seq<SongView>, i: int)
    requires
        i >= q.len(),
    ensures
        step(d, q, QueueOp::Remove(i)) == (None::<Seq<SongView>>, seq![PublicationView::Error(PlaylistError::IndexOutOfRange)]),
{
}

/// The end of a file on a device whose queue is empty changes nothing and
/// publishes nothing.
pub proof fn law_finished_on_empty_queue(d: Seq<char>)
    ensures
        step(d, Seq::empty(), QueueOp::Finished) == (None::<Seq<SongView>>, Seq::<PublicationView>::empty()),
{
}

} // verus!
