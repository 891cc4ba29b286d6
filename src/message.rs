//! Bus messages as the services read them after decoding. A table or a field
//! that the wire may leave out is an `Option`; a union tag that this side does
//! not know is kept as `Unknown` with its number. Floating-point values travel
//! as their decimal text.
use vstd::prelude::*;

verus! {

/// A song as it comes in a command; each field may be missing.
pub struct SongFields {
    pub url: Option<String>,
    pub title: Option<String>,
    pub thumbnail_b64: Option<String>,
}

pub enum PlaylistCommandContent {
    Empty,
    AddSong { song: Option<SongFields> },
    InsertSong { song: Option<SongFields>, index: u32 },
    RemoveSong { index: u32 },
    ReplaceSong { song: Option<SongFields>, index: u32 },
    Unknown(u8),
}

pub struct PlaylistCommand {
    pub device_id: Option<String>,
    pub command: PlaylistCommandContent,
}

pub enum PlaylistQueryContent {
    Empty,
    QueryPlaylistState,
    Unknown(u8),
}

pub struct PlaylistQuery {
    pub device_id: Option<String>,
    pub query: PlaylistQueryContent,
}

pub struct PlayYoutube {
    pub url: Option<String>,
}

pub enum PlayContent {
    Empty,
    PlayYoutube(Option<PlayYoutube>),
    PlayWav,
    Unknown(u8),
}

pub struct Play {
    pub content: PlayContent,
}

pub enum SpeakerCommandContent {
    Empty,
    /// The volume, as decimal text.
    SetMusicVolume(Option<String>),
    TogglePause,
    Play(Option<Play>),
    Stop,
    /// The position in seconds, as decimal text.
    Seek(Option<String>),
    Unknown(u8),
}

pub struct SpeakerCommand {
    pub device_id: Option<String>,
    pub command: SpeakerCommandContent,
}

pub enum SpeakerQueryContent {
    Empty,
    QueryMusicVolume,
    QueryPause,
    QueryPlay,
    QuerySeek,
    QueryDuration,
    Unknown(u8),
}

pub struct SpeakerQuery {
    pub device_id: Option<String>,
    pub query: SpeakerQueryContent,
}

pub enum SpeakerEventContent {
    Empty,
    MusicVolumeChanged(Option<String>),
    PlayStarted,
    PlayStopped,
    SeekChanged(Option<String>),
    DurationChanged(Option<String>),
    FileEnded,
    PauseChanged(Option<bool>),
    Unknown(u8),
}

pub struct SpeakerEvent {
    pub device_id: Option<String>,
    pub event: SpeakerEventContent,
}

/// A message that carries one line of text.
pub struct TextBody {
    pub message: Option<String>,
}

pub struct ErrorBody {
    pub from: Option<String>,
    pub message: Option<String>,
}

pub struct SpeakerListEvent {
    pub device_ids: Option<Vec<String>>,
}

/// The content of a message; `None` inside a variant is a union value that
/// the wire left out.
pub enum MessageContent {
    Empty,
    Print(Option<TextBody>),
    Echo(Option<TextBody>),
    Error(Option<ErrorBody>),
    SpeakerCommand(Option<SpeakerCommand>),
    SpeakerQuery(Option<SpeakerQuery>),
    SpeakerEvent(Option<SpeakerEvent>),
    SpeakerListQuery,
    SpeakerListEvent(Option<SpeakerListEvent>),
    PlaylistCommand(Option<PlaylistCommand>),
    PlaylistQuery(Option<PlaylistQuery>),
    Unknown(u8),
}

pub struct Message {
    pub timestamp: u64,
    pub content: MessageContent,
}

} // verus!
