//! One-line descriptions of bus messages, for the echo service that mirrors
//! all traffic.
use vstd::prelude::*;
use crate::message::{
    Message, MessageContent, PlayContent, SpeakerCommand, SpeakerCommandContent,
    SpeakerQueryContent, SpeakerEventContent,
};
use crate::text::{decimal, append_decimal};

verus! {

/// How Rust's `Debug` writes a string: quoted, with escapes.
pub uninterp spec fn debug_quoted(s: Seq<char>) -> Seq<char>;

/// Relies on the standard library's `Debug` for `str`: the quoted, escaped
/// form of the text.
#[verifier::external_body]
fn debug_quote(s: &str) -> (r: String)
    ensures
        r@ == debug_quoted(s@),
{
    format!("{:?}", s)
}

/// Relies on std::time::SystemTime::now: seconds since the Unix epoch, 0 for
/// a clock set before it.
#[verifier::external_body]
fn unix_seconds() -> (r: u64) {
    match std::time::SystemTime::now().duration_since(std::time::UNIX_EPOCH) {
        Ok(d) => d.as_secs(),
        Err(_) => 0,
    }
}

/// The time now, in seconds since the Unix epoch, as messages carry it.
pub fn get_current_timestamp() -> (r: u64) {
    unix_seconds()
}

pub open spec fn content_text(content_type: Seq<char>, message: Option<Seq<char>>) -> Seq<char> {
    content_type + ": "@ + match message {
        Some(m) => m,
        None => "{NO MESSAGE}"@,
    }
}

/// `content_type` and the message, or a marker where there is none.
pub fn format_message_content(content_type: &str, message: Option<&str>) -> (r: String)
    ensures
        r@ == content_text(content_type@, match message {
            Some(m) => Some(m@),
            None => None,
        }),
{
    let mut out = String::new();
    out.append(content_type);
    out.append(": ");
    match message {
        Some(m) => out.append(m),
        None => out.append("{NO MESSAGE}"),
    }
    out
}

pub open spec fn error_text(content_type: Seq<char>, error: Seq<char>) -> Seq<char> {
    "{ERROR: TYPE WAS "@ + content_type + " BUT "@ + error + "}"@
}

/// The description of a message whose content does not match its type.
pub fn error_message(content_type: &str, error: &str) -> (r: String)
    ensures
        r@ == error_text(content_type@, error@),
{
    let mut out = String::new();
    out.append("{ERROR: TYPE WAS ");
    out.append(content_type);
    out.append(" BUT ");
    out.append(error);
    out.append("}");
    out
}

fn labelled(label: &str, value: &str) -> (r: String)
    ensures
        r@ == label@ + value@,
{
    let mut out = String::new();
    out.append(label);
    out.append(value);
    out
}

fn owned(s: &str) -> (r: String)
    ensures
        r@ == s@,
{
    s.to_owned()
}

pub open spec fn play_text(c: SpeakerCommand) -> Seq<char> {
    match c.command {
        SpeakerCommandContent::Play(Some(p)) => match p.content {
            PlayContent::Empty => "PlayContent: NONE"@,
            PlayContent::PlayYoutube(Some(y)) => "PlayYoutube: url="@ + match y.url {
                Some(u) => u@,
                None => "{NO URL}"@,
            },
            PlayContent::PlayYoutube(None) => error_text("PlayYoutube"@, "content_as_play_youtube was None"@),
            PlayContent::PlayWav => "PlayWav: [RAW WAV DATA]"@,
            PlayContent::Unknown(_) => "UNKNOWN PlayContent"@,
        },
        _ => error_text("Play"@, "command_as_play was None"@),
    }
}

/// The description of the play command inside a speaker command.
pub fn handle_play_command(speaker_command: &SpeakerCommand) -> (r: String)
    ensures
        r@ == play_text(*speaker_command),
{
    match &speaker_command.command {
        SpeakerCommandContent::Play(Some(p)) => match &p.content {
            PlayContent::Empty => owned("PlayContent: NONE"),
            PlayContent::PlayYoutube(Some(y)) => match &y.url {
                Some(u) => labelled("PlayYoutube: url=", u.as_str()),
                None => labelled("PlayYoutube: url=", "{NO URL}"),
            },
            PlayContent::PlayYoutube(None) => error_message("PlayYoutube", "content_as_play_youtube was None"),
            PlayContent::PlayWav => owned("PlayWav: [RAW WAV DATA]"),
            PlayContent::Unknown(_) => owned("UNKNOWN PlayContent"),
        },
        _ => error_message("Play", "command_as_play was None"),
    }
}

pub open spec fn speaker_command_text(m: Message) -> Seq<char> {
    match m.content {
        MessageContent::SpeakerCommand(Some(c)) => match c.command {
            SpeakerCommandContent::Empty => "SpeakerCommand: NONE"@,
            SpeakerCommandContent::SetMusicVolume(Some(v)) => "SetMusicVolume: volume="@ + v@,
            SpeakerCommandContent::SetMusicVolume(None) =>
                error_text("SetMusicVolume"@, "command_as_set_music_volume was None"@),
            SpeakerCommandContent::TogglePause => "TogglePause"@,
            SpeakerCommandContent::Play(_) => play_text(c),
            SpeakerCommandContent::Stop => "Stop"@,
            SpeakerCommandContent::Seek(Some(v)) => "Seek: seek="@ + v@,
            SpeakerCommandContent::Seek(None) => error_text("Seek"@, "command_as_seek was None"@),
            SpeakerCommandContent::Unknown(_) => "UNKNOWN SpeakerCommandContent"@,
        },
        _ => error_text("SpeakerCommand"@, "content_as_speaker_command was None"@),
    }
}

/// The description of a speaker command message.
pub fn handle_speaker_command(message: &Message) -> (r: String)
    ensures
        r@ == speaker_command_text(*message),
{
    match &message.content {
        MessageContent::SpeakerCommand(Some(c)) => match &c.command {
            SpeakerCommandContent::Empty => owned("SpeakerCommand: NONE"),
            SpeakerCommandContent::SetMusicVolume(Some(v)) => labelled("SetMusicVolume: volume=", v.as_str()),
            SpeakerCommandContent::SetMusicVolume(None) =>
                error_message("SetMusicVolume", "command_as_set_music_volume was None"),
            SpeakerCommandContent::TogglePause => owned("TogglePause"),
            SpeakerCommandContent::Play(_) => handle_play_command(c),
            SpeakerCommandContent::Stop => owned("Stop"),
            SpeakerCommandContent::Seek(Some(v)) => labelled("Seek: seek=", v.as_str()),
            SpeakerCommandContent::Seek(None) => error_message("Seek", "command_as_seek was None"),
            SpeakerCommandContent::Unknown(_) => owned("UNKNOWN SpeakerCommandContent"),
        },
        _ => error_message("SpeakerCommand", "content_as_speaker_command was None"),
    }
}

pub open spec fn speaker_query_text(m: Message) -> Seq<char> {
    match m.content {
        MessageContent::SpeakerQuery(Some(q)) => match q.query {
            SpeakerQueryContent::Empty => "SpeakerQuery: NONE"@,
            SpeakerQueryContent::QueryMusicVolume => "QueryMusicVolume"@,
            SpeakerQueryContent::QueryPause => "QueryPause"@,
            SpeakerQueryContent::QueryPlay => "QueryPlay"@,
            SpeakerQueryContent::QuerySeek => "QuerySeek"@,
            SpeakerQueryContent::QueryDuration => "QueryDuration"@,
            SpeakerQueryContent::Unknown(_) => "UNKNOWN SpeakerQueryContent"@,
        },
        _ => error_text("SpeakerQuery"@, "content_as_speaker_query was None"@),
    }
}

/// The description of a speaker query message.
pub fn handle_speaker_query(message: &Message) -> (r: String)
    ensures
        r@ == speaker_query_text(*message),
{
    match &message.content {
        MessageContent::SpeakerQuery(Some(q)) => match q.query {
            SpeakerQueryContent::Empty => owned("SpeakerQuery: NONE"),
            SpeakerQueryContent::QueryMusicVolume => owned("QueryMusicVolume"),
            SpeakerQueryContent::QueryPause => owned("QueryPause"),
            SpeakerQueryContent::QueryPlay => owned("QueryPlay"),
            SpeakerQueryContent::QuerySeek => owned("QuerySeek"),
            SpeakerQueryContent::QueryDuration => owned("QueryDuration"),
            SpeakerQueryContent::Unknown(_) => owned("UNKNOWN SpeakerQueryContent"),
        },
        _ => error_message("SpeakerQuery", "content_as_speaker_query was None"),
    }
}

pub open spec fn speaker_event_text(m: Message) -> Seq<char> {
    match m.content {
        MessageContent::SpeakerEvent(Some(e)) => match e.event {
            SpeakerEventContent::Empty => "SpeakerEvent: NONE"@,
            SpeakerEventContent::MusicVolumeChanged(Some(v)) => "MusicVolumeChanged: volume="@ + v@,
            SpeakerEventContent::MusicVolumeChanged(None) =>
                error_text("MusicVolumeChanged"@, "event_as_music_volume_changed was None"@),
            SpeakerEventContent::PlayStarted => "PlayStarted"@,
            SpeakerEventContent::PlayStopped => "PlayStopped"@,
            SpeakerEventContent::SeekChanged(Some(v)) => "SeekChanged: seek="@ + v@,
            SpeakerEventContent::SeekChanged(None) => error_text("SeekChanged"@, "event_as_seek_changed was None"@),
            SpeakerEventContent::DurationChanged(Some(v)) => "DurationChanged: duration="@ + v@,
            SpeakerEventContent::DurationChanged(None) =>
                error_text("DurationChanged"@, "event_as_duration_changed was None"@),
            SpeakerEventContent::FileEnded => "FileEnded"@,
            SpeakerEventContent::PauseChanged(Some(p)) => "PauseChanged: paused="@ + if p { "true"@ } else { "false"@ },
            SpeakerEventContent::PauseChanged(None) =>
                error_text("PauseChanged"@, "event_as_pause_changed was None"@),
            SpeakerEventContent::Unknown(_) => "UNKNOWN SpeakerEventContent"@,
        },
        _ => error_text("SpeakerEvent"@, "content_as_speaker_event was None"@),
    }
}

/// The description of a speaker event message.
pub fn handle_speaker_event(message: &Message) -> (r: String)
    ensures
        r@ == speaker_event_text(*message),
{
    match &message.content {
        MessageContent::SpeakerEvent(Some(e)) => match &e.event {
            SpeakerEventContent::Empty => owned("SpeakerEvent: NONE"),
            SpeakerEventContent::MusicVolumeChanged(Some(v)) => labelled("MusicVolumeChanged: volume=", v.as_str()),
            SpeakerEventContent::MusicVolumeChanged(None) =>
                error_message("MusicVolumeChanged", "event_as_music_volume_changed was None"),
            SpeakerEventContent::PlayStarted => owned("PlayStarted"),
            SpeakerEventContent::PlayStopped => owned("PlayStopped"),
            SpeakerEventContent::SeekChanged(Some(v)) => labelled("SeekChanged: seek=", v.as_str()),
            SpeakerEventContent::SeekChanged(None) => error_message("SeekChanged", "event_as_seek_changed was None"),
            SpeakerEventContent::DurationChanged(Some(v)) => labelled("DurationChanged: duration=", v.as_str()),
            SpeakerEventContent::DurationChanged(None) =>
                error_message("DurationChanged", "event_as_duration_changed was None"),
            SpeakerEventContent::FileEnded => owned("FileEnded"),
            SpeakerEventContent::PauseChanged(Some(p)) =>
                labelled("PauseChanged: paused=", if *p { "true" } else { "false" }),
            SpeakerEventContent::PauseChanged(None) => error_message("PauseChanged", "event_as_pause_changed was None"),
            SpeakerEventContent::Unknown(_) => owned("UNKNOWN SpeakerEventContent"),
        },
        _ => error_message("SpeakerEvent", "content_as_speaker_event was None"),
    }
}

/// The ids as Rust's `Debug` writes a list of strings.
pub open spec fn debug_items(ids: Seq<Seq<char>>) -> Seq<char>
    decreases ids.len(),
{
    if ids.len() == 0 {
        Seq::empty()
    } else if ids.len() == 1 {
        debug_quoted(ids[0])
    } else {
        debug_items(ids.drop_last()) + ", "@ + debug_quoted(ids.last())
    }
}

fn debug_list(ids: &Vec<String>) -> (r: String)
    ensures
        r@ == "["@ + debug_items(crate::supervisor::strings_view(ids@)) + "]"@,
{
    let ghost v = crate::supervisor::strings_view(ids@);
    let mut out = String::new();
    out.append("[");
    let mut i: usize = 0;
    while i < ids.len()
        invariant
            i <= ids@.len(),
            v == crate::supervisor::strings_view(ids@),
            out@ == "["@ + debug_items(v.subrange(0, i as int)),
        decreases ids.len() - i,
    {
        if i > 0 {
            out.append(", ");
        }
        let q = debug_quote(ids[i].as_str());
        out.append(q.as_str());
        proof {
            let s = v.subrange(0, i + 1);
            assert(s.drop_last() =~= v.subrange(0, i as int));
            assert(s.last() == ids@[i as int]@);
            if i == 0 {
                assert(v.subrange(0, 0) =~= Seq::<Seq<char>>::empty());
            }
        }
        i = i + 1;
    }
    assert(v.subrange(0, ids@.len() as int) =~= v);
    out.append("]");
    out
}

pub open spec fn opt_text(s: Option<String>) -> Option<Seq<char>> {
    match s {
        Some(t) => Some(t@),
        None => None,
    }
}

/// The description of a message, by its content.
pub open spec fn message_text(m: Message) -> Seq<char> {
    match m.content {
        MessageContent::Empty => "NONE"@,
        MessageContent::Print(Some(b)) => content_text("Print"@, opt_text(b.message)),
        MessageContent::Print(None) => error_text("Print"@, "content_as_print was None"@),
        MessageContent::Echo(Some(b)) => content_text("Echo"@, opt_text(b.message)),
        MessageContent::Echo(None) => error_text("Echo"@, "content_as_echo was None"@),
        MessageContent::Error(Some(b)) => content_text("Error"@, opt_text(b.message)),
        MessageContent::Error(None) => error_text("Error"@, "content_as_error was None"@),
        MessageContent::SpeakerCommand(_) => speaker_command_text(m),
        MessageContent::SpeakerQuery(_) => speaker_query_text(m),
        MessageContent::SpeakerEvent(_) => speaker_event_text(m),
        MessageContent::SpeakerListQuery => "SpeakerListQuery"@,
        MessageContent::SpeakerListEvent(Some(e)) => match e.device_ids {
            Some(ids) => "SpeakerListEvent: device_ids="@ + ("["@ + debug_items(crate::supervisor::strings_view(ids@)) + "]"@),
            None => error_text("SpeakerListEvent"@, "device_ids was None"@),
        },
        MessageContent::SpeakerListEvent(None) =>
            error_text("SpeakerListEvent"@, "content_as_speaker_list_event was None"@),
        _ => "UNKNOWN MessageContent"@,
    }
}

fn optional_str(s: &Option<String>) -> (r: Option<&str>)
    ensures
        match r {
            Some(t) => opt_text(*s) == Some(t@),
            None => opt_text(*s) is None,
        },
{
    match s {
        Some(t) => Some(t.as_str()),
        None => None,
    }
}

/// The description of a message.
pub fn process_message(message: &Message) -> (r: String)
    ensures
        r@ == message_text(*message),
{
    match &message.content {
        MessageContent::Empty => owned("NONE"),
        MessageContent::Print(Some(b)) => format_message_content("Print", optional_str(&b.message)),
        MessageContent::Print(None) => error_message("Print", "content_as_print was None"),
        MessageContent::Echo(Some(b)) => format_message_content("Echo", optional_str(&b.message)),
        MessageContent::Echo(None) => error_message("Echo", "content_as_echo was None"),
        MessageContent::Error(Some(b)) => format_message_content("Error", optional_str(&b.message)),
        MessageContent::Error(None) => error_message("Error", "content_as_error was None"),
        MessageContent::SpeakerCommand(_) => handle_speaker_command(message),
        MessageContent::SpeakerQuery(_) => handle_speaker_query(message),
        MessageContent::SpeakerEvent(_) => handle_speaker_event(message),
        MessageContent::SpeakerListQuery => owned("SpeakerListQuery"),
        MessageContent::SpeakerListEvent(Some(e)) => match &e.device_ids {
            Some(ids) => {
                let l = debug_list(ids);
                labelled("SpeakerListEvent: device_ids=", l.as_str())
            },
            None => error_message("SpeakerListEvent", "device_ids was None"),
        },
        MessageContent::SpeakerListEvent(None) =>
            error_message("SpeakerListEvent", "content_as_speaker_list_event was None"),
        _ => owned("UNKNOWN MessageContent"),
    }
}

/// The name of a message's content type; an unknown tag shows its number.
pub open spec fn content_label(c: MessageContent) -> Seq<char> {
    match c {
        MessageContent::Empty => "NONE"@,
        MessageContent::Print(_) => "Print"@,
        MessageContent::Echo(_) => "Echo"@,
        MessageContent::Error(_) => "Error"@,
        MessageContent::SpeakerCommand(_) => "SpeakerCommand"@,
        MessageContent::SpeakerQuery(_) => "SpeakerQuery"@,
        MessageContent::SpeakerEvent(_) => "SpeakerEvent"@,
        MessageContent::SpeakerListQuery => "SpeakerListQuery"@,
        MessageContent::SpeakerListEvent(_) => "SpeakerListEvent"@,
        MessageContent::PlaylistCommand(_) => "PlaylistCommand"@,
        MessageContent::PlaylistQuery(_) => "PlaylistQuery"@,
        MessageContent::Unknown(n) => "<UNKNOWN "@ + decimal(n as nat) + ">"@,
    }
}

fn content_type_name(c: &MessageContent) -> (r: String)
    ensures
        r@ == content_label(*c),
{
    match c {
        MessageContent::Empty => owned("NONE"),
        MessageContent::Print(_) => owned("Print"),
        MessageContent::Echo(_) => owned("Echo"),
        MessageContent::Error(_) => owned("Error"),
        MessageContent::SpeakerCommand(_) => owned("SpeakerCommand"),
        MessageContent::SpeakerQuery(_) => owned("SpeakerQuery"),
        MessageContent::SpeakerEvent(_) => owned("SpeakerEvent"),
        MessageContent::SpeakerListQuery => owned("SpeakerListQuery"),
        MessageContent::SpeakerListEvent(_) => owned("SpeakerListEvent"),
        MessageContent::PlaylistCommand(_) => owned("PlaylistCommand"),
        MessageContent::PlaylistQuery(_) => owned("PlaylistQuery"),
        MessageContent::Unknown(n) => {
            let mut out = owned("<UNKNOWN ");
            append_decimal(&mut out, *n as u64);
            out.append(">");
            out
        },
    }
}

/// The subject on which echoes are published; its own traffic is not echoed.
pub open spec fn echo_subject() -> Seq<char> {
    "echo"@
}

/// The echo of a message seen on `subject`: the subject, the content type
/// and the description; `None` for the echo subject itself.
pub fn echo_line(subject: &str, message: &Message) -> (r: Option<String>)
    ensures
        subject@ == echo_subject() ==> r is None,
        subject@ != echo_subject() ==> r is Some
            && r.unwrap()@ == "["@ + subject@ + "] "@ + content_label(message.content) + ": "@ + message_text(*message),
{
    if subject.to_owned() == "echo".to_owned() {
        return None;
    }
    let mut out = owned("[");
    out.append(subject);
    out.append("] ");
    let name = content_type_name(&message.content);
    out.append(name.as_str());
    out.append(": ");
    let text = process_message(message);
    out.append(text.as_str());
    Some(out)
}

} // verus!
