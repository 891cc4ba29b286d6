use multiroom::message::{
    Message, MessageContent, PlaylistCommand, PlaylistCommandContent, PlaylistQuery,
    PlaylistQueryContent, SongFields, SpeakerEvent, SpeakerEventContent,
};
use multiroom::playlist::{PlaylistError, Playlists, Publication};
use multiroom::song::{Song, SongInternal};

fn song(url: &str) -> SongInternal {
    SongInternal::new(url, "title", "thumb")
}

fn urls(songs: &[SongInternal]) -> Vec<String> {
    songs.iter().map(|s| s.url.clone()).collect()
}

fn state_of(p: &Publication) -> Option<(String, Vec<String>)> {
    match p {
        Publication::StateChanged { device_id, songs } => Some((device_id.clone(), urls(songs))),
        _ => None,
    }
}

fn plays(ps: &[Publication]) -> Vec<String> {
    ps.iter()
        .filter_map(|p| match p {
            Publication::Play { url, .. } => Some(url.clone()),
            _ => None,
        })
        .collect()
}

fn stops(ps: &[Publication]) -> usize {
    ps.iter().filter(|p| matches!(p, Publication::Stop { .. })).count()
}

fn errors(ps: &[Publication]) -> Vec<PlaylistError> {
    ps.iter()
        .filter_map(|p| match p {
            Publication::Error(e) => Some(*e),
            _ => None,
        })
        .collect()
}

fn fields(url: Option<&str>, title: Option<&str>, thumb: Option<&str>) -> SongFields {
    SongFields {
        url: url.map(|s| s.to_string()),
        title: title.map(|s| s.to_string()),
        thumbnail_b64: thumb.map(|s| s.to_string()),
    }
}

fn owned(s: &[&str]) -> Vec<String> {
    s.iter().map(|x| x.to_string()).collect()
}

#[test]
fn add_remove_scenario_plays_and_stops() {
    let mut p = Playlists::new();
    let r = p.add_song("kitchen", song("a.mp4"));
    assert_eq!(r.len(), 2);
    assert_eq!(state_of(&r[0]), Some(("kitchen".to_string(), owned(&["a.mp4"]))));
    assert_eq!(plays(&r), owned(&["a.mp4"]));

    let r = p.add_song("kitchen", song("b.mp4"));
    assert_eq!(r.len(), 1);
    assert_eq!(state_of(&r[0]), Some(("kitchen".to_string(), owned(&["a.mp4", "b.mp4"]))));
    assert!(plays(&r).is_empty());

    let r = p.remove_song("kitchen", 0);
    assert_eq!(state_of(&r[0]), Some(("kitchen".to_string(), owned(&["b.mp4"]))));
    assert_eq!(plays(&r), owned(&["b.mp4"]));
    assert_eq!(stops(&r), 0);

    let r = p.remove_song("kitchen", 0);
    assert_eq!(state_of(&r[0]), Some(("kitchen".to_string(), Vec::new())));
    assert!(plays(&r).is_empty());
    assert_eq!(stops(&r), 1);
    assert!(matches!(&r[1], Publication::Stop { device_id } if device_id == "kitchen"));
}

#[test]
fn insert_at_head_plays_new_head() {
    let mut p = Playlists::new();
    p.add_song("d", song("a"));
    let r = p.insert_song("d", song("z"), 0);
    assert_eq!(state_of(&r[0]).unwrap().1, owned(&["z", "a"]));
    assert_eq!(plays(&r), owned(&["z"]));
    assert_eq!(stops(&r), 0);
}

#[test]
fn insert_in_middle_publishes_state_only() {
    let mut p = Playlists::new();
    p.add_song("d", song("a"));
    p.add_song("d", song("c"));
    let r = p.insert_song("d", song("b"), 1);
    assert_eq!(r.len(), 1);
    assert_eq!(state_of(&r[0]).unwrap().1, owned(&["a", "b", "c"]));
}

#[test]
fn insert_past_end_is_usage_error() {
    let mut p = Playlists::new();
    p.add_song("d", song("a"));
    let r = p.insert_song("d", song("b"), 2);
    assert_eq!(errors(&r), vec![PlaylistError::IndexOutOfRange]);
    assert_eq!(r.len(), 1);
    assert_eq!(urls(&p.query_state("d")), owned(&["a"]));
}

#[test]
fn insert_at_end_appends() {
    let mut p = Playlists::new();
    p.add_song("d", song("a"));
    let r = p.insert_song("d", song("b"), 1);
    assert_eq!(state_of(&r[0]).unwrap().1, owned(&["a", "b"]));
}

#[test]
fn remove_out_of_range_leaves_queue() {
    let mut p = Playlists::new();
    p.add_song("d", song("a"));
    p.add_song("d", song("b"));
    let r = p.remove_song("d", 2);
    assert_eq!(errors(&r), vec![PlaylistError::IndexOutOfRange]);
    assert_eq!(r.len(), 1);
    assert_eq!(urls(&p.query_state("d")), owned(&["a", "b"]));
    let r = p.remove_song("empty", 0);
    assert_eq!(errors(&r), vec![PlaylistError::IndexOutOfRange]);
    assert!(p.query_state("empty").is_empty());
}

#[test]
fn remove_later_index_keeps_head() {
    let mut p = Playlists::new();
    p.add_song("d", song("a"));
    p.add_song("d", song("b"));
    let r = p.remove_song("d", 1);
    assert_eq!(r.len(), 1);
    assert_eq!(state_of(&r[0]).unwrap().1, owned(&["a"]));
}

#[test]
fn replace_head_plays_it() {
    let mut p = Playlists::new();
    p.add_song("d", song("a"));
    p.add_song("d", song("b"));
    let r = p.replace_song("d", song("x"), 0);
    assert_eq!(state_of(&r[0]).unwrap().1, owned(&["x", "b"]));
    assert_eq!(plays(&r), owned(&["x"]));
}

#[test]
fn replace_past_end_appends() {
    let mut p = Playlists::new();
    p.add_song("d", song("a"));
    let r = p.replace_song("d", song("x"), 7);
    assert_eq!(state_of(&r[0]).unwrap().1, owned(&["a", "x"]));
    assert!(plays(&r).is_empty());
    let r = p.replace_song("fresh", song("y"), 0);
    assert_eq!(state_of(&r[0]).unwrap().1, owned(&["y"]));
    assert_eq!(plays(&r), owned(&["y"]));
}

#[test]
fn finished_advances_then_stops() {
    let mut p = Playlists::new();
    p.add_song("d", song("a"));
    p.add_song("d", song("b"));
    let r = p.on_playback_finished("d");
    assert_eq!(state_of(&r[0]).unwrap().1, owned(&["b"]));
    assert_eq!(plays(&r), owned(&["b"]));
    let r = p.on_playback_finished("d");
    assert_eq!(state_of(&r[0]).unwrap().1, Vec::<String>::new());
    assert_eq!(stops(&r), 1);
}

#[test]
fn finished_on_empty_queue_does_nothing() {
    let mut p = Playlists::new();
    assert!(p.on_playback_finished("d").is_empty());
    p.add_song("d", song("a"));
    p.remove_song("d", 0);
    assert!(p.on_playback_finished("d").is_empty());
    assert!(p.query_state("d").is_empty());
}

#[test]
fn state_follows_every_mutation() {
    let mut p = Playlists::new();
    let mut last = Vec::new();
    let steps: Vec<Vec<Publication>> = vec![
        p.add_song("d", song("a")),
        p.add_song("d", song("b")),
        p.insert_song("d", song("c"), 1),
        p.replace_song("d", song("e"), 2),
        p.remove_song("d", 9),
        p.remove_song("d", 0),
        p.on_playback_finished("d"),
    ];
    for r in &steps {
        for pb in r {
            if let Some((_, s)) = state_of(pb) {
                last = s;
            }
        }
    }
    assert_eq!(last, urls(&p.query_state("d")));
    assert_eq!(last, owned(&["e"]));
}

#[test]
fn devices_have_separate_queues() {
    let mut p = Playlists::new();
    p.add_song("a", song("1"));
    p.add_song("b", song("2"));
    p.add_song("a", song("3"));
    assert_eq!(urls(&p.query_state("a")), owned(&["1", "3"]));
    assert_eq!(urls(&p.query_state("b")), owned(&["2"]));
    assert!(p.query_state("c").is_empty());
}

#[test]
fn command_without_device_is_reported() {
    let mut p = Playlists::new();
    let r = p.handle_command(PlaylistCommand {
        device_id: None,
        command: PlaylistCommandContent::RemoveSong { index: 0 },
    });
    assert_eq!(errors(&r), vec![PlaylistError::MissingDeviceId]);
    assert_eq!(PlaylistError::MissingDeviceId.message(), "Device id is none");
    assert_eq!(PlaylistError::MissingDeviceId.from_component(), "playlist");
}

#[test]
fn command_song_fields_are_checked() {
    let mut p = Playlists::new();
    let r = p.handle_command(PlaylistCommand {
        device_id: Some("d".to_string()),
        command: PlaylistCommandContent::AddSong { song: None },
    });
    assert_eq!(errors(&r), vec![PlaylistError::MissingSong]);
    let r = p.handle_command(PlaylistCommand {
        device_id: Some("d".to_string()),
        command: PlaylistCommandContent::AddSong { song: Some(fields(None, None, None)) },
    });
    assert_eq!(
        errors(&r),
        vec![PlaylistError::MissingTitle, PlaylistError::MissingUrl, PlaylistError::MissingThumbnail]
    );
    let r = p.handle_command(PlaylistCommand {
        device_id: Some("d".to_string()),
        command: PlaylistCommandContent::InsertSong { song: Some(fields(Some("u"), Some("t"), None)), index: 0 },
    });
    assert_eq!(errors(&r), vec![PlaylistError::MissingThumbnail]);
    assert!(p.query_state("d").is_empty());
    let r = p.handle_command(PlaylistCommand {
        device_id: Some("d".to_string()),
        command: PlaylistCommandContent::ReplaceSong { song: Some(fields(Some("u"), Some("t"), Some("x"))), index: 0 },
    });
    assert_eq!(plays(&r), owned(&["u"]));
    assert_eq!(p.query_state("d")[0].title, "t");
    assert_eq!(p.query_state("d")[0].thumbnail_b64, "x");
}

#[test]
fn unknown_command_and_query_types_are_reported() {
    let mut p = Playlists::new();
    let r = p.handle_command(PlaylistCommand { device_id: Some("d".to_string()), command: PlaylistCommandContent::Unknown(9) });
    assert_eq!(errors(&r), vec![PlaylistError::InvalidCommandType]);
    let r = p.handle_command(PlaylistCommand { device_id: Some("d".to_string()), command: PlaylistCommandContent::Empty });
    assert_eq!(errors(&r), vec![PlaylistError::InvalidCommandType]);
    let r = p.handle_query(&PlaylistQuery { device_id: Some("d".to_string()), query: PlaylistQueryContent::Unknown(4) });
    assert_eq!(errors(&r), vec![PlaylistError::InvalidQueryType]);
    assert_eq!(PlaylistError::InvalidQueryType.message(), "Invalid query type");
}

#[test]
fn query_publishes_state() {
    let mut p = Playlists::new();
    p.add_song("d", song("a"));
    let r = p.handle_query(&PlaylistQuery { device_id: Some("d".to_string()), query: PlaylistQueryContent::QueryPlaylistState });
    assert_eq!(r.len(), 1);
    assert_eq!(state_of(&r[0]), Some(("d".to_string(), owned(&["a"]))));
    assert_eq!(r[0].topic(), "playlist.event");
    let r = p.handle_query(&PlaylistQuery { device_id: None, query: PlaylistQueryContent::QueryPlaylistState });
    assert_eq!(errors(&r), vec![PlaylistError::MissingDeviceId]);
    assert_eq!(r[0].topic(), "error");
}

#[test]
fn file_ended_event_advances_queue() {
    let mut p = Playlists::new();
    p.add_song("d", song("a"));
    p.add_song("d", song("b"));
    let msg = Message {
        timestamp: 5,
        content: MessageContent::SpeakerEvent(Some(SpeakerEvent { device_id: Some("d".to_string()), event: SpeakerEventContent::FileEnded })),
    };
    let r = p.handle_message(msg);
    assert_eq!(plays(&r), owned(&["b"]));
    assert_eq!(r[1].topic(), "speaker.command");
    let r = p.handle_speaker_event(&SpeakerEvent { device_id: Some("d".to_string()), event: SpeakerEventContent::PlayStopped });
    assert!(r.is_empty());
    let r = p.handle_speaker_event(&SpeakerEvent { device_id: None, event: SpeakerEventContent::FileEnded });
    assert_eq!(errors(&r), vec![PlaylistError::MissingDeviceId]);
}

#[test]
fn message_without_content_is_reported() {
    let mut p = Playlists::new();
    let r = p.handle_message(Message { timestamp: 0, content: MessageContent::PlaylistCommand(None) });
    assert_eq!(errors(&r), vec![PlaylistError::MissingContent]);
    let r = p.handle_message(Message { timestamp: 0, content: MessageContent::SpeakerListQuery });
    assert!(r.is_empty());
    let r = p.handle_message(Message {
        timestamp: 0,
        content: MessageContent::PlaylistQuery(Some(PlaylistQuery { device_id: Some("q".to_string()), query: PlaylistQueryContent::Empty })),
    });
    assert_eq!(errors(&r), vec![PlaylistError::InvalidQueryType]);
}

#[test]
fn search_result_becomes_queue_entry() {
    let s = Song::new("https://www.youtube.com/watch?v=x", "data:image/jpeg;base64,AA", "X");
    let e = s.to_queue_entry();
    assert_eq!(e.url, "https://www.youtube.com/watch?v=x");
    assert_eq!(e.title, "X");
    assert_eq!(e.thumbnail_b64, "data:image/jpeg;base64,AA");
    let d = e.duplicate();
    assert_eq!(d.url, e.url);
}
