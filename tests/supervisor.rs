use multiroom::devices::{select_pcm_devices, is_wanted_device, DeviceHint, Direction};
use multiroom::message::{
    Message, MessageContent, Play, PlayContent, PlayYoutube, SpeakerCommand, SpeakerCommandContent,
    SpeakerQuery, SpeakerQueryContent,
};
use multiroom::message::SpeakerEventContent;
use multiroom::supervisor::{property_event, Action, PlayerCommand, PlayerPhase, SpeakerPublication, MpvHandler, StartOutcome};

fn ids(v: &[&str]) -> Vec<String> {
    v.iter().map(|s| s.to_string()).collect()
}

fn play(device: &str, url: &str) -> SpeakerCommand {
    SpeakerCommand {
        device_id: Some(device.to_string()),
        command: SpeakerCommandContent::Play(Some(Play {
            content: PlayContent::PlayYoutube(Some(PlayYoutube { url: Some(url.to_string()) })),
        })),
    }
}

fn command(device: &str, c: SpeakerCommandContent) -> SpeakerCommand {
    SpeakerCommand { device_id: Some(device.to_string()), command: c }
}

fn error_text(a: &[Action]) -> Vec<String> {
    a.iter()
        .filter_map(|x| match x {
            Action::Publish(SpeakerPublication::Error(e)) => Some(e.clone()),
            _ => None,
        })
        .collect()
}

fn ready_speakers(device: &str) -> MpvHandler {
    let mut s = MpvHandler::new();
    s.refresh(&ids(&[device]));
    s.handle_speaker_command(play(device, "u"));
    s.player_started(device, StartOutcome::Connected);
    s
}

#[test]
fn connect_timeout_reports_and_stop_is_quiet() {
    let mut s = MpvHandler::new();
    s.refresh(&ids(&["hw"]));
    let a = s.handle_speaker_command(play("hw", "https://x/y"));
    assert_eq!(a.len(), 1);
    assert!(matches!(&a[0], Action::Spawn { device_id, url } if device_id == "hw" && url == "https://x/y"));
    let a = s.player_started("hw", StartOutcome::TimedOut);
    assert_eq!(error_text(&a), vec!["Timeout waiting for mpv socket".to_string()]);
    assert_eq!(a.len(), 1);
    assert_eq!(SpeakerPublication::Error(String::new()).from_component(), "speaker");
    let (_, phase) = s.device("hw").unwrap();
    assert_ne!(phase, PlayerPhase::Ready);
    let a = s.handle_speaker_command(command("hw", SpeakerCommandContent::Stop));
    assert!(error_text(&a).is_empty());
    assert!(!a.iter().any(|x| matches!(x, Action::Publish(_))));
    assert_eq!(s.device("hw").unwrap().1, PlayerPhase::Idle);
    let a = s.handle_speaker_command(command("hw", SpeakerCommandContent::Stop));
    assert!(a.is_empty());
}

#[test]
fn connected_player_gets_volume() {
    let mut s = MpvHandler::new();
    s.refresh(&ids(&["hw"]));
    s.handle_speaker_command(play("hw", "u"));
    let a = s.player_started("hw", StartOutcome::Connected);
    assert_eq!(a.len(), 1);
    match &a[0] {
        Action::Send { device_id, command: PlayerCommand::SetProperty(p, v) } => {
            assert_eq!(device_id, "hw");
            assert_eq!(p, "volume");
            assert_eq!(v, "100");
        }
        _ => panic!("expected a volume command"),
    }
    assert_eq!(s.device("hw").unwrap(), ("100".to_string(), PlayerPhase::Ready));
}

#[test]
fn play_on_running_device_kills_first() {
    let mut s = ready_speakers("hw");
    let a = s.handle_speaker_command(play("hw", "next"));
    assert_eq!(a.len(), 2);
    assert!(matches!(&a[0], Action::Kill { device_id } if device_id == "hw"));
    assert!(matches!(&a[1], Action::Spawn { url, .. } if url == "next"));
    assert_eq!(s.device("hw").unwrap().1, PlayerPhase::Starting);
}

#[test]
fn stop_on_ready_player_publishes_stopped() {
    let mut s = ready_speakers("hw");
    let a = s.handle_speaker_command(command("hw", SpeakerCommandContent::Stop));
    assert_eq!(a.len(), 2);
    assert!(matches!(&a[0], Action::Kill { .. }));
    assert!(matches!(&a[1], Action::Publish(SpeakerPublication::PlayStopped { device_id }) if device_id == "hw"));
    assert_eq!(s.device("hw").unwrap().1, PlayerPhase::Idle);
}

#[test]
fn volume_is_kept_and_forwarded() {
    let mut s = MpvHandler::new();
    s.refresh(&ids(&["hw"]));
    let a = s.handle_speaker_command(command("hw", SpeakerCommandContent::SetMusicVolume(Some("40".to_string()))));
    assert!(a.is_empty());
    assert_eq!(s.device("hw").unwrap().0, "40");
    s.handle_speaker_command(play("hw", "u"));
    let a = s.player_started("hw", StartOutcome::Connected);
    assert!(matches!(&a[0], Action::Send { command: PlayerCommand::SetProperty(_, v), .. } if v == "40"));
    let a = s.handle_speaker_command(command("hw", SpeakerCommandContent::SetMusicVolume(Some("70".to_string()))));
    assert_eq!(a.len(), 2);
    assert_eq!(a[0].clone_line(5), "{\"command\":[\"set_property\",\"volume\",70],\"request_id\":5}\n");
    assert_eq!(a[1].clone_line(6), "{\"command\":[\"get_property\",\"volume\"],\"request_id\":6}\n");
}

trait LineOf {
    fn clone_line(&self, id: u64) -> String;
}

impl LineOf for Action {
    fn clone_line(&self, id: u64) -> String {
        match self {
            Action::Send { command, .. } => command.line(id).unwrap(),
            _ => String::new(),
        }
    }
}

#[test]
fn seek_needs_a_player() {
    let mut s = MpvHandler::new();
    s.refresh(&ids(&["hw"]));
    let a = s.handle_speaker_command(command("hw", SpeakerCommandContent::Seek(Some("12.5".to_string()))));
    assert_eq!(error_text(&a), vec!["No active player".to_string()]);
    let mut s = ready_speakers("hw");
    let a = s.handle_speaker_command(command("hw", SpeakerCommandContent::Seek(Some("12.5".to_string()))));
    assert_eq!(a[0].clone_line(9), "{\"command\":[\"set_property\",\"time-pos\",12.5],\"request_id\":9}\n");
    let a = s.handle_speaker_command(command("hw", SpeakerCommandContent::Seek(None)));
    assert_eq!(error_text(&a), vec!["No seek command".to_string()]);
}

#[test]
fn command_errors_are_reported() {
    let mut s = MpvHandler::new();
    s.refresh(&ids(&["hw"]));
    let a = s.handle_speaker_command(SpeakerCommand { device_id: None, command: SpeakerCommandContent::Stop });
    assert_eq!(error_text(&a), vec!["No device_id".to_string()]);
    let a = s.handle_speaker_command(command("other", SpeakerCommandContent::Stop));
    assert_eq!(error_text(&a), vec!["Device does not exist".to_string()]);
    let a = s.handle_speaker_command(command("hw", SpeakerCommandContent::SetMusicVolume(None)));
    assert_eq!(error_text(&a), vec!["No volume".to_string()]);
    let a = s.handle_speaker_command(command("hw", SpeakerCommandContent::Unknown(40)));
    assert_eq!(error_text(&a), vec!["Unknown command".to_string()]);
    let a = s.handle_speaker_command(command("hw", SpeakerCommandContent::Play(None)));
    assert_eq!(error_text(&a), vec!["No play command".to_string()]);
    let a = s.handle_speaker_command(command("hw", SpeakerCommandContent::Play(Some(Play { content: PlayContent::PlayWav }))));
    assert_eq!(error_text(&a), vec!["Unsupported play content".to_string()]);
    let a = s.handle_speaker_command(command("hw", SpeakerCommandContent::Play(Some(Play { content: PlayContent::PlayYoutube(None) }))));
    assert_eq!(error_text(&a), vec!["No YouTube URL".to_string()]);
    let a = s.handle_speaker_command(command(
        "hw",
        SpeakerCommandContent::Play(Some(Play { content: PlayContent::PlayYoutube(Some(PlayYoutube { url: None })) })),
    ));
    assert_eq!(error_text(&a), vec!["URL is None".to_string()]);
    assert!(s.handle_speaker_command(command("hw", SpeakerCommandContent::TogglePause)).is_empty());
}

#[test]
fn spawn_failure_returns_to_idle() {
    let mut s = MpvHandler::new();
    s.refresh(&ids(&["hw"]));
    s.handle_speaker_command(play("hw", "u"));
    let a = s.player_started("hw", StartOutcome::Failed("no such file".to_string()));
    assert_eq!(error_text(&a), vec!["no such file".to_string()]);
    assert_eq!(s.device("hw").unwrap().1, PlayerPhase::Idle);
    assert!(s.player_started("hw", StartOutcome::Connected).is_empty());
}

#[test]
fn queries_need_a_ready_player() {
    let s = ready_speakers("hw");
    let a = s.handle_speaker_query(&SpeakerQuery { device_id: Some("hw".to_string()), query: SpeakerQueryContent::QueryDuration });
    assert_eq!(a[0].clone_line(3), "{\"command\":[\"get_property\",\"duration\"],\"request_id\":3}\n");
    let a = s.handle_speaker_query(&SpeakerQuery { device_id: Some("hw".to_string()), query: SpeakerQueryContent::QueryPause });
    assert_eq!(error_text(&a), vec!["Unknown query".to_string()]);
    let mut idle = MpvHandler::new();
    idle.refresh(&ids(&["hw"]));
    let a = idle.handle_speaker_query(&SpeakerQuery { device_id: Some("hw".to_string()), query: SpeakerQueryContent::QuerySeek });
    assert_eq!(error_text(&a), vec!["No mpv process".to_string()]);
}

#[test]
fn refresh_reconciles_devices() {
    let mut s = ready_speakers("a");
    let gone = s.refresh(&ids(&["b", "c", "b"]));
    assert_eq!(gone, ids(&["a"]));
    assert!(s.device("a").is_none());
    assert_eq!(s.device("b").unwrap(), ("100".to_string(), PlayerPhase::Idle));
    let gone = s.refresh(&ids(&["c"]));
    assert!(gone.is_empty());
    assert!(s.device("b").is_none());
    assert!(s.device("c").is_some());
}

#[test]
fn list_query_refreshes_and_publishes() {
    let mut s = ready_speakers("a");
    let msg = Message { timestamp: 1, content: MessageContent::SpeakerListQuery };
    let a = s.handle_message(&ids(&["b"]), msg);
    assert_eq!(a.len(), 2);
    assert!(matches!(&a[0], Action::Kill { device_id } if device_id == "a"));
    assert!(matches!(&a[1], Action::Publish(SpeakerPublication::SpeakerList(l)) if *l == ids(&["b"])));
    let msg = Message { timestamp: 1, content: MessageContent::SpeakerCommand(Some(play("b", "u"))) };
    let a = s.handle_message(&ids(&["b"]), msg);
    assert!(matches!(&a[0], Action::Spawn { .. }));
    let a = s.handle_message(&ids(&["b"]), Message { timestamp: 1, content: MessageContent::SpeakerQuery(None) });
    assert_eq!(error_text(&a), vec!["Content is none".to_string()]);
}

fn hint(name: &str, desc: &str, direction: Option<Direction>) -> DeviceHint {
    DeviceHint { name: Some(name.to_string()), desc: Some(desc.to_string()), direction }
}

#[test]
fn device_filter_policy() {
    assert!(is_wanted_device(&hint("plughw:CARD=PCH,DEV=0", "HDA Intel PCH", None), Direction::Playback));
    assert!(!is_wanted_device(&hint("hw:CARD=PCH,DEV=0", "HDA Intel PCH", None), Direction::Playback));
    assert!(!is_wanted_device(&hint("plughw:CARD=NVidia,DEV=3", "HDMI", None), Direction::Playback));
    assert!(!is_wanted_device(&hint("plughw:CARD=PCH,DEV=2", "HDA Intel PCH Alt Analog", None), Direction::Playback));
    assert!(!is_wanted_device(&hint("plughw:CARD=PCH,DEV=0", "Mic", Some(Direction::Capture)), Direction::Playback));
    assert!(is_wanted_device(&hint("plughw:CARD=PCH,DEV=0", "Out", Some(Direction::Playback)), Direction::Playback));
    assert!(!is_wanted_device(&DeviceHint { name: None, desc: None, direction: None }, Direction::Playback));
}

#[test]
fn device_selection_dedups_in_order() {
    let hints = vec![
        hint("plughw:CARD=B,DEV=0", "b", None),
        hint("default", "Default", None),
        hint("plughw:CARD=A,DEV=0", "a", Some(Direction::Playback)),
        hint("plughw:CARD=B,DEV=0", "b again", None),
        hint("plughw:CARD=NVidia,DEV=3", "hdmi", None),
    ];
    assert_eq!(select_pcm_devices(&hints, Direction::Playback), ids(&["plughw:CARD=B,DEV=0", "plughw:CARD=A,DEV=0"]));
    assert!(select_pcm_devices(&Vec::new(), Direction::Playback).is_empty());
}

#[test]
fn replies_map_to_speaker_events() {
    assert!(matches!(property_event("volume", "80".to_string()), Some(SpeakerEventContent::MusicVolumeChanged(Some(v))) if v == "80"));
    assert!(matches!(property_event("time-pos", "1.5".to_string()), Some(SpeakerEventContent::SeekChanged(Some(v))) if v == "1.5"));
    assert!(matches!(property_event("duration", "300".to_string()), Some(SpeakerEventContent::DurationChanged(Some(v))) if v == "300"));
    assert!(property_event("mute", "1".to_string()).is_none());
}

#[test]
fn list_query_alone_publishes_list() {
    let mut s = MpvHandler::new();
    let a = s.handle_speaker_list_query(&ids(&["x", "y"]));
    assert_eq!(a.len(), 1);
    assert!(matches!(&a[0], Action::Publish(SpeakerPublication::SpeakerList(l)) if *l == ids(&["x", "y"])));
    assert!(s.device("x").is_some() && s.device("y").is_some());
}

#[test]
fn unknown_properties_and_bad_numbers_are_refused() {
    assert_eq!(PlayerCommand::GetProperty("speed".to_string()).line(1), Err("Property not found"));
    assert_eq!(PlayerCommand::SetProperty("speed".to_string(), "2".to_string()).line(1), Err("Property not found"));
    assert_eq!(PlayerCommand::SetProperty("volume".to_string(), "1,\"x\"".to_string()).line(1), Err("Invalid number"));
    assert_eq!(PlayerCommand::SetProperty("volume".to_string(), "NaN".to_string()).check(), Err("Invalid number"));
    assert_eq!(PlayerCommand::GetProperty("mute".to_string()).check(), Ok(()));
    assert_eq!(
        PlayerCommand::SetProperty("time-pos".to_string(), "-0.25".to_string()).line(4),
        Ok("{\"command\":[\"set_property\",\"time-pos\",-0.25],\"request_id\":4}\n".to_string())
    );
    assert_eq!(PlayerCommand::SetProperty("volume".to_string(), "07".to_string()).check(), Err("Invalid number"));
    assert_eq!(PlayerCommand::SetProperty("volume".to_string(), "7.".to_string()).check(), Err("Invalid number"));
    assert_eq!(PlayerCommand::SetProperty("volume".to_string(), "0.5".to_string()).check(), Ok(()));
}

#[test]
fn volume_and_seek_must_be_numbers() {
    let mut s = ready_speakers("hw");
    let a = s.handle_speaker_command(command("hw", SpeakerCommandContent::SetMusicVolume(Some("loud".to_string()))));
    assert_eq!(error_text(&a), vec!["Invalid volume".to_string()]);
    assert_eq!(s.device("hw").unwrap().0, "100");
    let a = s.handle_speaker_command(command("hw", SpeakerCommandContent::Seek(Some("1e3".to_string()))));
    assert_eq!(error_text(&a), vec!["Invalid seek position".to_string()]);
}
