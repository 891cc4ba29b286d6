use multiroom::launch::{kill_plan, player_args, socket_path, socket_wait_step, KillStep, SocketWait};

#[test]
fn socket_wait_polls_for_five_seconds() {
    assert_eq!(socket_wait_step(0, true), SocketWait::Connected);
    assert_eq!(socket_wait_step(9000, true), SocketWait::Connected);
    assert_eq!(socket_wait_step(0, false), SocketWait::PollAgain);
    assert_eq!(socket_wait_step(4999, false), SocketWait::PollAgain);
    assert_eq!(socket_wait_step(5000, false), SocketWait::GiveUp);
}

#[test]
fn socket_path_carries_stamp() {
    assert_eq!(socket_path(1712345678901234567), "/tmp/mpv-socket-1712345678901234567");
    assert_eq!(socket_path(0), "/tmp/mpv-socket-0");
}

#[test]
fn player_arguments() {
    assert_eq!(
        player_args("https://y/1", "plughw:CARD=A,DEV=0", "/tmp/mpv-socket-7"),
        vec![
            "https://y/1".to_string(),
            "--no-video".to_string(),
            "--audio-device=alsa/plughw:CARD=A,DEV=0".to_string(),
            "--input-ipc-server=/tmp/mpv-socket-7".to_string(),
        ]
    );
}

#[test]
fn kill_order() {
    assert!(kill_plan(true, true).is_empty());
    assert_eq!(
        kill_plan(false, true),
        vec![KillStep::SignalReader, KillStep::ShutdownSocket, KillStep::KillProcess, KillStep::WaitExit]
    );
    assert_eq!(kill_plan(false, false), vec![KillStep::KillProcess, KillStep::WaitExit]);
}
