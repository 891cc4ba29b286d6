//! Starting and stopping a player process: its arguments, the path of its
//! control socket, how long the socket is waited for, and the order in which
//! a running player is taken down. Spawning, connecting, sleeping and
//! killing are the caller's part.
use vstd::prelude::*;
use crate::text::{decimal, append_decimal};
use crate::supervisor::strings_view;

verus! {

/// How long a new player has to open its control socket, in milliseconds.
pub const SOCKET_WAIT_MS: u64 = 5000;

/// How long to sleep between two looks for the socket, in milliseconds.
pub const SOCKET_POLL_MS: u64 = 100;

/// What to do after one look for the control socket.
#[derive(Clone, Copy, Debug, PartialEq, Eq, Structural)]
pub enum SocketWait {
    Connected,
    /// Sleep `SOCKET_POLL_MS`, then look again.
    PollAgain,
    GiveUp,
}

/// The decision after a look for the socket, `elapsed_ms` after the spawn.
pub fn socket_wait_step(elapsed_ms: u64, connected: bool) -> (r: SocketWait)
    ensures
        connected ==> r == SocketWait::Connected,
        !connected && elapsed_ms >= SOCKET_WAIT_MS ==> r == SocketWait::GiveUp,
        !connected && elapsed_ms < SOCKET_WAIT_MS ==> r == SocketWait::PollAgain,
{
    if connected {
        SocketWait::Connected
    } else if elapsed_ms >= SOCKET_WAIT_MS {
        SocketWait::GiveUp
    } else {
        SocketWait::PollAgain
    }
}

/// The control socket of a player started at `stamp`, a high-resolution
/// time, so that no two starts share one.
pub fn socket_path(stamp: u64) -> (r: String)
    ensures
        r@ == "/tmp/mpv-socket-"@ + decimal(stamp as nat),
{
    let mut out = "/tmp/mpv-socket-".to_owned();
    append_decimal(&mut out, stamp);
    out
}

/// The arguments of a player of `url` on the ALSA device `device_id`, audio
/// only, listening on `socket_path`.
pub fn player_args(url: &str, device_id: &str, socket_path: &str) -> (r: Vec<String>)
    ensures
        strings_view(r@) == seq![
            url@,
            "--no-video"@,
            "--audio-device=alsa/"@ + device_id@,
            "--input-ipc-server="@ + socket_path@,
        ],
{
    let mut r: Vec<String> = Vec::new();
    r.push(url.to_owned());
    r.push("--no-video".to_owned());
    let mut dev = "--audio-device=alsa/".to_owned();
    dev.append(device_id);
    r.push(dev);
    let mut ipc = "--input-ipc-server=".to_owned();
    ipc.append(socket_path);
    r.push(ipc);
    assert(strings_view(r@) =~= seq![
        url@,
        "--no-video"@,
        "--audio-device=alsa/"@ + device_id@,
        "--input-ipc-server="@ + socket_path@,
    ]);
    r
}

/// One step of taking a player down.
#[derive(Clone, Copy, Debug, PartialEq, Eq, Structural)]
pub enum KillStep {
    /// Tell the connection's reader to stop.
    SignalReader,
    /// Shut the control socket down, which wakes a blocked read.
    ShutdownSocket,
    KillProcess,
    /// Wait until the process is gone.
    WaitExit,
}

/// The steps that take a player down: none for a process that already
/// exited; the socket steps only where a connection is up, and the reader is
/// told before the socket closes, so that the close is not taken for a lost
/// connection.
pub fn kill_plan(exited: bool, connected: bool) -> (r: Vec<KillStep>)
    ensures
        r@ == if exited {
            Seq::<KillStep>::empty()
        } else if connected {
            seq![KillStep::SignalReader, KillStep::ShutdownSocket, KillStep::KillProcess, KillStep::WaitExit]
        } else {
            seq![KillStep::KillProcess, KillStep::WaitExit]
        },
{
    let mut r: Vec<KillStep> = Vec::new();
    if exited {
        return r;
    }
    if connected {
        r.push(KillStep::SignalReader);
        r.push(KillStep::ShutdownSocket);
    }
    r.push(KillStep::KillProcess);
    r.push(KillStep::WaitExit);
    assert(r@ =~= if connected {
        seq![KillStep::SignalReader, KillStep::ShutdownSocket, KillStep::KillProcess, KillStep::WaitExit]
    } else {
        seq![KillStep::KillProcess, KillStep::WaitExit]
    });
    r
}

} // verus!
