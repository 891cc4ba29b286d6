//! The speaker service's decisions. It keeps, for each playback device, the
//! music volume and whether a player process runs for it, and turns commands
//! into actions that the caller carries out: kill or spawn a player, send a
//! command on its control connection, publish on the bus.
use vstd::prelude::*;
use crate::protocol::{CommandArg, command_line, command_text, json_quoted};
use crate::text::{decimal_number, is_decimal_number};
use crate::message::{
    Message, MessageContent, PlayContent, SpeakerCommand, SpeakerCommandContent, SpeakerEventContent,
    SpeakerQuery, SpeakerQueryContent,
};

verus! {

/// Where the player of a device stands.
#[derive(Clone, Copy, Debug, PartialEq, Eq, Structural)]
pub enum PlayerPhase {
    /// No process runs.
    Idle,
    /// A process was spawned but its control socket is not connected.
    Starting,
    /// A process runs and its control connection is up.
    Ready,
}

pub struct DeviceView {
    /// The music volume, as decimal text.
    pub volume: Seq<char>,
    pub phase: PlayerPhase,
}

/// One playback device.
pub struct DeviceState {
    pub device_id: String,
    /// The music volume, as decimal text.
    pub music_volume: String,
    pub phase: PlayerPhase,
}

/// The volume of a device seen for the first time.
pub open spec fn default_volume() -> Seq<char> {
    "100"@
}

pub open spec fn fresh_device() -> DeviceView {
    DeviceView { volume: default_volume(), phase: PlayerPhase::Idle }
}

fn default_volume_text() -> (r: String)
    ensures
        r@ == default_volume(),
{
    "100".to_owned()
}

/// The devices after the device list `present` was observed: those no longer
/// listed are gone, new ones start idle at the default volume, the others
/// keep their state.
pub open spec fn refreshed(m: Map<Seq<char>, DeviceView>, present: Seq<Seq<char>>) -> Map<Seq<char>, DeviceView> {
    Map::new(
        |d: Seq<char>| present.contains(d),
        |d: Seq<char>| if m.contains_key(d) { m[d] } else { fresh_device() },
    )
}

/// The devices that left the list while a player process was theirs.
pub open spec fn orphaned(m: Map<Seq<char>, DeviceView>, present: Seq<Seq<char>>) -> Set<Seq<char>> {
    Set::new(|d: Seq<char>| m.contains_key(d) && !present.contains(d) && m[d].phase != PlayerPhase::Idle)
}

pub open spec fn strings_view(s: Seq<String>) -> Seq<Seq<char>> {
    s.map_values(|x: String| x@)
}


/// A command to send on a player's control connection.
pub enum PlayerCommand {
    /// Ask for a property; the reply carries its value.
    GetProperty(String),
    /// Set a property to a number, given as decimal text.
    SetProperty(String, String),
}

pub enum PlayerCommandView {
    Query(Seq<char>),
    Assign(Seq<char>, Seq<char>),
}

impl View for PlayerCommand {
    type V = PlayerCommandView;

    open spec fn view(&self) -> PlayerCommandView {
        match self {
            PlayerCommand::GetProperty(p) => PlayerCommandView::Query(p@),
            PlayerCommand::SetProperty(p, v) => PlayerCommandView::Assign(p@, v@),
        }
    }
}

/// The control line for a player command.
pub open spec fn player_command_text(c: PlayerCommandView, request_id: nat) -> Seq<char> {
    match c {
        PlayerCommandView::Query(p) => "{\"command\":["@ + json_quoted("get_property"@) + ","@ + json_quoted(p)
            + "],\"request_id\":"@ + crate::text::decimal(request_id) + "}\n"@,
        PlayerCommandView::Assign(p, v) => "{\"command\":["@ + json_quoted("set_property"@) + ","@ + json_quoted(p)
            + ","@ + v + "],\"request_id\":"@ + crate::text::decimal(request_id) + "}\n"@,
    }
}

/// The properties of the player that commands may name.
pub open spec fn known_property(p: Seq<char>) -> bool {
    p == "volume"@ || p == "mute"@ || p == "pause"@ || p == "time-pos"@ || p == "duration"@ || p == "filename"@
}

/// Why a command cannot be sent, if it cannot: an unknown property, or a
/// value that is not a decimal number.
pub open spec fn command_problem(c: PlayerCommandView) -> Option<Seq<char>> {
    match c {
        PlayerCommandView::Query(p) => if known_property(p) {
            None
        } else {
            Some("Property not found"@)
        },
        PlayerCommandView::Assign(p, v) => if !known_property(p) {
            Some("Property not found"@)
        } else if !decimal_number(v) {
            Some("Invalid number"@)
        } else {
            None
        },
    }
}

fn is_known_property(p: &String) -> (r: bool)
    ensures
        r == known_property(p@),
{
    *p == "volume".to_owned() || *p == "mute".to_owned() || *p == "pause".to_owned()
        || *p == "time-pos".to_owned() || *p == "duration".to_owned() || *p == "filename".to_owned()
}

impl PlayerCommand {
    /// Whether the command can be sent, and why not.
    pub fn check(&self) -> (r: Result<(), &'static str>)
        ensures
            r is Ok <==> command_problem(self@) is None,
            r matches Err(e) ==> command_problem(self@) == Some(e@),
    {
        match self {
            PlayerCommand::GetProperty(p) => if is_known_property(p) {
                Ok(())
            } else {
                Err("Property not found")
            },
            PlayerCommand::SetProperty(p, v) => if !is_known_property(p) {
                Err("Property not found")
            } else if !is_decimal_number(v.as_str()) {
                Err("Invalid number")
            } else {
                Ok(())
            },
        }
    }

    /// The line that sends this command under `request_id`; a command naming
    /// an unknown property, or setting one to something other than a number,
    /// is refused and nothing is written.
    pub fn line(&self, request_id: u64) -> (r: Result<String, &'static str>)
        ensures
            match command_problem(self@) {
                None => r matches Ok(t) && t@ == player_command_text(self@, request_id as nat),
                Some(e) => r matches Err(x) && x@ == e,
            },
    {
        if let Err(e) = self.check() {
            return Err(e);
        }
        Ok(self.text(request_id))
    }

    fn text(&self, request_id: u64) -> (r: String)
        ensures
            r@ == player_command_text(self@, request_id as nat),
    {
        let mut args: Vec<CommandArg> = Vec::new();
        match self {
            PlayerCommand::GetProperty(p) => {
                args.push(CommandArg::Name(p.clone()));
                let r = command_line("get_property", &args, request_id);
                proof {
                    reveal_with_fuel(crate::protocol::args_text, 2);
                    assert(args@.drop_last() =~= Seq::<CommandArg>::empty());
                    assert(r@ =~= player_command_text(self@, request_id as nat));
                }
                r
            },
            PlayerCommand::SetProperty(p, v) => {
                args.push(CommandArg::Name(p.clone()));
                args.push(CommandArg::Number(v.clone()));
                let r = command_line("set_property", &args, request_id);
                proof {
                    reveal_with_fuel(crate::protocol::args_text, 3);
                    assert(args@.drop_last().drop_last() =~= Seq::<CommandArg>::empty());
                    assert(args@.drop_last() =~= seq![args@[0]]);
                    assert(r@ =~= player_command_text(self@, request_id as nat));
                }
                r
            },
        }
    }
}

/// What the speaker service publishes.
pub enum SpeakerPublication {
    /// The playback devices found.
    SpeakerList(Vec<String>),
    /// The player of a device was stopped.
    PlayStopped { device_id: String },
    /// A failure, reported as coming from the speaker service.
    Error(String),
}

pub enum SpeakerPublicationView {
    SpeakerList(Seq<Seq<char>>),
    PlayStopped(Seq<char>),
    Error(Seq<char>),
}

impl View for SpeakerPublication {
    type V = SpeakerPublicationView;

    open spec fn view(&self) -> SpeakerPublicationView {
        match self {
            SpeakerPublication::SpeakerList(l) => SpeakerPublicationView::SpeakerList(strings_view(l@)),
            SpeakerPublication::PlayStopped { device_id } => SpeakerPublicationView::PlayStopped(device_id@),
            SpeakerPublication::Error(e) => SpeakerPublicationView::Error(e@),
        }
    }
}

impl SpeakerPublication {
    /// The component named as the origin of an error.
    pub fn from_component(&self) -> (r: &'static str)
        ensures
            r@ == "speaker"@,
    {
        "speaker"
    }
}

/// A step for the caller to carry out, in order.
pub enum Action {
    /// Kill the player process of the device and wait until it is gone.
    Kill { device_id: String },
    /// Spawn a player for the device on this url and connect to it, then
    /// report how that went with `player_started`.
    Spawn { device_id: String, url: String },
    /// Send a command on the device's control connection.
    Send { device_id: String, command: PlayerCommand },
    /// Publish on the speaker topics.
    Publish(SpeakerPublication),
}

pub enum ActionView {
    Kill(Seq<char>),
    Spawn(Seq<char>, Seq<char>),
    Send(Seq<char>, PlayerCommandView),
    Publish(SpeakerPublicationView),
}

impl View for Action {
    type V = ActionView;

    open spec fn view(&self) -> ActionView {
        match self {
            Action::Kill { device_id } => ActionView::Kill(device_id@),
            Action::Spawn { device_id, url } => ActionView::Spawn(device_id@, url@),
            Action::Send { device_id, command } => ActionView::Send(device_id@, command@),
            Action::Publish(p) => ActionView::Publish(p@),
        }
    }
}

pub open spec fn actions_view(a: Seq<Action>) -> Seq<ActionView> {
    a.map_values(|x: Action| x@)
}

pub open spec fn fail(msg: Seq<char>) -> Seq<ActionView> {
    seq![ActionView::Publish(SpeakerPublicationView::Error(msg))]
}

/// The url that a play command names, or the error it is refused with.
pub open spec fn play_url(p: Option<crate::message::Play>) -> Result<Seq<char>, Seq<char>> {
    match p {
        None => Err("No play command"@),
        Some(pl) => match pl.content {
            PlayContent::PlayYoutube(None) => Err("No YouTube URL"@),
            PlayContent::PlayYoutube(Some(y)) => match y.url {
                None => Err("URL is None"@),
                Some(u) => Ok(u@),
            },
            _ => Err("Unsupported play content"@),
        },
    }
}

/// What a speaker command does to the devices, and the actions it asks for.
pub open spec fn command_plan(m: Map<Seq<char>, DeviceView>, c: SpeakerCommand) -> (Map<Seq<char>, DeviceView>, Seq<ActionView>) {
    match c.device_id {
        None => (m, fail("No device_id"@)),
        Some(dv) => {
            let d = dv@;
            if !m.contains_key(d) {
                (m, fail("Device does not exist"@))
            } else {
                let st = m[d];
                match c.command {
                    SpeakerCommandContent::SetMusicVolume(None) => (m, fail("No volume"@)),
                    SpeakerCommandContent::SetMusicVolume(Some(v)) => if !decimal_number(v@) {
                        (m, fail("Invalid volume"@))
                    } else { (
                        m.insert(d, DeviceView { volume: v@, phase: st.phase }),
                        if st.phase == PlayerPhase::Ready {
                            seq![
                                ActionView::Send(d, PlayerCommandView::Assign("volume"@, v@)),
                                ActionView::Send(d, PlayerCommandView::Query("volume"@)),
                            ]
                        } else {
                            Seq::empty()
                        },
                    ) },
                    SpeakerCommandContent::TogglePause => (m, Seq::empty()),
                    SpeakerCommandContent::Play(p) => {
                        let kill = if st.phase != PlayerPhase::Idle { seq![ActionView::Kill(d)] } else { Seq::empty() };
                        match play_url(p) {
                            Ok(url) => (
                                m.insert(d, DeviceView { volume: st.volume, phase: PlayerPhase::Starting }),
                                kill.push(ActionView::Spawn(d, url)),
                            ),
                            Err(e) => (
                                m.insert(d, DeviceView { volume: st.volume, phase: PlayerPhase::Idle }),
                                kill + fail(e),
                            ),
                        }
                    },
                    SpeakerCommandContent::Stop => match st.phase {
                        PlayerPhase::Ready => (
                            m.insert(d, DeviceView { volume: st.volume, phase: PlayerPhase::Idle }),
                            seq![ActionView::Kill(d), ActionView::Publish(SpeakerPublicationView::PlayStopped(d))],
                        ),
                        PlayerPhase::Starting => (
                            m.insert(d, DeviceView { volume: st.volume, phase: PlayerPhase::Idle }),
                            seq![ActionView::Kill(d)],
                        ),
                        PlayerPhase::Idle => (m, Seq::empty()),
                    },
                    SpeakerCommandContent::Seek(None) => (m, fail("No seek command"@)),
                    SpeakerCommandContent::Seek(Some(pos)) => if !decimal_number(pos@) {
                        (m, fail("Invalid seek position"@))
                    } else if st.phase == PlayerPhase::Ready {
                        (m, seq![
                            ActionView::Send(d, PlayerCommandView::Assign("time-pos"@, pos@)),
                            ActionView::Send(d, PlayerCommandView::Query("time-pos"@)),
                        ])
                    } else {
                        (m, fail("No active player"@))
                    },
                    _ => (m, fail("Unknown command"@)),
                }
            }
        },
    }
}

/// The actions a speaker query asks for.
pub open spec fn query_plan(m: Map<Seq<char>, DeviceView>, q: SpeakerQuery) -> Seq<ActionView> {
    match q.device_id {
        None => fail("No device_id"@),
        Some(dv) => {
            let d = dv@;
            if !m.contains_key(d) {
                fail("Device does not exist"@)
            } else if m[d].phase != PlayerPhase::Ready {
                fail("No mpv process"@)
            } else {
                match q.query {
                    SpeakerQueryContent::QueryMusicVolume => seq![ActionView::Send(d, PlayerCommandView::Query("volume"@))],
                    SpeakerQueryContent::QuerySeek => seq![ActionView::Send(d, PlayerCommandView::Query("time-pos"@))],
                    SpeakerQueryContent::QueryDuration => seq![ActionView::Send(d, PlayerCommandView::Query("duration"@))],
                    _ => fail("Unknown query"@),
                }
            }
        },
    }
}

/// How an attempt to start a player ended.
pub enum StartOutcome {
    /// The control socket is connected.
    Connected,
    /// The socket did not appear within the wait; the process still runs.
    TimedOut,
    /// The process could not be spawned, for this reason.
    Failed(String),
}

/// What the outcome of a start does to the devices, and the actions it asks
/// for. An outcome for a device that is not starting is stale and ignored.
pub open spec fn start_plan(m: Map<Seq<char>, DeviceView>, d: Seq<char>, o: StartOutcome) -> (Map<Seq<char>, DeviceView>, Seq<ActionView>) {
    if !m.contains_key(d) || m[d].phase != PlayerPhase::Starting {
        (m, Seq::empty())
    } else {
        let v = m[d].volume;
        match o {
            StartOutcome::Connected => (
                m.insert(d, DeviceView { volume: v, phase: PlayerPhase::Ready }),
                seq![ActionView::Send(d, PlayerCommandView::Assign("volume"@, v))],
            ),
            StartOutcome::TimedOut => (m, fail("Timeout waiting for mpv socket"@)),
            StartOutcome::Failed(e) => (m.insert(d, DeviceView { volume: v, phase: PlayerPhase::Idle }), fail(e@)),
        }
    }
}

/// Kills for the players of these devices, in this order.
pub open spec fn kills(gone: Seq<Seq<char>>) -> Seq<ActionView> {
    gone.map_values(|d: Seq<char>| ActionView::Kill(d))
}

/// A message that first takes in the device list: `gone` are the devices that
/// left it with a player, killed first, then `plan` follows on the refreshed
/// devices.
pub open spec fn after_refresh(
    m: Map<Seq<char>, DeviceView>,
    present: Seq<Seq<char>>,
    gone: Seq<Seq<char>>,
    m2: Map<Seq<char>, DeviceView>,
    actions: Seq<ActionView>,
    plan: (Map<Seq<char>, DeviceView>, Seq<ActionView>),
) -> bool {
    &&& gone.to_set() == orphaned(m, present)
    &&& m2 == plan.0
    &&& actions == kills(gone) + plan.1
}

/// The list of devices, published.
pub open spec fn list_plan(m: Map<Seq<char>, DeviceView>, present: Seq<Seq<char>>) -> (Map<Seq<char>, DeviceView>, Seq<ActionView>) {
    (m, seq![ActionView::Publish(SpeakerPublicationView::SpeakerList(present))])
}

/// The event that reports the value of a queried property, if one does.
pub open spec fn property_event_of(property: Seq<char>, value: String) -> Option<SpeakerEventContent> {
    if property == "volume"@ {
        Some(SpeakerEventContent::MusicVolumeChanged(Some(value)))
    } else if property == "time-pos"@ {
        Some(SpeakerEventContent::SeekChanged(Some(value)))
    } else if property == "duration"@ {
        Some(SpeakerEventContent::DurationChanged(Some(value)))
    } else {
        None
    }
}

/// The speaker event for the reply to a query of `property` whose value is
/// `value`, as decimal text; `None` for a property nobody follows.
pub fn property_event(property: &str, value: String) -> (r: Option<SpeakerEventContent>)
    ensures
        r == property_event_of(property@, value),
{
    let p = property.to_owned();
    if p == "volume".to_owned() {
        Some(SpeakerEventContent::MusicVolumeChanged(Some(value)))
    } else if p == "time-pos".to_owned() {
        Some(SpeakerEventContent::SeekChanged(Some(value)))
    } else if p == "duration".to_owned() {
        Some(SpeakerEventContent::DurationChanged(Some(value)))
    } else {
        None
    }
}

/// The playback devices and their state.
pub struct MpvHandler {
    devices: Vec<DeviceState>,
}

impl MpvHandler {
    pub closed spec fn wf(&self) -> bool {
        forall|i: int, j: int|
            0 <= i < self.devices@.len() && 0 <= j < self.devices@.len() && i != j
                ==> #[trigger] self.devices@[i].device_id@ != #[trigger] self.devices@[j].device_id@
    }

    closed spec fn holds(&self, d: Seq<char>) -> bool {
        exists|i: int| 0 <= i < self.devices@.len() && #[trigger] self.devices@[i].device_id@ == d
    }

    closed spec fn slot(&self, d: Seq<char>) -> int {
        choose|i: int| 0 <= i < self.devices@.len() && #[trigger] self.devices@[i].device_id@ == d
    }

    closed spec fn entry_view(e: DeviceState) -> DeviceView {
        DeviceView { volume: e.music_volume@, phase: e.phase }
    }

    /// Device id to state, for every known device.
    pub closed spec fn view(&self) -> Map<Seq<char>, DeviceView> {
        Map::new(|d: Seq<char>| self.holds(d), |d: Seq<char>| Self::entry_view(self.devices@[self.slot(d)]))
    }

    pub fn new() -> (r: MpvHandler)
        ensures
            r.wf(),
            r.view() == Map::<Seq<char>, DeviceView>::empty(),
    {
        let r = MpvHandler { devices: Vec::new() };
        assert(r.view() =~= Map::<Seq<char>, DeviceView>::empty());
        r
    }

    fn find(&self, d: &String) -> (r: Option<usize>)
        requires
            self.wf(),
        ensures
            match r {
                Some(i) => i < self.devices@.len() && self.devices@[i as int].device_id@ == d@
                    && self.slot(d@) == i as int && self.holds(d@),
                None => !self.holds(d@),
            },
    {
        let mut i: usize = 0;
        while i < self.devices.len()
            invariant
                self.wf(),
                i <= self.devices@.len(),
                forall|j: int| 0 <= j < i ==> #[trigger] self.devices@[j].device_id@ != d@,
            decreases self.devices.len() - i,
        {
            if self.devices[i].device_id == *d {
                assert(self.holds(d@));
                assert(self.devices@[self.slot(d@)].device_id@ == d@);
                return Some(i);
            }
            i = i + 1;
        }
        None
    }

    /// Appending a device not yet held adds it to the view.
    proof fn lemma_push(before: MpvHandler, after: MpvHandler, e: DeviceState)
        requires
            before.wf(),
            !before.holds(e.device_id@),
            after.devices@ == before.devices@.push(e),
        ensures
            after.wf(),
            after.view() == before.view().insert(e.device_id@, Self::entry_view(e)),
    {
        let n = before.devices@.len() as int;
        let d = e.device_id@;
        assert(after.devices@[n].device_id@ == d);
        assert forall|i: int, j: int|
            0 <= i < after.devices@.len() && 0 <= j < after.devices@.len() && i != j
                implies #[trigger] after.devices@[i].device_id@ != #[trigger] after.devices@[j].device_id@ by {
            if i == n {
                assert(before.devices@[j].device_id@ != d);
            } else if j == n {
                assert(before.devices@[i].device_id@ != d);
            }
        }
        assert forall|x: Seq<char>| #[trigger] after.holds(x) == (before.holds(x) || x == d) by {
            if before.holds(x) {
                let j = before.slot(x);
                assert(after.devices@[j].device_id@ == x);
            }
            if after.holds(x) && x != d {
                let j = after.slot(x);
                assert(j != n);
                assert(before.devices@[j].device_id@ == x);
            }
        }
        assert forall|x: Seq<char>| after.holds(x) && x != d implies
            Self::entry_view(after.devices@[after.slot(x)]) == Self::entry_view(before.devices@[before.slot(x)]) by {
            let j = after.slot(x);
            assert(j != n);
            assert(before.devices@[j].device_id@ == x);
        }
        assert(after.slot(d) == n);
        assert(after.view() =~= before.view().insert(d, Self::entry_view(e)));
    }

    /// Sets the state of the held device at `i`.
    fn put(&mut self, i: usize, volume: String, phase: PlayerPhase)
        requires
            old(self).wf(),
            i < old(self).devices@.len(),
        ensures
            final(self).wf(),
            final(self).view() == old(self).view().insert(
                old(self).devices@[i as int].device_id@,
                DeviceView { volume: volume@, phase },
            ),
    {
        let ghost before = *self;
        let ghost d = self.devices@[i as int].device_id@;
        self.devices[i].music_volume = volume;
        self.devices[i].phase = phase;
        proof {
            assert forall|e: Seq<char>| #[trigger] self.holds(e) == before.holds(e) by {
                if before.holds(e) {
                    let j = before.slot(e);
                    assert(self.devices@[j].device_id@ == e);
                }
                if self.holds(e) {
                    let j = self.slot(e);
                    assert(before.devices@[j].device_id@ == e);
                }
            }
            assert forall|e: Seq<char>| self.holds(e) && e != d implies
                Self::entry_view(self.devices@[self.slot(e)]) == Self::entry_view(before.devices@[before.slot(e)]) by {
                let j = self.slot(e);
                assert(j != i);
                assert(before.devices@[j].device_id@ == e);
            }
            assert(self.holds(d));
            assert(self.slot(d) == i as int);
            assert(self.view() =~= before.view().insert(d, DeviceView { volume: volume@, phase }));
        }
    }

    /// Takes in the device list just observed; returns the devices that left
    /// it while a player process was theirs, for the caller to kill.
    pub fn refresh(&mut self, present: &Vec<String>) -> (r: Vec<String>)
        requires
            old(self).wf(),
        ensures
            final(self).wf(),
            final(self).view() == refreshed(old(self).view(), strings_view(present@)),
            strings_view(r@).to_set() == orphaned(old(self).view(), strings_view(present@)),
    {
        let ghost pv = strings_view(present@);
        let mut next = MpvHandler { devices: Vec::new() };
        let mut i: usize = 0;
        while i < present.len()
            invariant
                self.wf(),
                next.wf(),
                i <= present@.len(),
                pv == strings_view(present@),
                next.view() == refreshed(self.view(), pv.subrange(0, i as int)),
            decreases present.len() - i,
        {
            let d = &present[i];
            proof {
                assert(pv.subrange(0, i + 1) =~= pv.subrange(0, i as int).push(d@));
            }
            match next.find(d) {
                Some(_) => {
                    proof {
                        let seen = pv.subrange(0, i as int);
                        let seen_next = pv.subrange(0, i + 1);
                        assert(next.view().contains_key(d@));
                        assert(seen.contains(d@));
                        assert forall|x: Seq<char>| seen_next.contains(x) == seen.contains(x) by {
                            if seen_next.contains(x) {
                                let w = seen_next.index_of(x);
                                if w < i {
                                    assert(seen[w] == x);
                                }
                            }
                            if seen.contains(x) {
                                let w = seen.index_of(x);
                                assert(seen_next[w] == x);
                            }
                        }
                        assert(refreshed(self.view(), seen_next) =~= refreshed(self.view(), seen));
                    }
                },
                None => {
                    let e = match self.find(d) {
                        Some(k) => DeviceState {
                            device_id: d.clone(),
                            music_volume: self.devices[k].music_volume.clone(),
                            phase: self.devices[k].phase,
                        },
                        None => DeviceState { device_id: d.clone(), music_volume: default_volume_text(), phase: PlayerPhase::Idle },
                    };
                    let ghost before = next;
                    next.devices.push(e);
                    proof {
                        assert(!before.view().contains_key(d@));
                        Self::lemma_push(before, next, e);
                        let m = self.view();
                        assert(Self::entry_view(e) == (if m.contains_key(d@) { m[d@] } else { fresh_device() }));
                        let seen = pv.subrange(0, i as int);
                        let seen_next = pv.subrange(0, i + 1);
                        assert forall|x: Seq<char>| seen_next.contains(x) == (seen.contains(x) || x == d@) by {
                            if seen_next.contains(x) {
                                let w = seen_next.index_of(x);
                                if w < i {
                                    assert(seen[w] == x);
                                }
                            }
                            if seen.contains(x) {
                                let w = seen.index_of(x);
                                assert(seen_next[w] == x);
                            }
                            if x == d@ {
                                assert(seen_next[i as int] == x);
                            }
                        }
                        assert(next.view() =~= refreshed(m, seen_next));
                    }
                },
            }
            i = i + 1;
        }
        assert(pv.subrange(0, present@.len() as int) =~= pv);
        let mut gone: Vec<String> = Vec::new();
        let mut k: usize = 0;
        while k < self.devices.len()
            invariant
                self.wf(),
                k <= self.devices@.len(),
                pv == strings_view(present@),
                next.view() == refreshed(self.view(), pv),
                forall|w: int| 0 <= w < gone@.len() ==> #[trigger] orphaned(self.view(), pv).contains(gone@[w]@),
                forall|j: int| 0 <= j < k && !pv.contains(self.devices@[j].device_id@)
                    && self.devices@[j].phase != PlayerPhase::Idle
                    ==> strings_view(gone@).contains(#[trigger] self.devices@[j].device_id@),
            decreases self.devices.len() - k,
        {
            let listed = present_contains(present, &self.devices[k].device_id);
            let ghost before = gone@;
            if !listed && self.devices[k].phase != PlayerPhase::Idle {
                gone.push(self.devices[k].device_id.clone());
                proof {
                    let x = self.devices@[k as int].device_id@;
                    assert(self.holds(x));
                    assert(self.slot(x) == k as int);
                    assert(gone@[gone@.len() - 1]@ == x);
                    assert(orphaned(self.view(), pv).contains(x));
                }
            }
            proof {
                assert forall|j: int| 0 <= j < k + 1 && !pv.contains(self.devices@[j].device_id@)
                    && self.devices@[j].phase != PlayerPhase::Idle
                    implies strings_view(gone@).contains(#[trigger] self.devices@[j].device_id@) by {
                    let x = self.devices@[j].device_id@;
                    if j < k {
                        let w = strings_view(before).index_of(x);
                        assert(strings_view(gone@)[w] == x);
                    } else {
                        assert(strings_view(gone@)[gone@.len() - 1] == x);
                    }
                }
            }
            k = k + 1;
        }
        proof {
            let m = self.view();
            assert forall|x: Seq<char>| strings_view(gone@).to_set().contains(x) == orphaned(m, pv).contains(x) by {
                if strings_view(gone@).contains(x) {
                    let w = strings_view(gone@).index_of(x);
                    assert(gone@[w]@ == x);
                }
                if orphaned(m, pv).contains(x) {
                    let j = self.slot(x);
                    assert(self.devices@[j].device_id@ == x);
                }
            }
            assert(strings_view(gone@).to_set() =~= orphaned(m, pv));
        }
        *self = next;
        gone
    }

    fn fail_with(msg: &str) -> (r: Vec<Action>)
        ensures
            actions_view(r@) == fail(msg@),
    {
        let mut r: Vec<Action> = Vec::new();
        r.push(Action::Publish(SpeakerPublication::Error(msg.to_owned())));
        assert(actions_view(r@) =~= fail(msg@));
        r
    }

    fn url_of_play(p: Option<crate::message::Play>) -> (r: Result<String, String>)
        ensures
            match r {
                Ok(u) => play_url(p) == Ok::<Seq<char>, Seq<char>>(u@),
                Err(e) => play_url(p) == Err::<Seq<char>, Seq<char>>(e@),
            },
    {
        match p {
            None => Err("No play command".to_owned()),
            Some(pl) => match pl.content {
                PlayContent::PlayYoutube(None) => Err("No YouTube URL".to_owned()),
                PlayContent::PlayYoutube(Some(y)) => match y.url {
                    None => Err("URL is None".to_owned()),
                    Some(u) => Ok(u),
                },
                _ => Err("Unsupported play content".to_owned()),
            },
        }
    }

    fn send(d: &String, command: PlayerCommand) -> (r: Action)
        ensures
            r@ == ActionView::Send(d@, command@),
    {
        Action::Send { device_id: d.clone(), command }
    }

    /// Decides a speaker command. The caller refreshes the device list first.
    pub fn handle_speaker_command(&mut self, c: SpeakerCommand) -> (r: Vec<Action>)
        requires
            old(self).wf(),
        ensures
            final(self).wf(),
            (final(self).view(), actions_view(r@)) == command_plan(old(self).view(), c),
    {
        let ghost g = c;
        let ghost m = self.view();
        let SpeakerCommand { device_id, command } = c;
        let d = match device_id {
            Some(d) => d,
            None => return Self::fail_with("No device_id"),
        };
        let i = match self.find(&d) {
            Some(i) => i,
            None => return Self::fail_with("Device does not exist"),
        };
        let phase = self.devices[i].phase;
        let volume = self.devices[i].music_volume.clone();
        assert(m[d@] == (DeviceView { volume: volume@, phase }));
        let mut r: Vec<Action> = Vec::new();
        match command {
            SpeakerCommandContent::SetMusicVolume(None) => return Self::fail_with("No volume"),
            SpeakerCommandContent::SetMusicVolume(Some(v)) => {
                if !is_decimal_number(v.as_str()) {
                    return Self::fail_with("Invalid volume");
                }
                self.put(i, v.clone(), phase);
                if phase == PlayerPhase::Ready {
                    r.push(Self::send(&d, PlayerCommand::SetProperty("volume".to_owned(), v)));
                    r.push(Self::send(&d, PlayerCommand::GetProperty("volume".to_owned())));
                }
            },
            SpeakerCommandContent::TogglePause => {},
            SpeakerCommandContent::Play(p) => {
                if phase != PlayerPhase::Idle {
                    r.push(Action::Kill { device_id: d.clone() });
                }
                let ghost kill = actions_view(r@);
                match Self::url_of_play(p) {
                    Ok(url) => {
                        self.put(i, volume, PlayerPhase::Starting);
                        r.push(Action::Spawn { device_id: d.clone(), url });
                        assert(actions_view(r@) =~= kill.push(actions_view(r@).last()));
                    },
                    Err(e) => {
                        self.put(i, volume, PlayerPhase::Idle);
                        r.push(Action::Publish(SpeakerPublication::Error(e)));
                        assert(actions_view(r@) =~= kill + seq![actions_view(r@).last()]);
                    },
                }
            },
            SpeakerCommandContent::Stop => {
                if phase == PlayerPhase::Ready {
                    self.put(i, volume, PlayerPhase::Idle);
                    r.push(Action::Kill { device_id: d.clone() });
                    r.push(Action::Publish(SpeakerPublication::PlayStopped { device_id: d.clone() }));
                } else if phase == PlayerPhase::Starting {
                    self.put(i, volume, PlayerPhase::Idle);
                    r.push(Action::Kill { device_id: d.clone() });
                }
            },
            SpeakerCommandContent::Seek(None) => return Self::fail_with("No seek command"),
            SpeakerCommandContent::Seek(Some(pos)) => {
                if !is_decimal_number(pos.as_str()) {
                    return Self::fail_with("Invalid seek position");
                }
                if phase == PlayerPhase::Ready {
                    r.push(Self::send(&d, PlayerCommand::SetProperty("time-pos".to_owned(), pos)));
                    r.push(Self::send(&d, PlayerCommand::GetProperty("time-pos".to_owned())));
                } else {
                    return Self::fail_with("No active player");
                }
            },
            _ => return Self::fail_with("Unknown command"),
        }
        assert((self.view(), actions_view(r@)) =~~= command_plan(m, g));
        r
    }

    /// Decides a speaker query.
    pub fn handle_speaker_query(&self, q: &SpeakerQuery) -> (r: Vec<Action>)
        requires
            self.wf(),
        ensures
            actions_view(r@) == query_plan(self.view(), *q),
    {
        let d = match &q.device_id {
            Some(d) => d,
            None => return Self::fail_with("No device_id"),
        };
        let i = match self.find(d) {
            Some(i) => i,
            None => return Self::fail_with("Device does not exist"),
        };
        if self.devices[i].phase != PlayerPhase::Ready {
            return Self::fail_with("No mpv process");
        }
        let property = match q.query {
            SpeakerQueryContent::QueryMusicVolume => "volume",
            SpeakerQueryContent::QuerySeek => "time-pos",
            SpeakerQueryContent::QueryDuration => "duration",
            _ => return Self::fail_with("Unknown query"),
        };
        let mut r: Vec<Action> = Vec::new();
        r.push(Self::send(d, PlayerCommand::GetProperty(property.to_owned())));
        assert(actions_view(r@) =~= query_plan(self.view(), *q));
        r
    }

    /// Takes in how starting the player of `device_id` ended.
    pub fn player_started(&mut self, device_id: &str, outcome: StartOutcome) -> (r: Vec<Action>)
        requires
            old(self).wf(),
        ensures
            final(self).wf(),
            (final(self).view(), actions_view(r@)) == start_plan(old(self).view(), device_id@, outcome),
    {
        let ghost m = self.view();
        let ghost o = outcome;
        let d = device_id.to_owned();
        let i = match self.find(&d) {
            Some(i) => i,
            None => {
                let r: Vec<Action> = Vec::new();
                assert(actions_view(r@) =~= Seq::<ActionView>::empty());
                return r;
            },
        };
        if self.devices[i].phase != PlayerPhase::Starting {
            let r: Vec<Action> = Vec::new();
            assert(actions_view(r@) =~= Seq::<ActionView>::empty());
            return r;
        }
        let volume = self.devices[i].music_volume.clone();
        let mut r: Vec<Action> = Vec::new();
        match outcome {
            StartOutcome::Connected => {
                self.put(i, volume.clone(), PlayerPhase::Ready);
                r.push(Self::send(&d, PlayerCommand::SetProperty("volume".to_owned(), volume)));
            },
            StartOutcome::TimedOut => {
                r = Self::fail_with("Timeout waiting for mpv socket");
            },
            StartOutcome::Failed(e) => {
                self.put(i, volume, PlayerPhase::Idle);
                r.push(Action::Publish(SpeakerPublication::Error(e)));
            },
        }
        assert((self.view(), actions_view(r@)) =~~= start_plan(m, device_id@, o));
        r
    }

    /// The state of `device_id`, if it is known.
    pub fn device(&self, device_id: &str) -> (r: Option<(String, PlayerPhase)>)
        requires
            self.wf(),
        ensures
            match r {
                Some((v, ph)) => self.view().contains_key(device_id@)
                    && self.view()[device_id@] == (DeviceView { volume: v@, phase: ph }),
                None => !self.view().contains_key(device_id@),
            },
    {
        match self.find(&device_id.to_owned()) {
            Some(i) => Some((self.devices[i].music_volume.clone(), self.devices[i].phase)),
            None => None,
        }
    }

    /// Takes in the device list `present` and asks to kill the players of
    /// the devices that left it.
    fn refresh_and_reap(&mut self, present: &Vec<String>) -> (r: Vec<Action>)
        requires
            old(self).wf(),
        ensures
            final(self).wf(),
            final(self).view() == refreshed(old(self).view(), strings_view(present@)),
            exists|gone: Seq<Seq<char>>|
                gone.to_set() == orphaned(old(self).view(), strings_view(present@)) && actions_view(r@) == kills(gone),
    {
        let gone = self.refresh(present);
        let mut r: Vec<Action> = Vec::new();
        let mut k: usize = 0;
        while k < gone.len()
            invariant
                k <= gone@.len(),
                r@.len() == k,
                forall|j: int| 0 <= j < k ==> #[trigger] r@[j]@ == ActionView::Kill(gone@[j]@),
            decreases gone.len() - k,
        {
            r.push(Action::Kill { device_id: gone[k].clone() });
            k = k + 1;
        }
        assert(actions_view(r@) =~= kills(strings_view(gone@)));
        r
    }

    /// Answers a query for the device list `present`, which it takes in
    /// first; devices that left it lose their player.
    pub fn handle_speaker_list_query(&mut self, present: &Vec<String>) -> (r: Vec<Action>)
        requires
            old(self).wf(),
        ensures
            final(self).wf(),
            exists|gone: Seq<Seq<char>>|
                after_refresh(
                    old(self).view(),
                    strings_view(present@),
                    gone,
                    final(self).view(),
                    actions_view(r@),
                    list_plan(refreshed(old(self).view(), strings_view(present@)), strings_view(present@)),
                ),
    {
        let ghost m = self.view();
        let ghost pv = strings_view(present@);
        let mut r = self.refresh_and_reap(present);
        let ghost killed = actions_view(r@);
        r.push(Action::Publish(SpeakerPublication::SpeakerList(crate::devices::copy_strings(present))));
        proof {
            let gone = choose|gone: Seq<Seq<char>>| gone.to_set() == orphaned(m, pv) && killed == kills(gone);
            assert(actions_view(r@) =~= kills(gone) + list_plan(refreshed(m, pv), pv).1);
            assert(after_refresh(m, pv, gone, self.view(), actions_view(r@), list_plan(refreshed(m, pv), pv)));
        }
        r
    }

    /// Handles one bus message for the speaker service. `present` is the
    /// device list observed just now; commands and list queries take it in
    /// first, and devices that left it lose their player.
    pub fn handle_message(&mut self, present: &Vec<String>, msg: Message) -> (r: Vec<Action>)
        requires
            old(self).wf(),
        ensures
            final(self).wf(),
            ({
                let m = old(self).view();
                let pv = strings_view(present@);
                match msg.content {
                    MessageContent::SpeakerCommand(Some(c)) => exists|gone: Seq<Seq<char>>|
                        after_refresh(m, pv, gone, final(self).view(), actions_view(r@), command_plan(refreshed(m, pv), c)),
                    MessageContent::SpeakerListQuery => exists|gone: Seq<Seq<char>>|
                        after_refresh(m, pv, gone, final(self).view(), actions_view(r@), list_plan(refreshed(m, pv), pv)),
                    MessageContent::SpeakerQuery(Some(q)) =>
                        final(self).view() == m && actions_view(r@) == query_plan(m, q),
                    MessageContent::SpeakerCommand(None) =>
                        final(self).view() == m && actions_view(r@) == fail("Content is none"@),
                    MessageContent::SpeakerQuery(None) =>
                        final(self).view() == m && actions_view(r@) == fail("Content is none"@),
                    _ => final(self).view() == m && actions_view(r@) == Seq::<ActionView>::empty(),
                }
            }),
    {
        let ghost m = self.view();
        let ghost pv = strings_view(present@);
        match msg.content {
            MessageContent::SpeakerCommand(Some(c)) => {
                let ghost g = c;
                let mut r = self.refresh_and_reap(present);
                let ghost killed = actions_view(r@);
                let mut rest = self.handle_speaker_command(c);
                let ghost tail = actions_view(rest@);
                r.append(&mut rest);
                proof {
                    let gone = choose|gone: Seq<Seq<char>>| gone.to_set() == orphaned(m, pv) && killed == kills(gone);
                    assert(actions_view(r@) =~= killed + tail);
                    assert(after_refresh(m, pv, gone, self.view(), actions_view(r@), command_plan(refreshed(m, pv), g)));
                }
                r
            },
            MessageContent::SpeakerListQuery => self.handle_speaker_list_query(present),
            MessageContent::SpeakerQuery(Some(q)) => self.handle_speaker_query(&q),
            MessageContent::SpeakerCommand(None) => Self::fail_with("Content is none"),
            MessageContent::SpeakerQuery(None) => Self::fail_with("Content is none"),
            _ => {
                let r: Vec<Action> = Vec::new();
                assert(actions_view(r@) =~= Seq::<ActionView>::empty());
                r
            },
        }
    }
}

/// Whether `d` is in `list`.
pub fn present_contains(list: &Vec<String>, d: &String) -> (r: bool)
    ensures
        r == strings_view(list@).contains(d@),
{
    let mut i: usize = 0;
    while i < list.len()
        invariant
            i <= list@.len(),
            forall|j: int| 0 <= j < i ==> #[trigger] list@[j]@ != d@,
        decreases list.len() - i,
    {
        if list[i] == *d {
            assert(strings_view(list@)[i as int] == d@);
            return true;
        }
        i = i + 1;
    }
    proof {
        if strings_view(list@).contains(d@) {
            let j = strings_view(list@).index_of(d@);
            assert(list@[j]@ == d@);
        }
    }
    false
}

} // verus!

verus! {

/// A command never spawns a second player next to a running one: where the
/// device already has a process, the actions kill it before anything is
/// spawned, and a spawn is the last action.
pub proof fn law_one_player_per_device(m: Map<Seq<char>, DeviceView>, c: SpeakerCommand, i: int)
    requires
        c.device_id is Some,
        m.contains_key(c.device_id.unwrap()@),
        0 <= i < command_plan(m, c).1.len(),
        command_plan(m, c).1[i] is Spawn,
    ensures
        command_plan(m, c).1[i] == ActionView::Spawn(c.device_id.unwrap()@, command_plan(m, c).1[i]->Spawn_1),
        i == command_plan(m, c).1.len() - 1,
        command_plan(m, c).0[c.device_id.unwrap()@].phase == PlayerPhase::Starting,
        m[c.device_id.unwrap()@].phase != PlayerPhase::Idle ==> i == 1
            && command_plan(m, c).1[0] == ActionView::Kill(c.device_id.unwrap()@),
        m[c.device_id.unwrap()@].phase == PlayerPhase::Idle ==> i == 0,
{
}

} // verus!

verus! {

/// Every command that a speaker command asks to send can be sent: it names a
/// known property and sets it only to a decimal number, given that the
/// stored volumes are decimal numbers.
pub proof fn law_planned_commands_are_sendable(m: Map<Seq<char>, DeviceView>, c: SpeakerCommand, i: int)
    requires
        forall|d: Seq<char>| #[trigger] m.contains_key(d) ==> decimal_number(m[d].volume),
        0 <= i < command_plan(m, c).1.len(),
        command_plan(m, c).1[i] is Send,
    ensures
        command_problem(command_plan(m, c).1[i]->Send_1) is None,
{
}

} // verus!
