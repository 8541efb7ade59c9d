use crate::error::BroadcastError;
use crate::message::{
    encode_status, format_lyric, json_quoted, message_text, object_text, status_members,
    StatusUpdateMessage,
};
use crate::settings::{texts, Settings, SettingsModel};
use vstd::prelude::*;
use vstd::string::*;

verus! {

/// Where the feed stands between two steps.
#[derive(Clone, Copy, Debug, PartialEq, Eq, Structural)]
pub enum Phase {
    /// About to start a pass over the lyrics.
    PassStart,
    /// Waiting for the settings to be re-loaded.
    Reloading,
    /// Waiting for the message of lyric `i` to be sent.
    Sending(usize),
    /// Waiting out the interval after the message of lyric `i`.
    Sleeping(usize),
    /// A fatal error occurred; nothing more is done.
    Stopped,
}

pub ghost enum PhaseModel {
    PassStart,
    Reloading,
    Sending(nat),
    Sleeping(nat),
    Stopped,
}

impl View for Phase {
    type V = PhaseModel;

    open spec fn view(&self) -> PhaseModel {
        match *self {
            Phase::PassStart => PhaseModel::PassStart,
            Phase::Reloading => PhaseModel::Reloading,
            Phase::Sending(i) => PhaseModel::Sending(i as nat),
            Phase::Sleeping(i) => PhaseModel::Sleeping(i as nat),
            Phase::Stopped => PhaseModel::Stopped,
        }
    }
}

/// What the outside world reports back after performing an action.
#[derive(Clone, Debug, PartialEq, Eq)]
pub enum Event {
    /// Go on: the first step, or the step after `Action::Idle`.
    Resume,
    /// The settings were re-loaded.
    Reloaded(Settings),
    /// Re-loading the settings failed.
    ReloadFailed,
    /// The frame was sent.
    Sent,
    /// Sending the frame failed.
    SendFailed,
    /// The interval has passed.
    Woke,
}

pub ghost enum EventModel {
    Resume,
    Reloaded(SettingsModel),
    ReloadFailed,
    Sent,
    SendFailed,
    Woke,
}

impl View for Event {
    type V = EventModel;

    open spec fn view(&self) -> EventModel {
        match *self {
            Event::Resume => EventModel::Resume,
            Event::Reloaded(s) => EventModel::Reloaded(s@),
            Event::ReloadFailed => EventModel::ReloadFailed,
            Event::Sent => EventModel::Sent,
            Event::SendFailed => EventModel::SendFailed,
            Event::Woke => EventModel::Woke,
        }
    }
}

/// What the feed asks the outside world to do next.
#[derive(Clone, Debug, PartialEq, Eq)]
pub enum Action {
    /// Re-load the settings and report `Reloaded` or `ReloadFailed`.
    Reload,
    /// Send this payload as one text frame and report `Sent` or `SendFailed`.
    Send(String),
    /// Wait this many seconds and report `Woke`.
    Sleep(u32),
    /// Nothing to perform: report `Resume`.
    Idle,
    /// Stop for good with this error.
    Stop(BroadcastError),
}

pub ghost enum ActionModel {
    Reload,
    Send(Seq<char>),
    Sleep(u32),
    Idle,
    Stop(BroadcastError),
}

impl View for Action {
    type V = ActionModel;

    open spec fn view(&self) -> ActionModel {
        match *self {
            Action::Reload => ActionModel::Reload,
            Action::Send(p) => ActionModel::Send(p@),
            Action::Sleep(n) => ActionModel::Sleep(n),
            Action::Idle => ActionModel::Idle,
            Action::Stop(e) => ActionModel::Stop(e),
        }
    }
}

/// The state of the feed: the lyrics of the base settings, whether to
/// reload, the interval, prefix and suffix in effect for this pass, and the
/// phase.
pub ghost struct BroadcasterModel {
    pub lyrics: Seq<Seq<char>>,
    pub reload: bool,
    pub interval: u32,
    pub prefix: Seq<char>,
    pub suffix: Seq<char>,
    pub phase: PhaseModel,
}

/// The wire form of the status update that carries `text`.
pub open spec fn status_payload(text: Seq<char>) -> Seq<char> {
    object_text(seq![("cmd"@, json_quoted("status"@)), ("message"@, json_quoted(text))])
}

/// The phase refers to a lyric that exists.
pub open spec fn well_formed(m: BroadcasterModel) -> bool {
    match m.phase {
        PhaseModel::Sending(i) => i < m.lyrics.len(),
        PhaseModel::Sleeping(i) => i < m.lyrics.len(),
        _ => true,
    }
}

/// The feed right after loading the base settings `s`.
pub open spec fn initial(s: SettingsModel) -> BroadcasterModel {
    BroadcasterModel {
        lyrics: s.lyrics,
        reload: s.reload,
        interval: s.interval,
        prefix: s.prefix,
        suffix: s.suffix,
        phase: PhaseModel::PassStart,
    }
}

/// `m` in phase `p`.
pub open spec fn with_phase(m: BroadcasterModel, p: PhaseModel) -> BroadcasterModel {
    BroadcasterModel { phase: p, ..m }
}

/// Send the message of lyric `i`, or end the pass when no lyric is left.
pub open spec fn send_at(m: BroadcasterModel, i: nat) -> (BroadcasterModel, ActionModel) {
    if i < m.lyrics.len() {
        (
            with_phase(m, PhaseModel::Sending(i)),
            ActionModel::Send(status_payload(message_text(m.prefix, m.lyrics[i as int], m.suffix))),
        )
    } else {
        (with_phase(m, PhaseModel::PassStart), ActionModel::Idle)
    }
}

/// Start a pass: re-load first when asked to, else send the first lyric.
pub open spec fn begin_pass(m: BroadcasterModel) -> (BroadcasterModel, ActionModel) {
    if m.reload {
        (with_phase(m, PhaseModel::Reloading), ActionModel::Reload)
    } else {
        send_at(m, 0)
    }
}

/// Whether `e` is the report that the phase of `m` waits for.
pub open spec fn expects(m: BroadcasterModel, e: EventModel) -> bool {
    match (m.phase, e) {
        (PhaseModel::PassStart, EventModel::Resume) => true,
        (PhaseModel::Reloading, EventModel::Reloaded(_)) => true,
        (PhaseModel::Reloading, EventModel::ReloadFailed) => true,
        (PhaseModel::Sending(_), EventModel::Sent) => true,
        (PhaseModel::Sending(_), EventModel::SendFailed) => true,
        (PhaseModel::Sleeping(_), EventModel::Woke) => true,
        _ => false,
    }
}

/// The next state and action of the feed in state `m` on event `e`. Only the
/// interval, prefix and suffix are taken from re-loaded settings. An event
/// that the phase does not wait for changes nothing.
pub open spec fn next(m: BroadcasterModel, e: EventModel) -> (BroadcasterModel, ActionModel) {
    match (m.phase, e) {
        (PhaseModel::PassStart, EventModel::Resume) => begin_pass(m),
        (PhaseModel::Reloading, EventModel::Reloaded(s)) => send_at(
            BroadcasterModel { interval: s.interval, prefix: s.prefix, suffix: s.suffix, ..m },
            0,
        ),
        (PhaseModel::Reloading, EventModel::ReloadFailed) => (
            with_phase(m, PhaseModel::Stopped),
            ActionModel::Stop(BroadcastError::Reload),
        ),
        (PhaseModel::Sending(i), EventModel::Sent) => (
            with_phase(m, PhaseModel::Sleeping(i)),
            ActionModel::Sleep(m.interval),
        ),
        (PhaseModel::Sending(_), EventModel::SendFailed) => (
            with_phase(m, PhaseModel::Stopped),
            ActionModel::Stop(BroadcastError::Send),
        ),
        (PhaseModel::Sleeping(i), EventModel::Woke) => if i + 1 < m.lyrics.len() {
            send_at(m, i + 1)
        } else {
            begin_pass(m)
        },
        _ => (m, ActionModel::Idle),
    }
}

/// The status feed as a state machine: each step takes the report of the
/// last action and returns the next action.
pub struct Broadcaster {
    lyrics: Vec<String>,
    reload: bool,
    interval: u32,
    prefix: String,
    suffix: String,
    phase: Phase,
}

impl View for Broadcaster {
    type V = BroadcasterModel;

    closed spec fn view(&self) -> BroadcasterModel {
        BroadcasterModel {
            lyrics: texts(self.lyrics@),
            reload: self.reload,
            interval: self.interval,
            prefix: self.prefix@,
            suffix: self.suffix@,
            phase: self.phase@,
        }
    }
}

impl Broadcaster {
    pub open spec fn wf(&self) -> bool {
        well_formed(self@)
    }

    /// A feed over the base settings `base`, about to start its first pass.
    pub fn new(base: Settings) -> (r: Self)
        ensures
            r.wf(),
            r@ == initial(base@),
    {
        let reload = base.reloads();
        let prefix = base.prefix_text();
        let suffix = base.suffix_text();
        Broadcaster {
            lyrics: base.lyrics,
            reload,
            interval: base.interval,
            prefix,
            suffix,
            phase: Phase::PassStart,
        }
    }

    /// The current phase.
    pub fn phase(&self) -> (r: Phase)
        ensures
            r@ == self@.phase,
    {
        self.phase
    }

    /// The interval in effect, in seconds.
    pub fn interval(&self) -> (r: u32)
        ensures
            r == self@.interval,
    {
        self.interval
    }

    /// Whether `e` is the report that the current phase waits for.
    pub fn expects(&self, e: &Event) -> (r: bool)
        ensures
            r == expects(self@, e@),
    {
        match (self.phase, e) {
            (Phase::PassStart, Event::Resume) => true,
            (Phase::Reloading, Event::Reloaded(_)) => true,
            (Phase::Reloading, Event::ReloadFailed) => true,
            (Phase::Sending(_), Event::Sent) => true,
            (Phase::Sending(_), Event::SendFailed) => true,
            (Phase::Sleeping(_), Event::Woke) => true,
            _ => false,
        }
    }

    fn send_at(&mut self, i: usize) -> (action: Action)
        requires
            old(self).wf(),
            i <= old(self)@.lyrics.len(),
        ensures
            final(self).wf(),
            (final(self)@, action@) == send_at(old(self)@, i as nat),
    {
        if i < self.lyrics.len() {
            let text = format_lyric(self.prefix.as_str(), self.lyrics[i].as_str(), self.suffix.as_str());
            let msg = StatusUpdateMessage {
                cmd: String::from_str("status"),
                show_game: None,
                status: None,
                emoji: None,
                expires_time: None,
                message: Some(text),
            };
            assert(status_members(msg) =~= seq![
                ("cmd"@, json_quoted("status"@)),
                ("message"@, json_quoted(text@)),
            ]);
            let payload = encode_status(&msg);
            self.phase = Phase::Sending(i);
            Action::Send(payload)
        } else {
            self.phase = Phase::PassStart;
            Action::Idle
        }
    }

    fn begin_pass(&mut self) -> (action: Action)
        requires
            old(self).wf(),
        ensures
            final(self).wf(),
            (final(self)@, action@) == begin_pass(old(self)@),
    {
        if self.reload {
            self.phase = Phase::Reloading;
            Action::Reload
        } else {
            self.send_at(0)
        }
    }

    /// Takes the report of the last action and returns the next action.
    pub fn step(&mut self, event: Event) -> (action: Action)
        requires
            old(self).wf(),
        ensures
            final(self).wf(),
            (final(self)@, action@) == next(old(self)@, event@),
    {
        match (self.phase, event) {
            (Phase::PassStart, Event::Resume) => self.begin_pass(),
            (Phase::Reloading, Event::Reloaded(s)) => {
                self.interval = s.interval;
                self.prefix = s.prefix_text();
                self.suffix = s.suffix_text();
                self.send_at(0)
            },
            (Phase::Reloading, Event::ReloadFailed) => {
                self.phase = Phase::Stopped;
                Action::Stop(BroadcastError::Reload)
            },
            (Phase::Sending(i), Event::Sent) => {
                self.phase = Phase::Sleeping(i);
                Action::Sleep(self.interval)
            },
            (Phase::Sending(_), Event::SendFailed) => {
                self.phase = Phase::Stopped;
                Action::Stop(BroadcastError::Send)
            },
            (Phase::Sleeping(i), Event::Woke) => {
                let n = self.lyrics.len();
                assert(texts(self.lyrics@).len() == n);
                if i + 1 < n {
                    self.send_at(i + 1)
                } else {
                    self.begin_pass()
                }
            },
            _ => Action::Idle,
        }
    }
}

} // verus!
