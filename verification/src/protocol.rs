//! The session with the server as a state machine: one inbound event in,
//! the next state and one action out. Whoever owns the connection performs
//! the action and hands back the next event.

use vstd::prelude::*;
use vstd::string::StringExecFns;
use crate::command::{command_texts, encode_commands, texts};
use crate::model::{GameState, GameStateView};
use crate::policy::{policy_commands, policy_for, Policy};

verus! {

/// Milliseconds to wait between reading a tick and answering it.
pub const TICK_DELAY_MS: u64 = 100;

/// The tag of the frame that subscribes to a game.
pub const SUBSCRIBE_TAG: &'static str = "sub-game";

/// The tag of the frame that carries a tick's commands.
pub const RUN_COMMAND_TAG: &'static str = "run-command";

/// Where a session stands.
#[derive(Clone, Copy, Debug, PartialEq, Eq, Structural)]
pub enum Phase {
    Connecting,
    Subscribed,
    Closed,
}

/// The kinds of tagged message that the server sends.
#[derive(Clone, Copy, Debug, PartialEq, Eq, Structural)]
pub enum MessageKind {
    GameInstance,
    Success,
    Failure,
    Unhandled,
}

/// What is only written to the log.
#[derive(Clone, Copy, Debug, PartialEq, Eq, Structural)]
pub enum Notice {
    Success,
    Failure,
    UnhandledMessage,
    UnhandledFrame,
}

/// The kind that a message's tag stands for.
pub open spec fn message_kind(tag: Seq<char>) -> MessageKind {
    if tag == "game-instance"@ {
        MessageKind::GameInstance
    } else if tag == "success"@ {
        MessageKind::Success
    } else if tag == "failure"@ {
        MessageKind::Failure
    } else {
        MessageKind::Unhandled
    }
}

/// Whether two texts are the same.
fn tag_is(tag: &str, name: &str) -> (r: bool)
    ensures
        r == (tag@ == name@),
{
    let left = String::from_str(tag);
    let right = String::from_str(name);
    left == right
}

/// Tells the kind of a message by its tag.
pub fn classify_message(tag: &str) -> (kind: MessageKind)
    ensures
        kind == message_kind(tag@),
{
    if tag_is(tag, "game-instance") {
        MessageKind::GameInstance
    } else if tag_is(tag, "success") {
        MessageKind::Success
    } else if tag_is(tag, "failure") {
        MessageKind::Failure
    } else {
        MessageKind::Unhandled
    }
}

/// One thing that happened on the connection.
#[derive(Clone, Debug)]
pub enum Inbound {
    /// The connection stands.
    Connected,
    /// A tick: a tagged game-instance message, decoded.
    Tick { entity_id: String, game_state: GameState },
    /// A tagged message without a decoded tick, by its kind.
    Message(MessageKind),
    /// A keep-alive ping with its payload.
    Ping(Vec<u8>),
    /// The server closed the connection.
    Close,
    /// A frame of any other type.
    Unsupported,
    /// A frame or an embedded document that could not be decoded.
    DecodeFailed,
    /// Reading or writing the connection failed.
    TransportFailed,
}

/// What contracts see of an inbound event.
pub enum InboundView {
    Connected,
    Tick { entity_id: Seq<char>, game_state: GameStateView },
    Message(MessageKind),
    Ping(Seq<u8>),
    Close,
    Unsupported,
    DecodeFailed,
    TransportFailed,
}

impl View for Inbound {
    type V = InboundView;

    open spec fn view(&self) -> InboundView {
        match *self {
            Inbound::Connected => InboundView::Connected,
            Inbound::Tick { entity_id, game_state } => InboundView::Tick {
                entity_id: entity_id@,
                game_state: game_state@,
            },
            Inbound::Message(kind) => InboundView::Message(kind),
            Inbound::Ping(data) => InboundView::Ping(data@),
            Inbound::Close => InboundView::Close,
            Inbound::Unsupported => InboundView::Unsupported,
            Inbound::DecodeFailed => InboundView::DecodeFailed,
            Inbound::TransportFailed => InboundView::TransportFailed,
        }
    }
}

/// What the owner of the connection is to do next.
#[derive(Clone, Debug, PartialEq, Eq)]
pub enum Action {
    /// Send the subscription for the game `id`.
    Subscribe { id: String },
    /// Wait `delay_ms`, then send the commands of this tick.
    RunCommand { delay_ms: u64, game_id: String, payload: Vec<String> },
    /// Send a pong with this payload, at once.
    Pong(Vec<u8>),
    /// Write a line to the log; send nothing.
    Report(Notice),
    /// Leave the loop; send nothing.
    Stop,
    /// Give up the run; send nothing.
    Abort,
    /// Nothing to do.
    Idle,
}

/// What contracts see of an action.
pub enum ActionView {
    Subscribe { id: Seq<char> },
    RunCommand { delay_ms: int, game_id: Seq<char>, payload: Seq<Seq<char>> },
    Pong(Seq<u8>),
    Report(Notice),
    Stop,
    Abort,
    Idle,
}

impl View for Action {
    type V = ActionView;

    open spec fn view(&self) -> ActionView {
        match *self {
            Action::Subscribe { id } => ActionView::Subscribe { id: id@ },
            Action::RunCommand { delay_ms, game_id, payload } => ActionView::RunCommand {
                delay_ms: delay_ms as int,
                game_id: game_id@,
                payload: texts(payload@),
            },
            Action::Pong(data) => ActionView::Pong(data@),
            Action::Report(notice) => ActionView::Report(notice),
            Action::Stop => ActionView::Stop,
            Action::Abort => ActionView::Abort,
            Action::Idle => ActionView::Idle,
        }
    }
}

impl ActionView {
    /// Whether the action puts a frame on the connection.
    pub open spec fn sends(self) -> bool {
        self is Subscribe || self is RunCommand || self is Pong
    }

    /// Whether the action waits before it sends.
    pub open spec fn delayed(self) -> bool {
        self matches ActionView::RunCommand { delay_ms, .. } && delay_ms > 0
    }
}

/// A session: its phase, the policy that the level selected when the
/// session was made, and the game it plays.
#[derive(Clone, Debug)]
pub struct Session {
    pub phase: Phase,
    pub policy: Policy,
    pub game_id: String,
}

/// What contracts see of a session.
pub struct SessionView {
    pub phase: Phase,
    pub policy: Policy,
    pub game_id: Seq<char>,
}

impl View for Session {
    type V = SessionView;

    open spec fn view(&self) -> SessionView {
        SessionView { phase: self.phase, policy: self.policy, game_id: self.game_id@ }
    }
}

impl SessionView {
    /// The same session in another phase.
    pub open spec fn at(self, phase: Phase) -> SessionView {
        SessionView { phase, policy: self.policy, game_id: self.game_id }
    }
}

/// The session after an event, and the action that answers the event.
///
/// A closed session stays closed and only stops. Before that, a close
/// stops and a failure aborts, both closing the session; a ping is echoed;
/// the connection standing is answered once with the subscription; a tick
/// is answered, once subscribed, with the commands of the session's
/// policy after the pacing delay; every other message is only reported,
/// except that a game-instance message without its decoded tick counts as
/// a decode failure.
pub open spec fn transition(s: SessionView, e: InboundView) -> (SessionView, ActionView) {
    if s.phase == Phase::Closed {
        (s, ActionView::Stop)
    } else {
        match e {
            InboundView::Close => (s.at(Phase::Closed), ActionView::Stop),
            InboundView::DecodeFailed => (s.at(Phase::Closed), ActionView::Abort),
            InboundView::TransportFailed => (s.at(Phase::Closed), ActionView::Abort),
            InboundView::Ping(data) => (s, ActionView::Pong(data)),
            InboundView::Connected => if s.phase == Phase::Connecting {
                (s.at(Phase::Subscribed), ActionView::Subscribe { id: s.game_id })
            } else {
                (s, ActionView::Idle)
            },
            InboundView::Tick { entity_id, game_state } => if s.phase == Phase::Subscribed {
                (
                    s,
                    ActionView::RunCommand {
                        delay_ms: 100,
                        game_id: entity_id,
                        payload: command_texts(policy_commands(s.policy, game_state)),
                    },
                )
            } else {
                (s, ActionView::Idle)
            },
            InboundView::Message(kind) => match kind {
                MessageKind::GameInstance => (s.at(Phase::Closed), ActionView::Abort),
                MessageKind::Success => (s, ActionView::Report(Notice::Success)),
                MessageKind::Failure => (s, ActionView::Report(Notice::Failure)),
                MessageKind::Unhandled => (s, ActionView::Report(Notice::UnhandledMessage)),
            },
            InboundView::Unsupported => (s, ActionView::Report(Notice::UnhandledFrame)),
        }
    }
}

/// The actions that a run of events draws from a session, in order.
pub open spec fn run_actions(s: SessionView, events: Seq<InboundView>) -> Seq<ActionView>
    decreases events.len(),
{
    if events.len() == 0 {
        Seq::empty()
    } else {
        seq![transition(s, events[0]).1] + run_actions(
            transition(s, events[0]).0,
            events.subrange(1, events.len() as int),
        )
    }
}

impl Session {
    /// A session for the game `game_id` under the policy of `level_id`,
    /// not yet connected.
    pub fn new(level_id: &str, game_id: String) -> (session: Session)
        ensures
            session@ == (SessionView {
                phase: Phase::Connecting,
                policy: policy_for(level_id@),
                game_id: game_id@,
            }),
    {
        Session { phase: Phase::Connecting, policy: Policy::for_level(level_id), game_id }
    }

    /// Whether the session has ended.
    pub fn is_closed(&self) -> (closed: bool)
        ensures
            closed == (self@.phase == Phase::Closed),
    {
        match self.phase {
            Phase::Closed => true,
            _ => false,
        }
    }

    /// Takes one event: moves the session on and says what to do.
    pub fn handle(&mut self, event: Inbound) -> (action: Action)
        ensures
            (final(self)@, action@) == transition(old(self)@, event@),
    {
        if self.is_closed() {
            return Action::Stop;
        }
        match event {
            Inbound::Close => {
                self.phase = Phase::Closed;
                Action::Stop
            },
            Inbound::DecodeFailed => {
                self.phase = Phase::Closed;
                Action::Abort
            },
            Inbound::TransportFailed => {
                self.phase = Phase::Closed;
                Action::Abort
            },
            Inbound::Ping(data) => Action::Pong(data),
            Inbound::Connected => {
                match self.phase {
                    Phase::Connecting => {
                        self.phase = Phase::Subscribed;
                        Action::Subscribe { id: self.game_id.clone() }
                    },
                    _ => Action::Idle,
                }
            },
            Inbound::Tick { entity_id, game_state } => {
                match self.phase {
                    Phase::Subscribed => {
                        let commands = self.policy.run(&game_state);
                        let payload = encode_commands(&commands);
                        Action::RunCommand { delay_ms: TICK_DELAY_MS, game_id: entity_id, payload }
                    },
                    _ => Action::Idle,
                }
            },
            Inbound::Message(kind) => {
                match kind {
                    MessageKind::GameInstance => {
                        self.phase = Phase::Closed;
                        Action::Abort
                    },
                    MessageKind::Success => Action::Report(Notice::Success),
                    MessageKind::Failure => Action::Report(Notice::Failure),
                    MessageKind::Unhandled => Action::Report(Notice::UnhandledMessage),
                }
            },
            Inbound::Unsupported => Action::Report(Notice::UnhandledFrame),
        }
    }
}

/// A ping is answered by a pong with the very same payload, which is not
/// held back by the pacing delay, and the session stays as it was.
pub proof fn lemma_ping_echoed(s: SessionView, data: Seq<u8>)
    requires
        s.phase != Phase::Closed,
    ensures
        transition(s, InboundView::Ping(data)) == (s, ActionView::Pong(data)),
        !transition(s, InboundView::Ping(data)).1.delayed(),
{
}

/// An informational or unknown message, and a frame of another type, are
/// only reported: nothing is sent and the session stays as it was.
pub proof fn lemma_reports_keep_state(s: SessionView, e: InboundView)
    requires
        s.phase != Phase::Closed,
        e is Unsupported || (e matches InboundView::Message(kind) && kind != MessageKind::GameInstance),
    ensures
        transition(s, e).0 == s,
        transition(s, e).1 is Report,
        !transition(s, e).1.sends(),
{
}

/// A close ends the session with nothing sent, and a closed session never
/// sends again, whatever comes in.
pub proof fn lemma_close_ends_run(s: SessionView, events: Seq<InboundView>)
    ensures
        transition(s, InboundView::Close).0.phase == Phase::Closed,
        transition(s, InboundView::Close).1 == ActionView::Stop,
        forall|k: int|
            0 <= k < events.len() ==> #[trigger] run_actions(
                transition(s, InboundView::Close).0,
                events,
            )[k] == ActionView::Stop,
        run_actions(transition(s, InboundView::Close).0, events).len() == events.len(),
{
    lemma_closed_stays_silent(transition(s, InboundView::Close).0, events);
}

/// From a closed session every event draws a stop and nothing else.
pub proof fn lemma_closed_stays_silent(s: SessionView, events: Seq<InboundView>)
    requires
        s.phase == Phase::Closed,
    ensures
        run_actions(s, events).len() == events.len(),
        forall|k: int|
            0 <= k < events.len() ==> #[trigger] run_actions(s, events)[k] == ActionView::Stop,
    decreases events.len(),
{
    if events.len() > 0 {
        let rest = events.subrange(1, events.len() as int);
        lemma_closed_stays_silent(s, rest);
        assert(transition(s, events[0]) == (s, ActionView::Stop));
    }
}

} // verus!
