//! The connection-and-publish lifecycle as a state machine. The publisher
//! decides; a driver performs each action on the broker and reports what
//! came of it as the next event.

use vstd::prelude::*;
use crate::clock::unix_seconds_now;
use crate::config::{Config, ConfigView, DEFAULT_TOPIC};
use crate::payload::{heartbeat_payload, payload_text, payload_timestamp, decimal, lemma_payload_carries_timestamp};
use vstd::string::StringExecFns;

verus! {

/// The keep-alive interval of the connection, in seconds.
pub const KEEP_ALIVE_SECS: u64 = 20;

/// The delivery level of every heartbeat: at least once.
pub const QOS: i32 = 1;

/// The exit code of a run that could not connect.
pub const EXIT_STARTUP_FAILURE: i32 = 1;

/// The exit code of a run that connected, whatever ended its loop.
pub const EXIT_CLEAN: i32 = 0;

/// Where a publisher stands in its lifecycle.
#[derive(Debug, Clone, Copy, PartialEq, Eq, Structural)]
pub enum Phase {
    /// Nothing has been asked of the broker yet.
    Uninitialized,
    /// A connection was asked for and its outcome is awaited.
    Connecting,
    /// Connected and looping: a heartbeat is on its way.
    Publishing,
    /// Connected and looping: the interval between two heartbeats runs.
    Waiting,
    /// The loop has ended and a disconnect was asked for.
    Disconnecting,
    /// The run is over.
    Terminated,
}

/// What the driver reports to the publisher.
#[derive(Debug, Clone, Copy, PartialEq, Eq, Structural)]
pub enum Event {
    /// The process has started.
    Start,
    /// No client could be built for the broker address.
    ClientFailed,
    /// The broker accepted the connection.
    Connected,
    /// The broker could not be reached or refused the connection.
    ConnectFailed,
    /// The heartbeat was published.
    Published,
    /// The heartbeat could not be published.
    PublishFailed,
    /// The interval has passed.
    Waited,
    /// The connection was closed.
    Disconnected,
    /// Closing the connection failed.
    DisconnectFailed,
}

/// What the publisher asks of the driver.
#[derive(Debug, Clone, PartialEq, Eq)]
pub enum Action {
    /// Build a client and open the connection.
    Connect { address: String, client_id: String, keep_alive_secs: u64, clean_session: bool },
    /// Publish one heartbeat.
    Publish { topic: String, payload: String, qos: i32 },
    /// Suspend for so many milliseconds.
    Wait { millis: u64 },
    /// Close the connection.
    Disconnect,
    /// End the process with this exit code.
    Exit { code: i32 },
}

/// The mathematical content of an [`Action`].
pub enum ActionView {
    Connect { address: Seq<char>, client_id: Seq<char>, keep_alive_secs: u64, clean_session: bool },
    Publish { topic: Seq<char>, payload: Seq<char>, qos: i32 },
    Wait { millis: u64 },
    Disconnect,
    Exit { code: i32 },
}

impl View for Action {
    type V = ActionView;

    open spec fn view(&self) -> ActionView {
        match *self {
            Action::Connect { address, client_id, keep_alive_secs, clean_session } => ActionView::Connect {
                address: address@,
                client_id: client_id@,
                keep_alive_secs,
                clean_session,
            },
            Action::Publish { topic, payload, qos } => ActionView::Publish {
                topic: topic@,
                payload: payload@,
                qos,
            },
            Action::Wait { millis } => ActionView::Wait { millis },
            Action::Disconnect => ActionView::Disconnect,
            Action::Exit { code } => ActionView::Exit { code },
        }
    }
}

/// Which topic the heartbeats go to.
#[derive(Debug, Clone, Copy, PartialEq, Eq, Structural)]
pub enum TopicChoice {
    /// The topic of the settings.
    Configured,
    /// The default topic, whatever the settings say.
    FixedDefault,
}

/// The publisher of one run: its settings and where it stands.
#[derive(Debug, Clone)]
pub struct Publisher {
    config: Config,
    topic_choice: TopicChoice,
    phase: Phase,
}

/// The mathematical content of a [`Publisher`].
pub struct PublisherView {
    pub config: ConfigView,
    pub topic_choice: TopicChoice,
    pub phase: Phase,
}

impl View for Publisher {
    type V = PublisherView;

    closed spec fn view(&self) -> PublisherView {
        PublisherView { config: self.config@, topic_choice: self.topic_choice, phase: self.phase }
    }
}

/// The topic that a publisher's heartbeats go to.
pub open spec fn publish_topic(s: PublisherView) -> Seq<char> {
    match s.topic_choice {
        TopicChoice::Configured => s.config.topic,
        TopicChoice::FixedDefault => DEFAULT_TOPIC@,
    }
}

/// The connect request of a publisher.
pub open spec fn connect_action(s: PublisherView) -> ActionView {
    ActionView::Connect {
        address: s.config.broker_address,
        client_id: s.config.client_id,
        keep_alive_secs: KEEP_ALIVE_SECS,
        clean_session: true,
    }
}

/// The publish request of a publisher for a tick at `now`.
pub open spec fn publish_action(s: PublisherView, now: i64) -> ActionView {
    ActionView::Publish {
        topic: publish_topic(s),
        payload: payload_text(s.config.client_id, now as int),
        qos: QOS,
    }
}

/// The phase that an event leads to and the action that it calls for, or
/// `None` where the publisher does not await that event. `now` is the clock
/// reading at the event; only a publish request depends on it.
pub open spec fn transition(s: PublisherView, event: Event, now: i64) -> Option<(Phase, ActionView)> {
    match (s.phase, event) {
        (Phase::Uninitialized, Event::Start) => Some((Phase::Connecting, connect_action(s))),
        (Phase::Connecting, Event::Connected) => Some((Phase::Publishing, publish_action(s, now))),
        (Phase::Connecting, Event::ClientFailed) => Some(
            (Phase::Terminated, ActionView::Exit { code: EXIT_STARTUP_FAILURE }),
        ),
        (Phase::Connecting, Event::ConnectFailed) => Some(
            (Phase::Terminated, ActionView::Exit { code: EXIT_STARTUP_FAILURE }),
        ),
        (Phase::Publishing, Event::Published) => Some(
            (Phase::Waiting, ActionView::Wait { millis: s.config.interval_millis }),
        ),
        (Phase::Publishing, Event::PublishFailed) => Some((Phase::Disconnecting, ActionView::Disconnect)),
        (Phase::Waiting, Event::Waited) => Some((Phase::Publishing, publish_action(s, now))),
        (Phase::Disconnecting, Event::Disconnected) => Some(
            (Phase::Terminated, ActionView::Exit { code: EXIT_CLEAN }),
        ),
        (Phase::Disconnecting, Event::DisconnectFailed) => Some(
            (Phase::Terminated, ActionView::Exit { code: EXIT_CLEAN }),
        ),
        _ => None,
    }
}

/// Whether the event calls for a heartbeat, and so for a clock reading.
pub open spec fn starts_tick(phase: Phase, event: Event) -> bool {
    (phase == Phase::Connecting && event == Event::Connected) || (phase == Phase::Waiting && event
        == Event::Waited)
}

/// Whether `after` and `action` are what `event` at time `now` makes of
/// `before`: the transition's phase and action where the event was awaited,
/// no change and no action where it was not. The settings never change.
pub open spec fn follows(
    before: PublisherView,
    event: Event,
    now: i64,
    after: PublisherView,
    action: Option<ActionView>,
) -> bool {
    &&& after.config == before.config
    &&& after.topic_choice == before.topic_choice
    &&& match transition(before, event, now) {
        Some((phase, a)) => after.phase == phase && action == Some(a),
        None => after.phase == before.phase && action is None,
    }
}

/// The content of an action that may be absent.
pub open spec fn action_view(action: Option<Action>) -> Option<ActionView> {
    match action {
        Some(a) => Some(a@),
        None => None,
    }
}

impl Publisher {
    /// A publisher for these settings that has not started yet.
    pub fn new(config: Config, topic_choice: TopicChoice) -> (r: Publisher)
        ensures
            r@ == (PublisherView { config: config@, topic_choice, phase: Phase::Uninitialized }),
    {
        Publisher { config, topic_choice, phase: Phase::Uninitialized }
    }

    /// Where the publisher stands.
    pub fn phase(&self) -> (r: Phase)
        ensures
            r == self@.phase,
    {
        self.phase
    }

    /// The settings of the run.
    pub fn config(&self) -> (r: &Config)
        ensures
            r@ == self@.config,
    {
        &self.config
    }

    /// Which topic the heartbeats go to.
    pub fn topic_choice(&self) -> (r: TopicChoice)
        ensures
            r == self@.topic_choice,
    {
        self.topic_choice
    }

    /// Whether the run is over.
    pub fn is_terminated(&self) -> (r: bool)
        ensures
            r == (self@.phase == Phase::Terminated),
    {
        matches!(self.phase, Phase::Terminated)
    }

    fn connect_request(&self) -> (r: Action)
        ensures
            r@ == connect_action(self@),
    {
        Action::Connect {
            address: self.config.broker_address.clone(),
            client_id: self.config.client_id.clone(),
            keep_alive_secs: KEEP_ALIVE_SECS,
            clean_session: true,
        }
    }

    fn publish_request(&self, now: i64) -> (r: Action)
        ensures
            r@ == publish_action(self@, now),
    {
        let topic = match self.topic_choice {
            TopicChoice::Configured => self.config.topic.clone(),
            TopicChoice::FixedDefault => String::from_str(DEFAULT_TOPIC),
        };
        Action::Publish {
            topic,
            payload: heartbeat_payload(self.config.client_id.as_str(), now),
            qos: QOS,
        }
    }

    /// Whether `event` would make the publisher ask for a heartbeat.
    pub fn ticks_on(&self, event: Event) -> (r: bool)
        ensures
            r == starts_tick(self@.phase, event),
    {
        match (self.phase, event) {
            (Phase::Connecting, Event::Connected) => true,
            (Phase::Waiting, Event::Waited) => true,
            _ => false,
        }
    }

    /// Takes one event that happened at clock reading `now`, moves to the
    /// next phase and returns the action to perform. An event that the
    /// publisher does not await changes nothing and yields `None`.
    pub fn advance(&mut self, event: Event, now: i64) -> (r: Option<Action>)
        ensures
            follows(old(self)@, event, now, final(self)@, action_view(r)),
    {
        match (self.phase, event) {
            (Phase::Uninitialized, Event::Start) => {
                let action = self.connect_request();
                self.phase = Phase::Connecting;
                Some(action)
            },
            (Phase::Connecting, Event::Connected) => {
                let action = self.publish_request(now);
                self.phase = Phase::Publishing;
                Some(action)
            },
            (Phase::Connecting, Event::ClientFailed) => {
                self.phase = Phase::Terminated;
                Some(Action::Exit { code: EXIT_STARTUP_FAILURE })
            },
            (Phase::Connecting, Event::ConnectFailed) => {
                self.phase = Phase::Terminated;
                Some(Action::Exit { code: EXIT_STARTUP_FAILURE })
            },
            (Phase::Publishing, Event::Published) => {
                self.phase = Phase::Waiting;
                Some(Action::Wait { millis: self.config.interval_millis })
            },
            (Phase::Publishing, Event::PublishFailed) => {
                self.phase = Phase::Disconnecting;
                Some(Action::Disconnect)
            },
            (Phase::Waiting, Event::Waited) => {
                let action = self.publish_request(now);
                self.phase = Phase::Publishing;
                Some(action)
            },
            (Phase::Disconnecting, Event::Disconnected) => {
                self.phase = Phase::Terminated;
                Some(Action::Exit { code: EXIT_CLEAN })
            },
            (Phase::Disconnecting, Event::DisconnectFailed) => {
                self.phase = Phase::Terminated;
                Some(Action::Exit { code: EXIT_CLEAN })
            },
            _ => None,
        }
    }

    /// Takes one event as [`Publisher::advance`] does, reading the clock
    /// itself where the event calls for a heartbeat. Whatever the clock says,
    /// the outcome is that of `advance` at some reading.
    pub fn step(&mut self, event: Event) -> (r: Option<Action>)
        ensures
            exists|now: i64| follows(old(self)@, event, now, final(self)@, action_view(r)),
    {
        let now: i64 = if self.ticks_on(event) {
            unix_seconds_now()
        } else {
            0
        };
        let action = self.advance(event, now);
        assert(follows(old(self)@, event, now, self@, action_view(action)));
        action
    }
}

/// A connect request is made once, on the start of a fresh publisher, and it
/// names exactly the broker address and the client identifier of the
/// settings, a keep-alive of 20 seconds and a clean session.
pub proof fn lemma_connect_uses_settings(s: PublisherView, event: Event, now: i64)
    ensures
        s.phase == Phase::Uninitialized ==> transition(s, Event::Start, now) == Some(
            (
                Phase::Connecting,
                ActionView::Connect {
                    address: s.config.broker_address,
                    client_id: s.config.client_id,
                    keep_alive_secs: 20,
                    clean_session: true,
                },
            ),
        ),
        match transition(s, event, now) {
            Some((_, ActionView::Connect { address, client_id, keep_alive_secs, clean_session })) => {
                &&& s.phase == Phase::Uninitialized
                &&& event == Event::Start
                &&& address == s.config.broker_address
                &&& client_id == s.config.client_id
                &&& keep_alive_secs == 20
                &&& clean_session
            },
            _ => true,
        },
{
}

/// Every heartbeat that is asked for carries the client identifier, a colon
/// and the clock reading of its tick in decimal, and that reading can be
/// read back from it.
pub proof fn lemma_publish_payload(s: PublisherView, event: Event, now: i64)
    ensures
        match transition(s, event, now) {
            Some((_, ActionView::Publish { topic, payload, qos })) => {
                &&& payload == s.config.client_id + seq![':'] + decimal(now as int)
                &&& payload_timestamp(s.config.client_id, payload) == now
                &&& topic == publish_topic(s)
                &&& qos == 1
            },
            _ => true,
        },
{
    lemma_payload_carries_timestamp(s.config.client_id, now as int);
}

/// Two heartbeats of one run, the second asked for at a clock reading not
/// below that of the first, carry timestamps in that order.
pub proof fn lemma_consecutive_payloads_ordered(
    first: PublisherView,
    first_event: Event,
    first_now: i64,
    second: PublisherView,
    second_event: Event,
    second_now: i64,
)
    requires
        first.config == second.config,
        first_now <= second_now,
    ensures
        match (transition(first, first_event, first_now), transition(second, second_event, second_now)) {
            (
                Some((_, ActionView::Publish { payload: p1, .. })),
                Some((_, ActionView::Publish { payload: p2, .. })),
            ) => payload_timestamp(first.config.client_id, p1) <= payload_timestamp(
                first.config.client_id,
                p2,
            ),
            _ => true,
        },
{
    lemma_payload_carries_timestamp(first.config.client_id, first_now as int);
    lemma_payload_carries_timestamp(first.config.client_id, second_now as int);
}

/// Between two heartbeats lies a wait of the configured interval: a
/// successful publish is answered by a wait of exactly the interval, the
/// waiting phase is entered in no other way, and but for the first heartbeat
/// after connecting, a heartbeat is asked for only when that wait is over.
pub proof fn lemma_wait_between_publishes(s: PublisherView, event: Event, now: i64)
    ensures
        s.phase == Phase::Publishing ==> transition(s, Event::Published, now) == Some(
            (Phase::Waiting, ActionView::Wait { millis: s.config.interval_millis }),
        ),
        match transition(s, event, now) {
            Some((Phase::Waiting, action)) => {
                &&& s.phase == Phase::Publishing
                &&& event == Event::Published
                &&& action == (ActionView::Wait { millis: s.config.interval_millis })
            },
            Some((_, ActionView::Wait { .. })) => false,
            Some((phase, ActionView::Publish { .. })) => {
                &&& phase == Phase::Publishing
                &&& (s.phase == Phase::Connecting && event == Event::Connected) || (s.phase
                    == Phase::Waiting && event == Event::Waited)
            },
            _ => true,
        },
{
}

/// A failed publish ends the loop at once: it is answered by a disconnect,
/// not by a wait, and from then on no event brings a wait, a heartbeat or a
/// new connection; the run can only end.
pub proof fn lemma_failed_publish_stops(s: PublisherView, event: Event, now: i64)
    ensures
        s.phase == Phase::Publishing ==> transition(s, Event::PublishFailed, now) == Some(
            (Phase::Disconnecting, ActionView::Disconnect),
        ),
        s.phase == Phase::Disconnecting || s.phase == Phase::Terminated ==> match transition(
            s,
            event,
            now,
        ) {
            Some((phase, action)) => phase == Phase::Terminated && action == (ActionView::Exit {
                code: EXIT_CLEAN,
            }),
            None => true,
        },
        transition(s, event, now) matches Some((Phase::Connecting, _)) ==> s.phase
            == Phase::Uninitialized,
        s.phase == Phase::Terminated ==> transition(s, event, now) is None,
{
}

} // verus!
