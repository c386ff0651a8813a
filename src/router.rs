use vstd::prelude::*;
use crate::debounce::{accepts, pulse_spec, pulse_steps, Debouncer, PinStep, Trigger};
use crate::door::{door_state_of, parse_door_state, DoorState};
use crate::liveness::{build_button_reset, is_button_reset, BUTTON_QOS, DOOR_QOS};
use crate::message::{same_text, BusMessage, DeviceProfile};
use crate::reconnect::ReconnectOutcome;

verus! {

/// A topic to subscribe to, with its delivery level.
#[derive(Clone, Debug)]
pub struct Subscription {
    pub topic: String,
    pub qos: u8,
}

/// What the program around the agent is to do, in order.
#[derive(Debug)]
pub enum Action {
    /// Drive the actuator pin.
    Pin(PinStep),
    /// Publish a message; a failure is reported and otherwise ignored.
    Publish(BusMessage),
    /// Subscribe and consume a fresh inbound stream.
    Subscribe(Subscription),
    /// Report a message whose topic or payload is not recognised.
    ReportUnknown,
    /// Warn that the door-state payload named no state.
    WarnDoorState,
    /// Run the reconnect policy, then hand its outcome back.
    Reconnect,
    /// Stop consuming and wait for the shutdown handler to end the process.
    Park,
}

/// How an inbound message is classified.
#[derive(PartialEq, Eq, Structural, Clone, Copy, Debug)]
pub enum MessageKind {
    /// "1" on the button topic.
    Press,
    /// "0" on the button topic.
    Idle,
    /// A payload on the door-state topic.
    DoorReport,
    /// Anything else.
    Unknown,
}

/// The classification of a message on `topic` with `payload`.
pub open spec fn kind_of(p: &DeviceProfile, topic: Seq<char>, payload: Seq<char>) -> MessageKind {
    if topic == p.button_topic@ {
        if payload == "1"@ {
            MessageKind::Press
        } else if payload == "0"@ {
            MessageKind::Idle
        } else {
            MessageKind::Unknown
        }
    } else if p.door_topic is Some && topic == p.door_topic->Some_0@ {
        MessageKind::DoorReport
    } else {
        MessageKind::Unknown
    }
}

/// The single control loop's state: the deployment, the debouncer and the
/// door's last reported position.
pub struct Agent {
    pub profile: DeviceProfile,
    pub debouncer: Debouncer,
    pub door: DoorState,
}

/// Sorts a message by topic and payload.
pub fn classify(p: &DeviceProfile, topic: &str, payload: &str) -> (r: MessageKind)
    ensures
        r == kind_of(p, topic@, payload@),
{
    if same_text(topic, p.button_topic.as_str()) {
        if same_text(payload, "1") {
            MessageKind::Press
        } else if same_text(payload, "0") {
            MessageKind::Idle
        } else {
            MessageKind::Unknown
        }
    } else {
        match &p.door_topic {
            Some(d) => {
                if same_text(topic, d.as_str()) {
                    MessageKind::DoorReport
                } else {
                    MessageKind::Unknown
                }
            },
            None => MessageKind::Unknown,
        }
    }
}

impl Agent {
    /// An agent whose debounce window starts at `start_ms`, with the door's
    /// position not yet known.
    pub fn new(profile: DeviceProfile, start_ms: Option<u64>) -> (r: Agent)
        ensures
            r.profile == profile,
            r.debouncer.last_accepted_ms == start_ms,
            r.door == DoorState::Unknown,
    {
        Agent { profile, debouncer: Debouncer::new(start_ms), door: DoorState::Unknown }
    }

    /// Handles one inbound message received at `now_ms`.
    ///
    /// A press is debounced; an accepted press pulses the pin. Either way the
    /// button topic is then reset to "0", exactly once. A door-state payload
    /// is recorded, an unrecognised one as `Unknown` with a warning.
    pub fn on_message(&mut self, topic: &str, payload: &str, now_ms: u64) -> (r: Vec<Action>)
        ensures
            final(self).profile == old(self).profile,
            kind_of(&old(self).profile, topic@, payload@) == MessageKind::Press ==> {
                let fired = accepts(old(self).debouncer.last_accepted_ms, now_ms);
                &&& final(self).door == old(self).door
                &&& fired ==> final(self).debouncer.last_accepted_ms == Some(now_ms)
                &&& !fired ==> final(self).debouncer == old(self).debouncer
                &&& r@.len() == (if fired { pulse_spec().len() + 1 } else { 1 })
                &&& fired ==> forall|i: int| 0 <= i < pulse_spec().len() ==> r@[i] == Action::Pin(pulse_spec()[i])
                &&& forall|i: int| 0 <= i < r@.len() - 1 ==> !(r@[i] is Publish)
                &&& r@.last() is Publish
                &&& is_button_reset(&old(self).profile, r@.last()->Publish_0)
            },
            kind_of(&old(self).profile, topic@, payload@) == MessageKind::Idle ==> {
                &&& final(self).debouncer == old(self).debouncer
                &&& final(self).door == old(self).door
                &&& r@.len() == 0
            },
            kind_of(&old(self).profile, topic@, payload@) == MessageKind::DoorReport ==> {
                &&& final(self).debouncer == old(self).debouncer
                &&& door_state_of(payload@) is Some ==> final(self).door == door_state_of(payload@)->Some_0
                    && r@.len() == 0
                &&& door_state_of(payload@) is None ==> final(self).door == DoorState::Unknown
                    && r@ == seq![Action::WarnDoorState]
            },
            kind_of(&old(self).profile, topic@, payload@) == MessageKind::Unknown ==> {
                &&& final(self).debouncer == old(self).debouncer
                &&& final(self).door == old(self).door
                &&& r@ == seq![Action::ReportUnknown]
            },
    {
        let mut r: Vec<Action> = Vec::new();
        match classify(&self.profile, topic, payload) {
            MessageKind::Press => {
                if self.debouncer.try_trigger(now_ms) == Trigger::Fired {
                    let steps = pulse_steps();
                    let mut i: usize = 0;
                    while i < steps.len()
                        invariant
                            steps@ == pulse_spec(),
                            i <= steps@.len(),
                            r@.len() == i,
                            forall|j: int| 0 <= j < i ==> r@[j] == Action::Pin(steps@[j]),
                        decreases steps@.len() - i,
                    {
                        r.push(Action::Pin(steps[i]));
                        i = i + 1;
                    }
                }
                r.push(Action::Publish(build_button_reset(&self.profile)));
            },
            MessageKind::Idle => {},
            MessageKind::DoorReport => {
                match parse_door_state(payload) {
                    Some(d) => {
                        self.door = d;
                    },
                    None => {
                        self.door = DoorState::Unknown;
                        r.push(Action::WarnDoorState);
                    },
                }
            },
            MessageKind::Unknown => {
                r.push(Action::ReportUnknown);
            },
        }
        r
    }

    /// The topics to subscribe to on a fresh stream: the button topic, and
    /// the door-state topic where the deployment has one.
    pub fn subscriptions(&self) -> (r: Vec<Action>)
        ensures
            r@.len() == (if self.profile.door_topic is Some { 2int } else { 1int }),
            r@[0] is Subscribe,
            r@[0]->Subscribe_0.topic@ == self.profile.button_topic@,
            r@[0]->Subscribe_0.qos == BUTTON_QOS,
            self.profile.door_topic is Some ==> r@[1] is Subscribe
                && r@[1]->Subscribe_0.topic@ == self.profile.door_topic->Some_0@
                && r@[1]->Subscribe_0.qos == DOOR_QOS,
    {
        let mut r: Vec<Action> = Vec::new();
        r.push(Action::Subscribe(Subscription { topic: self.profile.button_topic.clone(), qos: BUTTON_QOS }));
        match &self.profile.door_topic {
            Some(d) => {
                r.push(Action::Subscribe(Subscription { topic: d.clone(), qos: DOOR_QOS }));
            },
            None => {},
        }
        r
    }

    /// At the top of the loop: park once shutdown is signalled, else
    /// subscribe and consume a fresh stream.
    pub fn resume(&self, stopping: bool) -> (r: Vec<Action>)
        ensures
            stopping ==> r@ == seq![Action::Park],
            !stopping ==> r@.len() == (if self.profile.door_topic is Some { 2int } else { 1int })
                && forall|i: int| 0 <= i < r@.len() ==> r@[i] is Subscribe,
            !stopping ==> r@[0]->Subscribe_0.topic@ == self.profile.button_topic@,
    {
        if stopping {
            let r = vec![Action::Park];
            assert(r@ =~= seq![Action::Park]);
            r
        } else {
            self.subscriptions()
        }
    }

    /// The inbound stream ended: the link dropped, unless shutdown is under way.
    pub fn on_stream_end(&self, stopping: bool) -> (r: Action)
        ensures
            stopping ==> r == Action::Park,
            !stopping ==> r == Action::Reconnect,
    {
        if stopping {
            Action::Park
        } else {
            Action::Reconnect
        }
    }

    /// After the reconnect policy: resume on success, park when it aborted.
    pub fn after_reconnect(&self, outcome: ReconnectOutcome) -> (r: Vec<Action>)
        ensures
            outcome == ReconnectOutcome::Aborted ==> r@ == seq![Action::Park],
            outcome == ReconnectOutcome::Success ==> r@.len() == (if self.profile.door_topic is Some { 2int } else { 1int })
                && forall|i: int| 0 <= i < r@.len() ==> r@[i] is Subscribe,
            outcome == ReconnectOutcome::Success ==> r@[0]->Subscribe_0.topic@ == self.profile.button_topic@,
    {
        match outcome {
            ReconnectOutcome::Success => self.subscriptions(),
            ReconnectOutcome::Aborted => self.resume(true),
        }
    }
}

} // verus!
