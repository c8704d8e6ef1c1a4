//! The life cycle of one connection.
//!
//! A session decides; it never waits. Whoever drives it owns the transport
//! and the subscription to the hub: it hands each thing that happened to
//! `Session::step` as an `Event` and carries out the `Action` that comes back.
//!
//! ```text
//!              WelcomeSent
//! Connecting ---------------> Active
//!      |                        |
//!      |  Disconnected          |  Disconnected
//!      |  TransportFailed       |  TransportFailed
//!      |  HubClosed             |  HubClosed
//!      v                        v
//!    Closed <-------------------'
//! ```
use vstd::prelude::*;
use vstd::string::*;
use crate::identity::{is_identity, mint};
use crate::json::{json_string, quote};
use crate::envelope::{
    decode, decoded, encode, encoded, DecodeError, Envelope, EnvelopeView, MessageKind,
};
use crate::registry::{
    distinct_ids, has_id, lemma_registered_in_snapshot, lemma_registered_names, name_of, names_of,
    registered, Entry, Registry,
};

verus! {

/// How many items the hub keeps for a subscription that has not taken them
/// yet. A subscription that falls further behind misses the oldest items.
pub const HUB_CAPACITY: usize = 100;

/// How a session came to its end.
#[derive(Clone, Copy, Debug, PartialEq, Eq, Structural)]
pub enum Ending {
    /// The client closed the transport.
    Clean,
    /// The transport failed, or the hub is gone.
    Failed,
}

/// Where a session stands in its life.
#[derive(Clone, Copy, Debug, PartialEq, Eq, Structural)]
pub enum Phase {
    /// The welcome is on its way to the client.
    Connecting,
    /// Frames of the client and items of the hub are handled as they come.
    Active,
    /// Nothing is handled any more.
    Closed(Ending),
}

/// What happened to a session.
#[derive(Clone, Debug, PartialEq, Eq)]
pub enum Event {
    /// The welcome frame has been written to the client.
    WelcomeSent,
    /// A text frame came from the client.
    Frame(String),
    /// A frame that is no text came from the client.
    OtherFrame,
    /// The client closed the transport.
    Disconnected,
    /// Reading from the transport or writing to it failed.
    TransportFailed,
    /// The subscription yielded the next item of the hub.
    Broadcast(String),
    /// The subscription fell too far behind: the hub has dropped the oldest
    /// items that it had not taken yet.
    Lagged,
    /// The subscription ended: the hub is gone.
    HubClosed,
    /// A text that the session had published reached nobody: the hub had no
    /// subscription at that moment.
    NotPublished,
}

/// An event as a mathematical value.
pub enum EventView {
    WelcomeSent,
    Frame(Seq<char>),
    OtherFrame,
    Disconnected,
    TransportFailed,
    Broadcast(Seq<char>),
    Lagged,
    HubClosed,
    NotPublished,
}

impl View for Event {
    type V = EventView;

    open spec fn view(&self) -> EventView {
        match self {
            Event::WelcomeSent => EventView::WelcomeSent,
            Event::Frame(text) => EventView::Frame(text@),
            Event::OtherFrame => EventView::OtherFrame,
            Event::Disconnected => EventView::Disconnected,
            Event::TransportFailed => EventView::TransportFailed,
            Event::Broadcast(text) => EventView::Broadcast(text@),
            Event::Lagged => EventView::Lagged,
            Event::HubClosed => EventView::HubClosed,
            Event::NotPublished => EventView::NotPublished,
        }
    }
}

/// What the driver of a session is to do next.
#[derive(Clone, Debug, PartialEq, Eq)]
pub enum Action {
    /// Nothing: wait for the next event.
    Idle,
    /// Write this text frame to the client.
    Send(String),
    /// Hand this text to the hub, for every subscription.
    Publish(String),
}

/// An action as a mathematical value.
pub enum ActionView {
    Idle,
    Send(Seq<char>),
    Publish(Seq<char>),
}

impl View for Action {
    type V = ActionView;

    open spec fn view(&self) -> ActionView {
        match self {
            Action::Idle => ActionView::Idle,
            Action::Send(text) => ActionView::Send(text@),
            Action::Publish(text) => ActionView::Publish(text@),
        }
    }
}

/// A session as a mathematical value.
pub struct SessionView {
    pub id: Seq<char>,
    pub phase: Phase,
}

/// One connection: its identity, and where it stands in its life.
#[derive(Debug)]
pub struct Session {
    id: String,
    phase: Phase,
}

impl View for Session {
    type V = SessionView;

    closed spec fn view(&self) -> SessionView {
        SessionView { id: self.id@, phase: self.phase }
    }
}

/// The payload of a chat message as the relay hands it on: a JSON object
/// that says who the message is from and what it says. Both texts stand in
/// it as JSON string literals, so that a client reads back exactly the name
/// and the message, whatever characters they hold.
pub open spec fn chat_payload(from: Seq<char>, message: Seq<char>) -> Seq<char> {
    "{\"from\": "@ + json_string(from) + ", \"message\": "@ + json_string(message) + "}"@
}

/// The envelope that carries a chat payload.
pub open spec fn message_envelope(payload: Seq<char>) -> EnvelopeView {
    EnvelopeView { message_type: MessageKind::Message, data_array: None, data: Some(payload) }
}

/// The envelope that carries the registered display names.
pub open spec fn users_envelope(names: Seq<Seq<char>>) -> EnvelopeView {
    EnvelopeView { message_type: MessageKind::Users, data_array: Some(names), data: None }
}

/// The frame that carries a chat message to the clients.
pub open spec fn message_frame(from: Seq<char>, message: Seq<char>) -> Seq<char> {
    encoded(message_envelope(chat_payload(from, message)))
}

/// The frame that carries the registered display names to the clients.
pub open spec fn users_frame(names: Seq<Seq<char>>) -> Seq<char> {
    encoded(users_envelope(names))
}

/// The frame that greets every client.
pub open spec fn welcome() -> Seq<char> {
    message_frame("System"@, "Welcome to chat!"@)
}

/// A session of the given identity that was just accepted.
pub open spec fn accepted(id: Seq<char>) -> SessionView {
    SessionView { id, phase: Phase::Connecting }
}

/// A text, or another where there is none.
pub open spec fn text_or(text: Option<Seq<char>>, otherwise: Seq<char>) -> Seq<char> {
    match text {
        Some(text) => text,
        None => otherwise,
    }
}

/// What a step leaves behind: the session, the registry, and the action for
/// the driver.
pub struct Outcome {
    pub session: SessionView,
    pub registry: Seq<Entry>,
    pub action: ActionView,
}

/// What an active session with identity `id` does with a frame of its client
/// that was decoded.
///
/// * A frame that is no envelope changes nothing.
/// * `Register` records the name in `data`, or the identity itself where
///   `data` is absent, and publishes the names that are registered then.
/// * `Message` publishes the text in `data`, or the empty text, under the
///   display name of the connection.
/// * `Users` changes nothing: clients do not send it.
pub open spec fn handled(
    id: Seq<char>,
    registry: Seq<Entry>,
    frame: Result<EnvelopeView, DecodeError>,
) -> (Seq<Entry>, ActionView) {
    match frame {
        Err(_) => (registry, ActionView::Idle),
        Ok(envelope) => match envelope.message_type {
            MessageKind::Register => {
                let after = registered(registry, id, text_or(envelope.data, id));
                (after, ActionView::Publish(users_frame(names_of(after))))
            },
            MessageKind::Message => (
                registry,
                ActionView::Publish(
                    message_frame(name_of(registry, id), text_or(envelope.data, Seq::empty())),
                ),
            ),
            MessageKind::Users => (registry, ActionView::Idle),
        },
    }
}

/// The phase after an event that ends a session, whatever the phase before.
pub open spec fn ending_of(event: EventView) -> Option<Ending> {
    match event {
        EventView::Disconnected => Some(Ending::Clean),
        EventView::TransportFailed => Some(Ending::Failed),
        EventView::HubClosed => Some(Ending::Failed),
        _ => None,
    }
}

/// One step of a session: from state and event to next state and action.
///
/// * A closed session does nothing.
/// * The end of the transport, a failure of the transport and the end of the
///   hub close the session.
/// * While connecting, only the news that the welcome was written counts: it
///   makes the session active. Nothing is sent or published before.
/// * An active session hands each item of the hub to its client as it is,
///   and handles each text frame of its client as `handled` says. A frame
///   that is no text is passed over, and so is the news that the subscription
///   has missed items: the session goes on with the items that are left. That
///   a published text reached nobody is no failure either.
pub open spec fn step_of(session: SessionView, registry: Seq<Entry>, event: EventView) -> Outcome {
    let unchanged = Outcome { session, registry, action: ActionView::Idle };
    match session.phase {
        Phase::Closed(_) => unchanged,
        _ => match ending_of(event) {
            Some(ending) => Outcome {
                session: SessionView { id: session.id, phase: Phase::Closed(ending) },
                registry,
                action: ActionView::Idle,
            },
            None => match (session.phase, event) {
                (Phase::Connecting, EventView::WelcomeSent) => Outcome {
                    session: SessionView { id: session.id, phase: Phase::Active },
                    registry,
                    action: ActionView::Idle,
                },
                (Phase::Active, EventView::Broadcast(text)) => Outcome {
                    session,
                    registry,
                    action: ActionView::Send(text),
                },
                (Phase::Active, EventView::Frame(text)) => {
                    let (after, action) = handled(session.id, registry, decoded(text));
                    Outcome { session, registry: after, action }
                },
                _ => unchanged,
            },
        },
    }
}

/// Builds the payload of a chat message.
pub fn build_chat_payload(from: &str, message: &str) -> (r: String)
    ensures
        r@ == chat_payload(from@, message@),
{
    let mut out = String::from_str("{\"from\": ");
    let from = quote(from);
    out.append(from.as_str());
    out.append(", \"message\": ");
    let message = quote(message);
    out.append(message.as_str());
    out.append("}");
    out
}

/// Builds the frame that greets every client.
pub fn welcome_frame() -> (r: String)
    ensures
        r@ == welcome(),
{
    let payload = build_chat_payload("System", "Welcome to chat!");
    encode(&Envelope { message_type: MessageKind::Message, data_array: None, data: Some(payload) })
}

impl Session {
    /// Begins the session of a connection that was just accepted under the
    /// given identity. The session is connecting, and its first action is to
    /// send the welcome.
    pub fn open(id: String) -> (r: (Session, Action))
        ensures
            r.0@ == accepted(id@),
            r.1@ == ActionView::Send(welcome()),
    {
        (Session { id, phase: Phase::Connecting }, Action::Send(welcome_frame()))
    }

    /// Accepts a connection: mints a fresh identity for it and begins its
    /// session as `open` does.
    pub fn accept() -> (r: (Session, Action))
        ensures
            r.0@.phase == Phase::Connecting,
            is_identity(r.0@.id),
            r.1@ == ActionView::Send(welcome()),
    {
        Session::open(mint())
    }

    /// The identity of the connection.
    pub fn id(&self) -> (r: &str)
        ensures
            r@ == self@.id,
    {
        self.id.as_str()
    }

    /// Where the session stands.
    pub fn phase(&self) -> (r: Phase)
        ensures
            r == self@.phase,
    {
        self.phase
    }

    /// Whether the session has ended.
    pub fn is_closed(&self) -> (r: bool)
        ensures
            r == (self@.phase is Closed),
    {
        match self.phase {
            Phase::Closed(_) => true,
            _ => false,
        }
    }

    /// Handles a frame of the client that was decoded, for a connection with
    /// the identity of this session.
    pub fn handle(
        &self,
        registry: &mut Registry,
        frame: Result<Envelope, DecodeError>,
    ) -> (r: Action)
        requires
            old(registry).wf(),
        ensures
            final(registry).wf(),
            match frame {
                Ok(envelope) => (final(registry)@, r@) == handled(
                    self@.id,
                    old(registry)@,
                    Ok(envelope@),
                ),
                Err(error) => (final(registry)@, r@) == handled(
                    self@.id,
                    old(registry)@,
                    Err(error),
                ),
            },
    {
        let envelope = match frame {
            Ok(envelope) => envelope,
            Err(_) => { return Action::Idle; },
        };
        match envelope.message_type {
            MessageKind::Register => {
                let name = match envelope.data {
                    Some(name) => name,
                    None => self.id.clone(),
                };
                registry.register(self.id.as_str(), name.as_str());
                let names = registry.snapshot();
                let users = Envelope {
                    message_type: MessageKind::Users,
                    data_array: Some(names),
                    data: None,
                };
                Action::Publish(encode(&users))
            },
            MessageKind::Message => {
                let from = registry.lookup(self.id.as_str());
                let text = match envelope.data {
                    Some(text) => text,
                    None => String::new(),
                };
                let payload = build_chat_payload(from.as_str(), text.as_str());
                let message = Envelope {
                    message_type: MessageKind::Message,
                    data_array: None,
                    data: Some(payload),
                };
                Action::Publish(encode(&message))
            },
            MessageKind::Users => Action::Idle,
        }
    }

    /// Takes one step: the session and the registry change as `step_of` says,
    /// and the action that it names comes back.
    pub fn step(&mut self, registry: &mut Registry, event: Event) -> (r: Action)
        requires
            old(registry).wf(),
        ensures
            final(registry).wf(),
            (Outcome { session: final(self)@, registry: final(registry)@, action: r@ }) == step_of(
                old(self)@,
                old(registry)@,
                event@,
            ),
    {
        match self.phase {
            Phase::Closed(_) => { return Action::Idle; },
            _ => {},
        }
        match event {
            Event::Disconnected => {
                self.phase = Phase::Closed(Ending::Clean);
                Action::Idle
            },
            Event::TransportFailed => {
                self.phase = Phase::Closed(Ending::Failed);
                Action::Idle
            },
            Event::HubClosed => {
                self.phase = Phase::Closed(Ending::Failed);
                Action::Idle
            },
            Event::Lagged => Action::Idle,
            Event::NotPublished => Action::Idle,
            Event::WelcomeSent => {
                match self.phase {
                    Phase::Connecting => { self.phase = Phase::Active; },
                    _ => {},
                }
                Action::Idle
            },
            Event::OtherFrame => Action::Idle,
            Event::Broadcast(text) => {
                match self.phase {
                    Phase::Active => Action::Send(text),
                    _ => Action::Idle,
                }
            },
            Event::Frame(text) => {
                match self.phase {
                    Phase::Active => {
                        let frame = decode(text.as_str());
                        self.handle(registry, frame)
                    },
                    _ => Action::Idle,
                }
            },
        }
    }
}

/// Whether a session hands a text of the hub to its client as it is, and
/// stays as it was.
pub open spec fn forwards(session: SessionView, registry: Seq<Entry>, text: Seq<char>) -> bool {
    step_of(session, registry, EventView::Broadcast(text)) == (Outcome {
        session,
        registry,
        action: ActionView::Send(text),
    })
}

/// Where a session and the registry stand after a run of events, and the
/// action of the last step (`Idle` where nothing happened yet).
pub open spec fn after(
    session: SessionView,
    registry: Seq<Entry>,
    events: Seq<EventView>,
) -> Outcome
    decreases events.len(),
{
    if events.len() == 0 {
        Outcome { session, registry, action: ActionView::Idle }
    } else {
        let before = after(session, registry, events.drop_last());
        step_of(before.session, before.registry, events.last())
    }
}

/// The frames that an action has written to the client.
pub open spec fn frames_of(action: ActionView) -> Seq<Seq<char>> {
    match action {
        ActionView::Send(text) => seq![text],
        _ => Seq::empty(),
    }
}

/// The frames that the steps of a run have written to the client, in order.
pub open spec fn frames_after(
    session: SessionView,
    registry: Seq<Entry>,
    events: Seq<EventView>,
) -> Seq<Seq<char>>
    decreases events.len(),
{
    if events.len() == 0 {
        Seq::empty()
    } else {
        frames_after(session, registry, events.drop_last()) + frames_of(
            after(session, registry, events).action,
        )
    }
}

/// Everything that a client is sent from the moment its connection is
/// accepted: what `Session::open` has sent, then what the steps have sent.
pub open spec fn transcript(id: Seq<char>, registry: Seq<Entry>, events: Seq<EventView>) -> Seq<
    Seq<char>,
> {
    seq![welcome()] + frames_after(accepted(id), registry, events)
}

/// Until a new session hears that its welcome was written, it is not active,
/// it has nothing sent or published, and it leaves the registry alone.
pub proof fn lemma_quiet_before_welcome(
    id: Seq<char>,
    registry: Seq<Entry>,
    events: Seq<EventView>,
)
    requires
        forall|i: int| 0 <= i < events.len() ==> !((#[trigger] events[i]) is WelcomeSent),
    ensures
        after(accepted(id), registry, events).session.phase != Phase::Active,
        after(accepted(id), registry, events).session.id == id,
        after(accepted(id), registry, events).registry == registry,
        after(accepted(id), registry, events).action is Idle,
        transcript(id, registry, events) == seq![welcome()],
    decreases events.len(),
{
    if events.len() > 0 {
        lemma_quiet_before_welcome(id, registry, events.drop_last());
    }
}

/// The welcome comes first: whatever happens to a connection, the first
/// frame that its client is sent is the welcome, and whenever a later step
/// has a frame sent or a text published, the news that the welcome was
/// written came in an earlier step.
pub proof fn lemma_welcome_first(id: Seq<char>, registry: Seq<Entry>, events: Seq<EventView>)
    ensures
        transcript(id, registry, events).len() > 0,
        transcript(id, registry, events)[0] == welcome(),
        events.len() > 0 && !(after(accepted(id), registry, events).action is Idle)
            ==> exists|i: int| 0 <= i < events.len() - 1 && (#[trigger] events[i]) is WelcomeSent,
{
    if events.len() > 0 && !(after(accepted(id), registry, events).action is Idle) {
        let earlier = events.drop_last();
        if forall|i: int| 0 <= i < earlier.len() ==> !((#[trigger] earlier[i]) is WelcomeSent) {
            // Then the session was not yet active, and the last step was idle.
            lemma_quiet_before_welcome(id, registry, earlier);
        }
    }
}

/// A closed session stays as it is: no event moves it, has anything sent or
/// published, or reaches the registry.
pub proof fn lemma_closed_is_final(
    session: SessionView,
    registry: Seq<Entry>,
    events: Seq<EventView>,
)
    requires
        session.phase is Closed,
    ensures
        after(session, registry, events) == (Outcome {
            session,
            registry,
            action: ActionView::Idle,
        }),
    decreases events.len(),
{
    if events.len() > 0 {
        lemma_closed_is_final(session, registry, events.drop_last());
    }
}

/// A registration is broadcast: when an active session handles a `register`
/// frame, it records the name that the frame asks for, or its own identity
/// where the frame names none, and publishes a `users` envelope whose names
/// contain that name. Every active session, the sender among them, hands the
/// published text to its client as it is.
pub proof fn lemma_registration_broadcast(
    sender: SessionView,
    receiver: SessionView,
    registry: Seq<Entry>,
    frame: Seq<char>,
    envelope: EnvelopeView,
)
    requires
        distinct_ids(registry),
        sender.phase == Phase::Active,
        receiver.phase == Phase::Active,
        decoded(frame) == Ok::<EnvelopeView, DecodeError>(envelope),
        envelope.message_type == MessageKind::Register,
    ensures
        ({
            let sent = step_of(sender, registry, EventView::Frame(frame));
            let name = text_or(envelope.data, sender.id);
            let names = names_of(sent.registry);
            &&& names.contains(name)
            &&& name_of(sent.registry, sender.id) == name
            &&& distinct_ids(sent.registry)
            &&& sent.session == sender
            &&& sent.action == ActionView::Publish(users_frame(names))
            &&& forwards(receiver, sent.registry, users_frame(names))
            &&& forwards(sent.session, sent.registry, users_frame(names))
        }),
{
    let name = text_or(envelope.data, sender.id);
    lemma_registered_in_snapshot(registry, sender.id, name);
    lemma_registered_names(registry, sender.id, name, sender.id);
}

/// A message fans out: when an active session handles a `message` frame, it
/// publishes a `message` envelope whose payload names the sender's display
/// name and the text, and every active session hands the published text to
/// its client as it is. The registry stays as it was.
pub proof fn lemma_message_fan_out(
    sender: SessionView,
    receiver: SessionView,
    registry: Seq<Entry>,
    frame: Seq<char>,
    envelope: EnvelopeView,
)
    requires
        sender.phase == Phase::Active,
        receiver.phase == Phase::Active,
        decoded(frame) == Ok::<EnvelopeView, DecodeError>(envelope),
        envelope.message_type == MessageKind::Message,
    ensures
        ({
            let sent = step_of(sender, registry, EventView::Frame(frame));
            let said = text_or(envelope.data, Seq::empty());
            let text = message_frame(name_of(registry, sender.id), said);
            &&& sent.session == sender
            &&& sent.registry == registry
            &&& sent.action == ActionView::Publish(text)
            &&& forwards(receiver, sent.registry, text)
        }),
{
}

/// A sender that never registered goes by its own identity.
pub proof fn lemma_unregistered_sender(
    sender: SessionView,
    registry: Seq<Entry>,
    frame: Seq<char>,
    envelope: EnvelopeView,
)
    requires
        sender.phase == Phase::Active,
        !has_id(registry, sender.id),
        decoded(frame) == Ok::<EnvelopeView, DecodeError>(envelope),
        envelope.message_type == MessageKind::Message,
    ensures
        step_of(sender, registry, EventView::Frame(frame)).action == ActionView::Publish(
            message_frame(sender.id, text_or(envelope.data, Seq::empty())),
        ),
{
}

/// A frame that is no envelope is passed over: the session stays where it
/// is, the registry stays as it was, and nothing is sent or published.
pub proof fn lemma_malformed_frame_ignored(
    session: SessionView,
    registry: Seq<Entry>,
    frame: Seq<char>,
)
    requires
        decoded(frame) is Err,
    ensures
        step_of(session, registry, EventView::Frame(frame)) == (Outcome {
            session,
            registry,
            action: ActionView::Idle,
        }),
{
}

/// A failure stays with its session: the failed session closes without a
/// word to the registry or the hub, so a message that another session sends
/// afterwards is published, and handed on by every session that is still
/// active, exactly as if nothing had failed.
pub proof fn lemma_failure_isolated(
    failing: SessionView,
    sender: SessionView,
    receiver: SessionView,
    registry: Seq<Entry>,
    frame: Seq<char>,
    envelope: EnvelopeView,
)
    requires
        failing.phase == Phase::Active,
        sender.phase == Phase::Active,
        receiver.phase == Phase::Active,
        decoded(frame) == Ok::<EnvelopeView, DecodeError>(envelope),
        envelope.message_type == MessageKind::Message,
    ensures
        ({
            let failed = step_of(failing, registry, EventView::TransportFailed);
            let sent = step_of(sender, failed.registry, EventView::Frame(frame));
            let said = text_or(envelope.data, Seq::empty());
            let text = message_frame(name_of(registry, sender.id), said);
            &&& failed.session.phase == Phase::Closed(Ending::Failed)
            &&& failed.registry == registry
            &&& failed.action is Idle
            &&& sent == step_of(sender, registry, EventView::Frame(frame))
            &&& sent.action == ActionView::Publish(text)
            &&& forwards(receiver, sent.registry, text)
            &&& step_of(failed.session, sent.registry, EventView::Broadcast(text)).action is Idle
        }),
{
}

} // verus!
