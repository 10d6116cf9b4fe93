//! The connection to the message bus.
use vstd::prelude::*;

use crate::linux::names;

verus! {

/// How long the connection is polled, in milliseconds.
pub const POLL_INTERVAL_MILLIS: u64 = 50;

/// How long to wait before the next attempt to connect, in milliseconds.
pub const RECONNECT_DELAY_MILLIS: u64 = 250;

/// How long a request waits for its answer, in seconds.
pub const REQUEST_TIMEOUT_SECS: u64 = 1;

/// What the bus answers to a request for a name.
#[derive(Clone, Copy, Debug, PartialEq, Eq, Structural)]
pub enum RequestNameReply {
    PrimaryOwner,
    InQueue,
    Exists,
    AlreadyOwner,
}

/// What the bus answers to the release of a name.
#[derive(Clone, Copy, Debug, PartialEq, Eq, Structural)]
pub enum ReleaseNameReply {
    Released,
    NonExistent,
    NotOwner,
}

/// What the session waits for.
#[derive(Clone, Debug)]
pub enum SessionPhase {
    /// A connection.
    Connecting,
    /// The answer to the request for the registered name on a new connection.
    Reclaiming,
    /// Requests and messages.
    Serving,
    /// The answer to a request for the given name.
    Claiming(String),
    /// The answer to the release of a name.
    Releasing,
}

/// What a `SessionPhase` holds.
#[verifier::ext_equal]
pub enum SessionPhaseView {
    Connecting,
    Reclaiming,
    Serving,
    Claiming(Seq<char>),
    Releasing,
}

impl View for SessionPhase {
    type V = SessionPhaseView;

    open spec fn view(&self) -> SessionPhaseView {
        match self {
            SessionPhase::Connecting => SessionPhaseView::Connecting,
            SessionPhase::Reclaiming => SessionPhaseView::Reclaiming,
            SessionPhase::Serving => SessionPhaseView::Serving,
            SessionPhase::Claiming(name) => SessionPhaseView::Claiming(name@),
            SessionPhase::Releasing => SessionPhaseView::Releasing,
        }
    }
}

/// What happens to the session.
#[derive(Clone, Debug)]
pub enum SessionEvent {
    /// The attempt to connect ended; says whether there is a connection.
    Connected(bool),
    /// The bus answered the request for a name, or the request failed.
    NameReply(Option<RequestNameReply>),
    /// The player with the given bus name is to be registered.
    Register(String),
    /// The player with the given bus name is to be unregistered.
    Unregister(String),
    /// The bus answered the release of a name, or the release failed.
    ReleaseReply(Option<ReleaseNameReply>),
    /// The connection was lost.
    Disconnected,
    /// A message arrived.
    Message,
    /// A message is to be sent.
    Emit,
}

/// What a `SessionEvent` holds.
#[verifier::ext_equal]
pub enum SessionEventView {
    Connected(bool),
    NameReply(Option<RequestNameReply>),
    Register(Seq<char>),
    Unregister(Seq<char>),
    ReleaseReply(Option<ReleaseNameReply>),
    Disconnected,
    Message,
    Emit,
}

impl View for SessionEvent {
    type V = SessionEventView;

    open spec fn view(&self) -> SessionEventView {
        match self {
            SessionEvent::Connected(connected) => SessionEventView::Connected(*connected),
            SessionEvent::NameReply(reply) => SessionEventView::NameReply(*reply),
            SessionEvent::Register(name) => SessionEventView::Register(name@),
            SessionEvent::Unregister(name) => SessionEventView::Unregister(name@),
            SessionEvent::ReleaseReply(reply) => SessionEventView::ReleaseReply(*reply),
            SessionEvent::Disconnected => SessionEventView::Disconnected,
            SessionEvent::Message => SessionEventView::Message,
            SessionEvent::Emit => SessionEventView::Emit,
        }
    }
}

/// What is to be done next.
#[derive(Clone, Debug)]
pub enum SessionAction {
    /// Connect after a delay in milliseconds.
    ConnectLater(u64),
    /// Connect at once.
    Connect,
    /// Request a name from the bus.
    RequestName {
        name: String,
        allow_replacement: bool,
        replace_existing: bool,
        do_not_queue: bool,
    },
    /// Serve requests and messages.
    Serve,
    /// Answer the request that is being served.
    Respond(bool),
    /// Release a name on the bus.
    ReleaseName(String),
    /// Hand the message to the registered player.
    Dispatch,
    /// Drop the message.
    Discard,
    /// Send the message.
    Send,
    /// Nothing: the event does not belong to the phase. A request or a message waits.
    Ignore,
}

/// What a `SessionAction` holds.
#[verifier::ext_equal]
pub enum SessionActionView {
    ConnectLater(u64),
    Connect,
    RequestName {
        name: Seq<char>,
        allow_replacement: bool,
        replace_existing: bool,
        do_not_queue: bool,
    },
    Serve,
    Respond(bool),
    ReleaseName(Seq<char>),
    Dispatch,
    Discard,
    Send,
    Ignore,
}

impl View for SessionAction {
    type V = SessionActionView;

    open spec fn view(&self) -> SessionActionView {
        match self {
            SessionAction::ConnectLater(delay) => SessionActionView::ConnectLater(*delay),
            SessionAction::Connect => SessionActionView::Connect,
            SessionAction::RequestName {
                name,
                allow_replacement,
                replace_existing,
                do_not_queue,
            } => SessionActionView::RequestName {
                name: name@,
                allow_replacement: *allow_replacement,
                replace_existing: *replace_existing,
                do_not_queue: *do_not_queue,
            },
            SessionAction::Serve => SessionActionView::Serve,
            SessionAction::Respond(answer) => SessionActionView::Respond(*answer),
            SessionAction::ReleaseName(name) => SessionActionView::ReleaseName(name@),
            SessionAction::Dispatch => SessionActionView::Dispatch,
            SessionAction::Discard => SessionActionView::Discard,
            SessionAction::Send => SessionActionView::Send,
            SessionAction::Ignore => SessionActionView::Ignore,
        }
    }
}

/// The decisions of the thread that holds the connection: which player is registered, and what to do
/// when something happens.
pub struct DBusSession {
    pub phase: SessionPhase,
    /// The bus name of the registered player.
    pub registered: Option<String>,
}

/// What a `DBusSession` holds.
#[verifier::ext_equal]
pub struct DBusSessionView {
    pub phase: SessionPhaseView,
    pub registered: Option<Seq<char>>,
}

impl View for DBusSession {
    type V = DBusSessionView;

    open spec fn view(&self) -> DBusSessionView {
        DBusSessionView {
            phase: self.phase@,
            registered: match self.registered {
                Some(name) => Some(name@),
                None => None,
            },
        }
    }
}

/// Whether the answer to a request for a name makes the connection the owner of the name.
pub open spec fn is_claimed(reply: Option<RequestNameReply>) -> bool {
    reply == Some(RequestNameReply::PrimaryOwner)
}

/// The request for a name: it takes the name over from another owner, gives it to nobody, and does not
/// wait for it.
pub open spec fn name_request(name: Seq<char>) -> SessionActionView {
    SessionActionView::RequestName {
        name,
        allow_replacement: false,
        replace_existing: true,
        do_not_queue: true,
    }
}

impl DBusSessionView {
    pub open spec fn in_phase(self, phase: SessionPhaseView) -> Self {
        DBusSessionView { phase, ..self }
    }

    /// The session after an event, and what is to be done.
    pub open spec fn next(self, event: SessionEventView) -> (Self, SessionActionView) {
        match (self.phase, event) {
            (SessionPhaseView::Connecting, SessionEventView::Connected(connected)) => if !connected {
                (self, SessionActionView::ConnectLater(RECONNECT_DELAY_MILLIS))
            } else {
                match self.registered {
                    Some(name) => (
                        self.in_phase(SessionPhaseView::Reclaiming),
                        name_request(name),
                    ),
                    None => (self.in_phase(SessionPhaseView::Serving), SessionActionView::Serve),
                }
            },
            (SessionPhaseView::Reclaiming, SessionEventView::NameReply(reply)) => if is_claimed(
                reply,
            ) {
                (self.in_phase(SessionPhaseView::Serving), SessionActionView::Serve)
            } else {
                (
                    self.in_phase(SessionPhaseView::Connecting),
                    SessionActionView::ConnectLater(RECONNECT_DELAY_MILLIS),
                )
            },
            (SessionPhaseView::Serving, SessionEventView::Register(name)) => (
                self.in_phase(SessionPhaseView::Claiming(name)),
                name_request(name),
            ),
            (SessionPhaseView::Claiming(name), SessionEventView::NameReply(reply)) => (
                DBusSessionView {
                    phase: SessionPhaseView::Serving,
                    registered: if is_claimed(reply) {
                        Some(name)
                    } else {
                        self.registered
                    },
                },
                SessionActionView::Respond(is_claimed(reply)),
            ),
            (SessionPhaseView::Serving, SessionEventView::Unregister(name)) => if self.registered
                == Some(name) {
                (
                    DBusSessionView { phase: SessionPhaseView::Releasing, registered: None },
                    SessionActionView::ReleaseName(name),
                )
            } else {
                (self, SessionActionView::Respond(false))
            },
            (SessionPhaseView::Releasing, SessionEventView::ReleaseReply(reply)) => (
                self.in_phase(SessionPhaseView::Serving),
                SessionActionView::Respond(reply == Some(ReleaseNameReply::Released)),
            ),
            (SessionPhaseView::Serving, SessionEventView::Disconnected) => (
                self.in_phase(SessionPhaseView::Connecting),
                SessionActionView::Connect,
            ),
            (SessionPhaseView::Serving, SessionEventView::Message) => (
                self,
                if self.registered is Some {
                    SessionActionView::Dispatch
                } else {
                    SessionActionView::Discard
                },
            ),
            (SessionPhaseView::Serving, SessionEventView::Emit) => (self, SessionActionView::Send),
            _ => (self, SessionActionView::Ignore),
        }
    }

    /// The session after some events, one after the other.
    pub open spec fn after(self, events: Seq<SessionEventView>) -> Self
        decreases events.len(),
    {
        if events.len() == 0 {
            self
        } else {
            self.after(events.drop_last()).next(events.last()).0
        }
    }

    /// Whether the session is without a connection that has the registered name.
    pub open spec fn is_reconnecting(self) -> bool {
        self.phase is Connecting || self.phase is Reclaiming
    }
}

impl SessionEventView {
    /// Whether the event waits to be served: a request, or a message in either direction.
    pub open spec fn is_served(self) -> bool {
        self is Register || self is Unregister || self is Emit || self is Message
    }
}

/// A lost connection keeps the registration, and the next connection requests the same name again.
pub proof fn law_name_reclaimed(session: DBusSessionView, name: Seq<char>)
    requires
        session.phase is Serving,
        session.registered == Some(name),
    ensures
        ({
            let lost = session.next(SessionEventView::Disconnected).0;
            let (connected, action) = lost.next(SessionEventView::Connected(true));
            &&& action == name_request(name)
            &&& connected.registered == Some(name)
            &&& connected.next(
                SessionEventView::NameReply(Some(RequestNameReply::PrimaryOwner)),
            ) == (session, SessionActionView::Serve)
        }),
{
}

/// On a new connection nothing is served before the bus granted the registered name: whatever happens
/// until then, the player stays registered, and every request and every message waits.
pub proof fn law_name_reclaimed_first(
    session: DBusSessionView,
    name: Seq<char>,
    events: Seq<SessionEventView>,
    served: SessionEventView,
)
    requires
        session.phase is Connecting,
        session.registered == Some(name),
        !events.contains(SessionEventView::NameReply(Some(RequestNameReply::PrimaryOwner))),
        served.is_served(),
    ensures
        session.after(events).is_reconnecting(),
        session.after(events).registered == Some(name),
        session.after(events).next(served) == (session.after(events), SessionActionView::Ignore),
    decreases events.len(),
{
    if events.len() > 0 {
        let earlier = events.drop_last();
        assert forall|event: SessionEventView| earlier.contains(event) implies events.contains(
            event,
        ) by {
            let i = earlier.index_of(event);
            assert(events[i] == event);
        }
        assert(events[events.len() - 1] == events.last());
        law_name_reclaimed_first(session, name, earlier, served);
    }
}

/// A connection without the registered name is given up: the next attempt follows after the delay, and
/// requests the name again.
pub proof fn law_refused_name_retried(
    session: DBusSessionView,
    name: Seq<char>,
    reply: Option<RequestNameReply>,
)
    requires
        session.phase is Reclaiming,
        session.registered == Some(name),
        !is_claimed(reply),
    ensures
        ({
            let (waiting, action) = session.next(SessionEventView::NameReply(reply));
            &&& action == SessionActionView::ConnectLater(RECONNECT_DELAY_MILLIS)
            &&& waiting.phase is Connecting
            &&& waiting.registered == Some(name)
            &&& waiting.next(SessionEventView::Connected(true)) == (session, name_request(name))
        }),
{
}

/// Messages are sent exactly while the session serves.
pub proof fn law_sends_while_serving(session: DBusSessionView)
    ensures
        session.phase is Serving ==> session.next(SessionEventView::Emit) == (
            session,
            SessionActionView::Send,
        ),
        !(session.phase is Serving) ==> session.next(SessionEventView::Emit) == (
            session,
            SessionActionView::Ignore,
        ),
{
}

/// A registration is answered with success exactly when the connection owns the name, and exactly then
/// the player is the registered one.
pub proof fn law_register_answered(
    session: DBusSessionView,
    name: Seq<char>,
    reply: Option<RequestNameReply>,
)
    requires
        session.phase is Serving,
    ensures
        ({
            let claiming = session.next(SessionEventView::Register(name)).0;
            let (after, action) = claiming.next(SessionEventView::NameReply(reply));
            &&& action == SessionActionView::Respond(is_claimed(reply))
            &&& after.phase is Serving
            &&& is_claimed(reply) ==> after.registered == Some(name)
            &&& !is_claimed(reply) ==> after == session
        }),
{
}

/// Unregistering the player that was registered leaves no registration.
pub proof fn law_unregister_undoes_register(
    session: DBusSessionView,
    name: Seq<char>,
    reply: Option<ReleaseNameReply>,
)
    requires
        session.phase is Serving,
    ensures
        ({
            let claiming = session.next(SessionEventView::Register(name)).0;
            let registered = claiming.next(
                SessionEventView::NameReply(Some(RequestNameReply::PrimaryOwner)),
            ).0;
            let (releasing, action) = registered.next(SessionEventView::Unregister(name));
            let (after, answer) = releasing.next(SessionEventView::ReleaseReply(reply));
            &&& action == SessionActionView::ReleaseName(name)
            &&& after == (DBusSessionView { phase: SessionPhaseView::Serving, registered: None })
            &&& answer == SessionActionView::Respond(reply == Some(ReleaseNameReply::Released))
        }),
{
}

/// Unregistering another name changes nothing and is answered with failure.
pub proof fn law_unregister_other(session: DBusSessionView, name: Seq<char>)
    requires
        session.phase is Serving,
        session.registered != Some(name),
    ensures
        session.next(SessionEventView::Unregister(name)) == (
            session,
            SessionActionView::Respond(false),
        ),
{
}

/// A player becomes the registered one only by an answer that makes the connection the owner of its
/// name.
pub proof fn law_registered_only_by_claim(session: DBusSessionView, event: SessionEventView)
    ensures
        ({
            let after = session.next(event).0;
            after.registered is Some && after.registered != session.registered ==> event
                == SessionEventView::NameReply(Some(RequestNameReply::PrimaryOwner))
                && session.phase == SessionPhaseView::Claiming(after.registered->0)
        }),
{
}

/// Whether the answer to a request for a name makes the connection the owner of the name.
pub fn claim_bus_name(reply: Option<RequestNameReply>) -> (r: bool)
    ensures
        r == is_claimed(reply),
{
    match reply {
        Some(RequestNameReply::PrimaryOwner) => true,
        _ => false,
    }
}

impl DBusSession {
    /// A session without a connection and without a player.
    pub fn new() -> (r: Self)
        ensures
            r@ == (DBusSessionView { phase: SessionPhaseView::Connecting, registered: None }),
    {
        DBusSession { phase: SessionPhase::Connecting, registered: None }
    }

    /// The request to register the player with the given instance name.
    pub fn register(name: &str) -> (r: SessionEvent)
        ensures
            r@ == SessionEventView::Register(names::bus_name(name@)),
    {
        SessionEvent::Register(names::mpris_bus_name(name))
    }

    /// The request to unregister the player with the given instance name.
    pub fn unregister(name: &str) -> (r: SessionEvent)
        ensures
            r@ == SessionEventView::Unregister(names::bus_name(name@)),
    {
        SessionEvent::Unregister(names::mpris_bus_name(name))
    }

    /// The outcome of a request: one without an answer failed.
    pub fn outcome(answer: Option<bool>) -> (r: bool)
        ensures
            r == (answer == Some(true)),
    {
        match answer {
            Some(answer) => answer,
            None => false,
        }
    }

    fn request_name(name: String) -> (r: SessionAction)
        ensures
            r@ == name_request(name@),
    {
        SessionAction::RequestName {
            name,
            allow_replacement: false,
            replace_existing: true,
            do_not_queue: true,
        }
    }

    /// Takes note of an event and says what is to be done.
    pub fn step(&mut self, event: SessionEvent) -> (r: SessionAction)
        ensures
            (final(self)@, r@) == old(self)@.next(event@),
    {
        match event {
            SessionEvent::Connected(connected) => self.on_connected(connected),
            SessionEvent::NameReply(reply) => self.on_name_reply(reply),
            SessionEvent::Register(name) => match self.phase {
                SessionPhase::Serving => {
                    self.phase = SessionPhase::Claiming(name.clone());
                    Self::request_name(name)
                },
                _ => SessionAction::Ignore,
            },
            SessionEvent::Unregister(name) => self.on_unregister(name),
            SessionEvent::ReleaseReply(reply) => match self.phase {
                SessionPhase::Releasing => {
                    self.phase = SessionPhase::Serving;
                    SessionAction::Respond(
                        match reply {
                            Some(ReleaseNameReply::Released) => true,
                            _ => false,
                        },
                    )
                },
                _ => SessionAction::Ignore,
            },
            SessionEvent::Disconnected => match self.phase {
                SessionPhase::Serving => {
                    // Keep the registered player so the next connection can reclaim the bus name.
                    self.phase = SessionPhase::Connecting;
                    SessionAction::Connect
                },
                _ => SessionAction::Ignore,
            },
            SessionEvent::Emit => match self.phase {
                SessionPhase::Serving => SessionAction::Send,
                _ => SessionAction::Ignore,
            },
            SessionEvent::Message => match self.phase {
                SessionPhase::Serving => match self.registered {
                    Some(_) => SessionAction::Dispatch,
                    None => SessionAction::Discard,
                },
                _ => SessionAction::Ignore,
            },
        }
    }

    fn on_connected(&mut self, connected: bool) -> (r: SessionAction)
        ensures
            (final(self)@, r@) == old(self)@.next(SessionEventView::Connected(connected)),
    {
        match self.phase {
            SessionPhase::Connecting => {
                if !connected {
                    return SessionAction::ConnectLater(RECONNECT_DELAY_MILLIS);
                }
                // Re-claim the well-known name after a reconnect so that clients still see the player.
                match &self.registered {
                    Some(name) => {
                        let action = Self::request_name(name.clone());
                        self.phase = SessionPhase::Reclaiming;
                        action
                    },
                    None => {
                        self.phase = SessionPhase::Serving;
                        SessionAction::Serve
                    },
                }
            },
            _ => SessionAction::Ignore,
        }
    }

    fn on_name_reply(&mut self, reply: Option<RequestNameReply>) -> (r: SessionAction)
        ensures
            (final(self)@, r@) == old(self)@.next(SessionEventView::NameReply(reply)),
    {
        let claimed = claim_bus_name(reply);
        let name = match &self.phase {
            SessionPhase::Reclaiming => None,
            SessionPhase::Claiming(name) => Some(name.clone()),
            _ => {
                return SessionAction::Ignore;
            },
        };
        match name {
            Some(name) => {
                if claimed {
                    self.registered = Some(name);
                }
                self.phase = SessionPhase::Serving;
                SessionAction::Respond(claimed)
            },
            None => if claimed {
                self.phase = SessionPhase::Serving;
                SessionAction::Serve
            } else {
                self.phase = SessionPhase::Connecting;
                SessionAction::ConnectLater(RECONNECT_DELAY_MILLIS)
            },
        }
    }

    fn on_unregister(&mut self, name: String) -> (r: SessionAction)
        ensures
            (final(self)@, r@) == old(self)@.next(SessionEventView::Unregister(name@)),
    {
        match self.phase {
            SessionPhase::Serving => {
                let is_registered = match &self.registered {
                    Some(registered) => *registered == name,
                    None => false,
                };
                if is_registered {
                    self.registered = None;
                    self.phase = SessionPhase::Releasing;
                    SessionAction::ReleaseName(name)
                } else {
                    SessionAction::Respond(false)
                }
            },
            _ => SessionAction::Ignore,
        }
    }
}

} // verus!
