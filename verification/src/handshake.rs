//! The handshake as a state machine.
//!
//! The driver owns the connection and does the waiting; this module decides.
//! The driver starts from [`HandshakeState::new`] with the action
//! [`Action::Connect`], carries out each action, reports what came of it as
//! an [`Event`], and is told by [`HandshakeState::step`] what to do next,
//! until the action is [`Action::Stop`].
//!
//! ```text
//! Connecting --Connected--> AwaitingPeerVersion --"version"--> AwaitingPeerAck
//!                                                                   |
//!                                                     "verack" or "inv"
//!                                                                   v
//!                                                               Complete
//! ```
//!
//! A read that times out changes nothing: the driver reads again. A read of
//! no bytes means that the peer has closed the connection and ends the
//! attempt, as does a failure of the transport.

use crate::command::{
    command_of, get_command_from_response, lemma_extract_command_of_frame, strip_trailing_nuls,
};
use crate::message::{
    create_message, frame_bytes, COMMAND_INV, COMMAND_VERACK, COMMAND_VERSION,
};
use crate::version::{create_version_message_payload, version_payload_bytes, VersionConfig};
use vstd::prelude::*;
use vstd::utf8::{encode_utf8, is_ascii_chars, is_ascii_chars_encode_utf8};

verus! {

/// How long the driver waits for the bytes of one read, in seconds.
pub const READ_TIMEOUT_SECS: u64 = 10;

/// How many bytes the driver asks for in one read.
pub const READ_BUFFER_LEN: usize = 1024;

/// The operation of the transport that failed.
#[derive(Clone, Copy, Debug, PartialEq, Eq, Structural)]
pub enum TransportError {
    /// The connection could not be established.
    Connect,
    /// A frame could not be written.
    Write,
    /// A read failed other than by timing out.
    Read,
}

/// Where a handshake attempt stands.
#[derive(Clone, Copy, Debug, PartialEq, Eq, Structural)]
pub enum HandshakeState {
    /// The connection is being established.
    Connecting,
    /// Our `version` is on its way; the peer's has not been seen.
    AwaitingPeerVersion,
    /// The peer's `version` was seen and acknowledged; its own
    /// acknowledgment has not been seen.
    AwaitingPeerAck,
    /// Both sides have acknowledged.
    Complete,
    /// The peer closed the connection before the handshake was complete.
    Disconnected { received_version: bool },
    /// The transport failed before the handshake was complete.
    Failed { error: TransportError, received_version: bool },
}

/// How a handshake attempt ended.
#[derive(Clone, Copy, Debug, PartialEq, Eq, Structural)]
pub enum HandshakeOutcome {
    /// The handshake is complete.
    Complete,
    /// The peer closed the connection first.
    IncompleteDisconnected,
    /// The transport failed first.
    IncompleteTransportError,
}

/// What the driver reports to the state machine.
#[derive(Clone, Debug)]
pub enum Event {
    /// The connection is established.
    Connected,
    /// The connection could not be established.
    ConnectFailed,
    /// The frame that the last action asked for could not be written.
    WriteFailed,
    /// No byte arrived within the time allowed for one read.
    ReadTimedOut,
    /// The read failed.
    ReadFailed,
    /// The bytes of one read; none where the peer has closed the connection.
    Received(Vec<u8>),
}

/// What the driver is to do next.
#[derive(Clone, Copy, Debug, PartialEq, Eq, Structural)]
pub enum Action {
    /// Establish the connection.
    Connect,
    /// Write a `version` frame, and read.
    SendVersion,
    /// Write a `verack` frame, and read.
    SendVerack,
    /// Read.
    Read,
    /// Nothing more: the attempt is over.
    Stop,
}

/// The commands that the handshake tells apart.
#[derive(Clone, Copy, Debug, PartialEq, Eq, Structural)]
pub enum Command {
    /// `version`
    Version,
    /// `verack`
    Verack,
    /// `inv`
    Inv,
    /// Any other name.
    Other,
}

/// The command that `name` denotes.
pub open spec fn command_named(name: Seq<char>) -> Command {
    if name == COMMAND_VERSION@ {
        Command::Version
    } else if name == COMMAND_VERACK@ {
        Command::Verack
    } else if name == COMMAND_INV@ {
        Command::Inv
    } else {
        Command::Other
    }
}

/// The action that `state` is waiting on.
pub open spec fn pending_action(state: HandshakeState) -> Action {
    match state {
        HandshakeState::Connecting => Action::Connect,
        HandshakeState::AwaitingPeerVersion | HandshakeState::AwaitingPeerAck => Action::Read,
        _ => Action::Stop,
    }
}

/// The state with `error` recorded, and nothing more to do.
pub open spec fn failed_with(state: HandshakeState, error: TransportError) -> (
    HandshakeState,
    Action,
) {
    (
        HandshakeState::Failed { error, received_version: state.spec_received_version() },
        Action::Stop,
    )
}

/// The transition on a command that the peer sent.
///
/// A `version` counts once, before any other was seen. A `verack` or an
/// `inv` counts only after the peer's `version`. Everything else leaves the
/// state as it is.
pub open spec fn after_command(state: HandshakeState, command: Command) -> (
    HandshakeState,
    Action,
) {
    match (state, command) {
        (HandshakeState::AwaitingPeerVersion, Command::Version) => (
            HandshakeState::AwaitingPeerAck,
            Action::SendVerack,
        ),
        (HandshakeState::AwaitingPeerAck, Command::Verack) => (
            HandshakeState::Complete,
            Action::Stop,
        ),
        (HandshakeState::AwaitingPeerAck, Command::Inv) => (HandshakeState::Complete, Action::Stop),
        _ => (state, pending_action(state)),
    }
}

/// The transition on the bytes of one read.
pub open spec fn after_read(state: HandshakeState, bytes: Seq<u8>) -> (HandshakeState, Action) {
    if !state.spec_is_awaiting() {
        (state, pending_action(state))
    } else if bytes.len() == 0 {
        (
            HandshakeState::Disconnected { received_version: state.spec_received_version() },
            Action::Stop,
        )
    } else {
        after_command(state, command_named(command_of(bytes)))
    }
}

/// The transition on an event.
///
/// An event that does not answer the action that the state is waiting on
/// changes nothing.
pub open spec fn after_event(state: HandshakeState, event: Event) -> (HandshakeState, Action) {
    match event {
        Event::Connected => if state is Connecting {
            (HandshakeState::AwaitingPeerVersion, Action::SendVersion)
        } else {
            (state, pending_action(state))
        },
        Event::ConnectFailed => if state is Connecting {
            failed_with(state, TransportError::Connect)
        } else {
            (state, pending_action(state))
        },
        Event::WriteFailed => if state.spec_is_awaiting() {
            failed_with(state, TransportError::Write)
        } else {
            (state, pending_action(state))
        },
        Event::ReadFailed => if state.spec_is_awaiting() {
            failed_with(state, TransportError::Read)
        } else {
            (state, pending_action(state))
        },
        Event::ReadTimedOut => (state, pending_action(state)),
        Event::Received(bytes) => after_read(state, bytes@),
    }
}

impl HandshakeState {
    /// Whether the peer's `version` has been received.
    pub open spec fn spec_received_version(self) -> bool {
        match self {
            HandshakeState::Connecting | HandshakeState::AwaitingPeerVersion => false,
            HandshakeState::AwaitingPeerAck | HandshakeState::Complete => true,
            HandshakeState::Disconnected { received_version } => received_version,
            HandshakeState::Failed { received_version, .. } => received_version,
        }
    }

    /// Whether the handshake is complete.
    pub open spec fn spec_handshake_complete(self) -> bool {
        self is Complete
    }

    /// Whether the attempt is over.
    pub open spec fn spec_is_terminal(self) -> bool {
        self is Complete || self is Disconnected || self is Failed
    }

    /// Whether the connection stands and the attempt is waiting for the
    /// peer.
    pub open spec fn spec_is_awaiting(self) -> bool {
        self is AwaitingPeerVersion || self is AwaitingPeerAck
    }

    /// How the attempt ended, if it has.
    pub open spec fn spec_outcome(self) -> Option<HandshakeOutcome> {
        match self {
            HandshakeState::Complete => Some(HandshakeOutcome::Complete),
            HandshakeState::Disconnected { .. } => Some(HandshakeOutcome::IncompleteDisconnected),
            HandshakeState::Failed { .. } => Some(HandshakeOutcome::IncompleteTransportError),
            _ => None,
        }
    }

    /// The state of a fresh attempt: nothing received, nothing complete. The
    /// driver's first action is [`Action::Connect`].
    pub fn new() -> (state: HandshakeState)
        ensures
            state == HandshakeState::Connecting,
            !state.spec_received_version(),
            !state.spec_handshake_complete(),
            pending_action(state) == Action::Connect,
    {
        HandshakeState::Connecting
    }

    /// Whether the peer's `version` has been received.
    #[verifier::when_used_as_spec(spec_received_version)]
    pub fn received_version(self) -> (received: bool)
        ensures
            received == self.spec_received_version(),
    {
        match self {
            HandshakeState::Connecting | HandshakeState::AwaitingPeerVersion => false,
            HandshakeState::AwaitingPeerAck | HandshakeState::Complete => true,
            HandshakeState::Disconnected { received_version } => received_version,
            HandshakeState::Failed { received_version, .. } => received_version,
        }
    }

    /// Whether the handshake is complete.
    #[verifier::when_used_as_spec(spec_handshake_complete)]
    pub fn handshake_complete(self) -> (complete: bool)
        ensures
            complete == self.spec_handshake_complete(),
    {
        match self {
            HandshakeState::Complete => true,
            _ => false,
        }
    }

    /// Whether the attempt is over.
    #[verifier::when_used_as_spec(spec_is_terminal)]
    pub fn is_terminal(self) -> (terminal: bool)
        ensures
            terminal == self.spec_is_terminal(),
    {
        match self {
            HandshakeState::Complete => true,
            HandshakeState::Disconnected { .. } => true,
            HandshakeState::Failed { .. } => true,
            _ => false,
        }
    }

    /// Whether the connection stands and the attempt is waiting for the
    /// peer.
    #[verifier::when_used_as_spec(spec_is_awaiting)]
    pub fn is_awaiting(self) -> (awaiting: bool)
        ensures
            awaiting == self.spec_is_awaiting(),
    {
        match self {
            HandshakeState::AwaitingPeerVersion => true,
            HandshakeState::AwaitingPeerAck => true,
            _ => false,
        }
    }

    /// How the attempt ended, or `None` while it is under way.
    #[verifier::when_used_as_spec(spec_outcome)]
    pub fn outcome(self) -> (outcome: Option<HandshakeOutcome>)
        ensures
            outcome == self.spec_outcome(),
    {
        match self {
            HandshakeState::Complete => Some(HandshakeOutcome::Complete),
            HandshakeState::Disconnected { .. } => Some(HandshakeOutcome::IncompleteDisconnected),
            HandshakeState::Failed { .. } => Some(HandshakeOutcome::IncompleteTransportError),
            _ => None,
        }
    }

    /// The action that this state is waiting on.
    pub fn pending(self) -> (action: Action)
        ensures
            action == pending_action(self),
    {
        match self {
            HandshakeState::Connecting => Action::Connect,
            HandshakeState::AwaitingPeerVersion => Action::Read,
            HandshakeState::AwaitingPeerAck => Action::Read,
            _ => Action::Stop,
        }
    }

    /// The next state and action after the peer sent `command`.
    pub fn on_command(self, command: Command) -> (next: (HandshakeState, Action))
        ensures
            next == after_command(self, command),
    {
        match (self, command) {
            (HandshakeState::AwaitingPeerVersion, Command::Version) => (
                HandshakeState::AwaitingPeerAck,
                Action::SendVerack,
            ),
            (HandshakeState::AwaitingPeerAck, Command::Verack) => (
                HandshakeState::Complete,
                Action::Stop,
            ),
            (HandshakeState::AwaitingPeerAck, Command::Inv) => (
                HandshakeState::Complete,
                Action::Stop,
            ),
            _ => (self, self.pending()),
        }
    }

    /// The next state and action after a read returned `bytes`.
    ///
    /// No bytes mean that the peer has closed the connection. Otherwise the
    /// command name is taken from the header and the state moves as
    /// [`after_command`] says.
    pub fn on_read(self, bytes: &[u8]) -> (next: (HandshakeState, Action))
        ensures
            next == after_read(self, bytes@),
    {
        if !self.is_awaiting() {
            (self, self.pending())
        } else if bytes.len() == 0 {
            (
                HandshakeState::Disconnected { received_version: self.received_version() },
                Action::Stop,
            )
        } else {
            let name = get_command_from_response(bytes);
            self.on_command(classify_command(name.as_str()))
        }
    }

    /// The next state and the next action after `event`.
    pub fn step(self, event: &Event) -> (next: (HandshakeState, Action))
        ensures
            next == after_event(self, *event),
    {
        match event {
            Event::Connected => {
                match self {
                    HandshakeState::Connecting => (
                        HandshakeState::AwaitingPeerVersion,
                        Action::SendVersion,
                    ),
                    _ => (self, self.pending()),
                }
            },
            Event::ConnectFailed => {
                match self {
                    HandshakeState::Connecting => self.fail(TransportError::Connect),
                    _ => (self, self.pending()),
                }
            },
            Event::WriteFailed => {
                if self.is_awaiting() {
                    self.fail(TransportError::Write)
                } else {
                    (self, self.pending())
                }
            },
            Event::ReadFailed => {
                if self.is_awaiting() {
                    self.fail(TransportError::Read)
                } else {
                    (self, self.pending())
                }
            },
            Event::ReadTimedOut => (self, self.pending()),
            Event::Received(bytes) => self.on_read(bytes.as_slice()),
        }
    }

    /// The state with `error` recorded, and the action that ends the attempt.
    fn fail(self, error: TransportError) -> (next: (HandshakeState, Action))
        ensures
            next == failed_with(self, error),
    {
        (
            HandshakeState::Failed { error, received_version: self.received_version() },
            Action::Stop,
        )
    }
}

/// Tells the commands of the handshake apart by name.
pub fn classify_command(name: &str) -> (command: Command)
    ensures
        command == command_named(name@),
{
    let name = name.to_owned();
    if name == COMMAND_VERSION.to_owned() {
        Command::Version
    } else if name == COMMAND_VERACK.to_owned() {
        Command::Verack
    } else if name == COMMAND_INV.to_owned() {
        Command::Inv
    } else {
        Command::Other
    }
}

/// Builds the `version` frame that opens a handshake: a payload for
/// `config` with the time of the call and a fresh nonce, framed under
/// `version`.
///
/// There is no failure. Which timestamp and nonce the payload carries is
/// decided by the clock and the random source.
pub fn version_message(config: &VersionConfig) -> (message: Vec<u8>)
    ensures
        exists|timestamp: i64, nonce: u64|
            message@ == #[trigger] frame_bytes(
                COMMAND_VERSION@,
                version_payload_bytes(config@, timestamp, nonce),
            ),
        message@.len() == 109 + config@.user_agent.len(),
        command_of(message@) == COMMAND_VERSION@,
{
    proof {
        lemma_command_names();
    }
    let payload = create_version_message_payload(config);
    proof {
        lemma_extract_command_of_frame(COMMAND_VERSION@, payload@);
    }
    create_message(COMMAND_VERSION, payload.as_slice())
}

/// Builds the `verack` frame that acknowledges the peer's `version`: the
/// empty payload framed under `verack`.
pub fn verack_message() -> (message: Vec<u8>)
    ensures
        message@ == frame_bytes(COMMAND_VERACK@, Seq::<u8>::empty()),
        message@.len() == 24,
{
    proof {
        lemma_command_names();
    }
    let payload: Vec<u8> = Vec::new();
    create_message(COMMAND_VERACK, payload.as_slice())
}

/// The three command names are distinct, fit the command field, and end in
/// no NUL character.
pub proof fn lemma_command_names()
    ensures
        encode_utf8(COMMAND_VERSION@).len() == 7,
        encode_utf8(COMMAND_VERACK@).len() == 6,
        encode_utf8(COMMAND_INV@).len() == 3,
        strip_trailing_nuls(COMMAND_VERSION@) == COMMAND_VERSION@,
        strip_trailing_nuls(COMMAND_VERACK@) == COMMAND_VERACK@,
        strip_trailing_nuls(COMMAND_INV@) == COMMAND_INV@,
        command_named(COMMAND_VERSION@) == Command::Version,
        command_named(COMMAND_VERACK@) == Command::Verack,
        command_named(COMMAND_INV@) == Command::Inv,
{
    reveal_strlit("version");
    reveal_strlit("verack");
    reveal_strlit("inv");
    assert(is_ascii_chars(COMMAND_VERSION@));
    assert(is_ascii_chars(COMMAND_VERACK@));
    assert(is_ascii_chars(COMMAND_INV@));
    is_ascii_chars_encode_utf8(COMMAND_VERSION@);
    is_ascii_chars_encode_utf8(COMMAND_VERACK@);
    is_ascii_chars_encode_utf8(COMMAND_INV@);
    assert(COMMAND_VERSION@.last() == 'n');
    assert(COMMAND_VERACK@.last() == 'k');
    assert(COMMAND_INV@.last() == 'v');
}

/// A read that times out never ends the attempt: the state stays as it is,
/// and while the attempt is under way the driver is told to go on.
pub proof fn lemma_timeout_changes_nothing(state: HandshakeState)
    ensures
        after_event(state, Event::ReadTimedOut) == (state, pending_action(state)),
        !state.spec_is_terminal() ==> after_event(state, Event::ReadTimedOut).1 != Action::Stop,
{
}

/// A well-formed `version` frame from the peer, whatever its payload, is
/// acknowledged once: the state moves on and the driver is told to send a
/// `verack`. A second one changes nothing.
pub proof fn lemma_version_is_acknowledged_once(payload: Seq<u8>)
    ensures
        after_read(HandshakeState::AwaitingPeerVersion, frame_bytes(COMMAND_VERSION@, payload))
            == (HandshakeState::AwaitingPeerAck, Action::SendVerack),
        after_read(HandshakeState::AwaitingPeerAck, frame_bytes(COMMAND_VERSION@, payload)) == (
            HandshakeState::AwaitingPeerAck,
            Action::Read,
        ),
{
    lemma_command_names();
    lemma_extract_command_of_frame(COMMAND_VERSION@, payload);
    lemma_frame_is_not_empty(COMMAND_VERSION@, payload);
}

/// A `verack` or an `inv` frame that arrives before the peer's `version` is
/// ignored: the state stays as it is and the driver reads on.
pub proof fn lemma_early_acknowledgment_is_ignored(payload: Seq<u8>)
    ensures
        after_read(HandshakeState::AwaitingPeerVersion, frame_bytes(COMMAND_VERACK@, payload))
            == (HandshakeState::AwaitingPeerVersion, Action::Read),
        after_read(HandshakeState::AwaitingPeerVersion, frame_bytes(COMMAND_INV@, payload)) == (
            HandshakeState::AwaitingPeerVersion,
            Action::Read,
        ),
{
    lemma_command_names();
    lemma_extract_command_of_frame(COMMAND_VERACK@, payload);
    lemma_extract_command_of_frame(COMMAND_INV@, payload);
    lemma_frame_is_not_empty(COMMAND_VERACK@, payload);
    lemma_frame_is_not_empty(COMMAND_INV@, payload);
}

/// A `verack` or an `inv` frame that arrives after the peer's `version`
/// completes the handshake.
pub proof fn lemma_acknowledgment_completes(payload: Seq<u8>)
    ensures
        after_read(HandshakeState::AwaitingPeerAck, frame_bytes(COMMAND_VERACK@, payload)) == (
            HandshakeState::Complete,
            Action::Stop,
        ),
        after_read(HandshakeState::AwaitingPeerAck, frame_bytes(COMMAND_INV@, payload)) == (
            HandshakeState::Complete,
            Action::Stop,
        ),
{
    lemma_command_names();
    lemma_extract_command_of_frame(COMMAND_VERACK@, payload);
    lemma_extract_command_of_frame(COMMAND_INV@, payload);
    lemma_frame_is_not_empty(COMMAND_VERACK@, payload);
    lemma_frame_is_not_empty(COMMAND_INV@, payload);
}

/// A read of no bytes while waiting for the peer ends the attempt without
/// completing it, and keeps what was known of the peer's `version`.
pub proof fn lemma_peer_close_ends_attempt(state: HandshakeState)
    requires
        state.spec_is_awaiting(),
    ensures
        after_read(state, Seq::<u8>::empty()) == (
            HandshakeState::Disconnected { received_version: state.spec_received_version() },
            Action::Stop,
        ),
        !after_read(state, Seq::<u8>::empty()).0.spec_handshake_complete(),
{
}

/// What holds of every transition: a finished attempt stays as it is and
/// asks for nothing more; the action is [`Action::Stop`] exactly when the
/// next state is final; a `version` once received stays received; and the
/// handshake becomes complete only from the state that awaits the peer's
/// acknowledgment, so never before the peer's `version`.
pub proof fn lemma_transition_invariants(state: HandshakeState, event: Event)
    ensures
        state.spec_is_terminal() ==> after_event(state, event) == (state, Action::Stop),
        after_event(state, event).1 == Action::Stop <==> after_event(
            state,
            event,
        ).0.spec_is_terminal(),
        after_event(state, event).1 == pending_action(after_event(state, event).0)
            || after_event(state, event).1 == Action::SendVersion || after_event(state, event).1
            == Action::SendVerack,
        state.spec_received_version() ==> after_event(state, event).0.spec_received_version(),
        after_event(state, event).0.spec_handshake_complete() ==> after_event(
            state,
            event,
        ).0.spec_received_version(),
        after_event(state, event).0.spec_handshake_complete() && !state.spec_handshake_complete()
            ==> state == HandshakeState::AwaitingPeerAck && event is Received,
{
}

/// A frame is never empty, so it is never taken for the end of the
/// connection.
pub proof fn lemma_frame_is_not_empty(command: Seq<char>, payload: Seq<u8>)
    ensures
        frame_bytes(command, payload).len() >= 4,
{
}

} // verus!
