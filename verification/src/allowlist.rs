//! The allow-list session: one connection to the remote console of the game
//! server, opened for one command and closed after it.

use vstd::prelude::*;

verus! {

/// The port on which the game server answers the remote console.
pub const RCON_PORT: u16 = 25575;

/// Why a session granted nothing.
#[derive(Clone, Copy, PartialEq, Eq, Debug, Structural)]
pub enum GrantFailure {
    /// The server refused the shared secret.
    AuthFailure,
    /// The server could not be reached.
    ConnectFailure,
    /// The command was sent on an authenticated connection and got no usable
    /// answer.
    CommandFailure,
}

/// How a session ended.
#[derive(Clone, Copy, PartialEq, Eq, Debug, Structural)]
pub enum GrantOutcome {
    /// The command was answered: the account is on the allow-list.
    Granted,
    Failed(GrantFailure),
}

/// The console command that puts `canonical_name` on the allow-list.
pub open spec fn whitelist_command_text(canonical_name: Seq<char>) -> Seq<char> {
    "whitelist add "@ + canonical_name
}

/// Builds the console command that puts `canonical_name` on the allow-list.
pub fn whitelist_command(canonical_name: &str) -> (command: String)
    ensures
        command@ == whitelist_command_text(canonical_name@),
{
    let mut command = String::from_str("whitelist add ");
    command.append(canonical_name);
    command
}

/// Where a session stands. Until the command is sent the session remembers
/// whom it is for.
#[derive(Clone, PartialEq, Eq, Debug)]
pub enum Session {
    Connecting { canonical_name: String },
    Authenticating { canonical_name: String },
    Commanding,
    Closed(GrantOutcome),
}

/// [`Session`] as contracts see it.
pub enum SessionView {
    Connecting { canonical_name: Seq<char> },
    Authenticating { canonical_name: Seq<char> },
    Commanding,
    Closed(GrantOutcome),
}

impl View for Session {
    type V = SessionView;

    open spec fn view(&self) -> SessionView {
        match *self {
            Session::Connecting { canonical_name } => SessionView::Connecting {
                canonical_name: canonical_name@,
            },
            Session::Authenticating { canonical_name } => SessionView::Authenticating {
                canonical_name: canonical_name@,
            },
            Session::Commanding => SessionView::Commanding,
            Session::Closed(outcome) => SessionView::Closed(outcome),
        }
    }
}

/// What the caller reports back.
#[derive(Clone, Copy, PartialEq, Eq, Debug, Structural)]
pub enum SessionEvent {
    Connected,
    ConnectFailed,
    Authenticated,
    AuthFailed,
    CommandAnswered,
    CommandFailed,
}

/// What the caller is asked to do next.
#[derive(Clone, PartialEq, Eq, Debug)]
pub enum SessionAction {
    Connect { port: u16 },
    Authenticate,
    RunCommand { command: String },
    /// Drop the connection, if there is one; the session is over.
    Close(GrantOutcome),
}

/// [`SessionAction`] as contracts see it.
pub enum SessionActionView {
    Connect { port: u16 },
    Authenticate,
    RunCommand { command: Seq<char> },
    Close(GrantOutcome),
}

impl View for SessionAction {
    type V = SessionActionView;

    open spec fn view(&self) -> SessionActionView {
        match *self {
            SessionAction::Connect { port } => SessionActionView::Connect { port },
            SessionAction::Authenticate => SessionActionView::Authenticate,
            SessionAction::RunCommand { command } => SessionActionView::RunCommand {
                command: command@,
            },
            SessionAction::Close(outcome) => SessionActionView::Close(outcome),
        }
    }
}

/// The view of an action that may be missing.
pub open spec fn action_view(action: Option<SessionAction>) -> Option<SessionActionView> {
    match action {
        Some(a) => Some(a@),
        None => None,
    }
}

/// Closing with `outcome`.
pub open spec fn closed(outcome: GrantOutcome) -> (SessionView, Option<SessionActionView>) {
    (SessionView::Closed(outcome), Some(SessionActionView::Close(outcome)))
}

/// The whole transition relation. An event that the state does not wait for
/// changes nothing and asks for nothing.
pub open spec fn next(state: SessionView, event: SessionEvent) -> (
    SessionView,
    Option<SessionActionView>,
) {
    match (state, event) {
        (SessionView::Connecting { canonical_name }, SessionEvent::Connected) => (
            SessionView::Authenticating { canonical_name },
            Some(SessionActionView::Authenticate),
        ),
        (SessionView::Connecting { .. }, SessionEvent::ConnectFailed) => closed(
            GrantOutcome::Failed(GrantFailure::ConnectFailure),
        ),
        (SessionView::Authenticating { canonical_name }, SessionEvent::Authenticated) => (
            SessionView::Commanding,
            Some(SessionActionView::RunCommand { command: whitelist_command_text(canonical_name) }),
        ),
        (SessionView::Authenticating { .. }, SessionEvent::AuthFailed) => closed(
            GrantOutcome::Failed(GrantFailure::AuthFailure),
        ),
        (SessionView::Commanding, SessionEvent::CommandAnswered) => closed(GrantOutcome::Granted),
        (SessionView::Commanding, SessionEvent::CommandFailed) => closed(
            GrantOutcome::Failed(GrantFailure::CommandFailure),
        ),
        _ => (state, None),
    }
}

/// The first state of a session for `canonical_name` and its first action.
pub open spec fn initial(canonical_name: Seq<char>) -> (SessionView, SessionActionView) {
    (SessionView::Connecting { canonical_name }, SessionActionView::Connect { port: RCON_PORT })
}

impl Session {
    /// Opens a session that is to put `canonical_name` on the allow-list:
    /// the first thing to do is to connect.
    pub fn open(canonical_name: String) -> (r: (Session, SessionAction))
        ensures
            (r.0@, r.1@) == initial(canonical_name@),
    {
        (Session::Connecting { canonical_name }, SessionAction::Connect { port: RCON_PORT })
    }

    /// How the session ended, once it has.
    pub fn outcome(&self) -> (outcome: Option<GrantOutcome>)
        ensures
            outcome == match self@ {
                SessionView::Closed(o) => Some(o),
                _ => None,
            },
    {
        match self {
            Session::Closed(o) => Some(*o),
            _ => None,
        }
    }

    /// Takes one step: `event` is what came of the action that the step
    /// before asked for.
    pub fn step(self, event: SessionEvent) -> (r: (Session, Option<SessionAction>))
        ensures
            (r.0@, action_view(r.1)) == next(self@, event),
    {
        match (self, event) {
            (Session::Connecting { canonical_name }, SessionEvent::Connected) => (
                Session::Authenticating { canonical_name },
                Some(SessionAction::Authenticate),
            ),
            (Session::Connecting { .. }, SessionEvent::ConnectFailed) => close(
                GrantOutcome::Failed(GrantFailure::ConnectFailure),
            ),
            (Session::Authenticating { canonical_name }, SessionEvent::Authenticated) => {
                let command = whitelist_command(canonical_name.as_str());
                (Session::Commanding, Some(SessionAction::RunCommand { command }))
            },
            (Session::Authenticating { .. }, SessionEvent::AuthFailed) => close(
                GrantOutcome::Failed(GrantFailure::AuthFailure),
            ),
            (Session::Commanding, SessionEvent::CommandAnswered) => close(GrantOutcome::Granted),
            (Session::Commanding, SessionEvent::CommandFailed) => close(
                GrantOutcome::Failed(GrantFailure::CommandFailure),
            ),
            (state, _) => (state, None),
        }
    }
}

fn close(outcome: GrantOutcome) -> (r: (Session, Option<SessionAction>))
    ensures
        (r.0@, action_view(r.1)) == closed(outcome),
{
    (Session::Closed(outcome), Some(SessionAction::Close(outcome)))
}

/// What a session asks for, in order, while `events` come in one by one.
pub open spec fn actions(state: SessionView, events: Seq<SessionEvent>) -> Seq<SessionActionView>
    decreases events.len(),
{
    if events.len() == 0 {
        seq![]
    } else {
        let (after, action) = next(state, events[0]);
        let rest = actions(after, events.drop_first());
        match action {
            Some(a) => seq![a] + rest,
            None => rest,
        }
    }
}

/// Everything a session for `canonical_name` asks for, the first action
/// included.
pub open spec fn transcript(canonical_name: Seq<char>, events: Seq<SessionEvent>) -> Seq<
    SessionActionView,
> {
    seq![initial(canonical_name).1] + actions(initial(canonical_name).0, events)
}

/// How many commands a run of actions sends.
pub open spec fn commands_sent(actions: Seq<SessionActionView>) -> nat
    decreases actions.len(),
{
    if actions.len() == 0 {
        0
    } else if actions[0] is RunCommand {
        commands_sent(actions.drop_first()) + 1
    } else {
        commands_sent(actions.drop_first())
    }
}

/// The number of commands a state may still send.
spec fn commands_left(state: SessionView) -> nat {
    match state {
        SessionView::Connecting { .. } => 1,
        SessionView::Authenticating { .. } => 1,
        _ => 0,
    }
}

/// The name a state still remembers is `canonical_name`.
spec fn is_for(state: SessionView, canonical_name: Seq<char>) -> bool {
    match state {
        SessionView::Connecting { canonical_name: n } => n == canonical_name,
        SessionView::Authenticating { canonical_name: n } => n == canonical_name,
        _ => true,
    }
}

proof fn lemma_session_from(
    state: SessionView,
    canonical_name: Seq<char>,
    events: Seq<SessionEvent>,
)
    requires
        is_for(state, canonical_name),
    ensures
        commands_sent(actions(state, events)) <= commands_left(state),
        forall|j: int|
            0 <= j < actions(state, events).len() ==> {
                let a = #[trigger] actions(state, events)[j];
                &&& a matches SessionActionView::RunCommand { command } ==> command
                    == whitelist_command_text(canonical_name)
                &&& a is Close ==> j == actions(state, events).len() - 1
                &&& !(a is Connect)
            },
        state is Closed ==> actions(state, events).len() == 0,
    decreases events.len(),
{
    if events.len() > 0 {
        let (after, action) = next(state, events[0]);
        let rest = actions(after, events.drop_first());
        lemma_session_from(after, canonical_name, events.drop_first());
        match action {
            Some(a) => {
                assert(actions(state, events) == seq![a] + rest);
                assert((seq![a] + rest).drop_first() =~= rest);
                assert forall|j: int| 0 <= j < actions(state, events).len() implies {
                    let b = #[trigger] actions(state, events)[j];
                    &&& b matches SessionActionView::RunCommand { command } ==> command
                        == whitelist_command_text(canonical_name)
                    &&& b is Close ==> j == actions(state, events).len() - 1
                    &&& !(b is Connect)
                } by {
                    if j > 0 {
                        assert(actions(state, events)[j] == rest[j - 1]);
                    }
                }
            },
            None => {},
        }
    }
}

/// A session sends one command at most, and it is the command that puts the
/// account it was opened for on the allow-list. It connects once, at its
/// start, and nothing follows its closing.
pub proof fn session_sends_one_command(canonical_name: Seq<char>, events: Seq<SessionEvent>)
    ensures
        commands_sent(transcript(canonical_name, events)) <= 1,
        forall|j: int|
            0 <= j < transcript(canonical_name, events).len() ==> {
                let a = #[trigger] transcript(canonical_name, events)[j];
                &&& a matches SessionActionView::RunCommand { command } ==> command
                    == whitelist_command_text(canonical_name)
                &&& a is Close ==> j == transcript(canonical_name, events).len() - 1
                &&& a is Connect ==> j == 0
            },
{
    let first = initial(canonical_name);
    let rest = actions(first.0, events);
    lemma_session_from(first.0, canonical_name, events);
    assert((seq![first.1] + rest).drop_first() =~= rest);
    assert forall|j: int| 0 <= j < transcript(canonical_name, events).len() implies {
        let a = #[trigger] transcript(canonical_name, events)[j];
        &&& a matches SessionActionView::RunCommand { command } ==> command
            == whitelist_command_text(canonical_name)
        &&& a is Close ==> j == transcript(canonical_name, events).len() - 1
        &&& a is Connect ==> j == 0
    } by {
        if j > 0 {
            assert(transcript(canonical_name, events)[j] == rest[j - 1]);
        }
    }
}

} // verus!
