//! The status display: the label that a snapshot of the game server calls
//! for, and whether the channel that shows it has to be renamed.

use crate::text::{decimal, render_decimal};
use vstd::prelude::*;

verus! {

/// The port on which the game server answers status queries.
pub const STATUS_PORT: u16 = 25565;

/// The time from one reconciliation tick to the next, in seconds.
pub const POLL_INTERVAL_SECS: u64 = 360;

/// What one status query found.
#[derive(Clone, Copy, PartialEq, Eq, Debug, Structural)]
pub enum ServerStatusSnapshot {
    Online { player_count: u32 },
    Unreachable,
}

/// What stands before the player count in the label of a reachable server.
pub open spec fn online_prefix() -> Seq<char> {
    "ðŸŽ® Players online: "@
}

/// What stands after the player count in the label of a reachable server.
pub open spec fn online_suffix() -> Seq<char> {
    " ðŸŽ®"@
}

/// The label of a server that did not answer.
pub open spec fn offline_label() -> Seq<char> {
    "ðŸ›‘ Server offline ðŸ›‘"@
}

/// The label that a snapshot calls for.
pub open spec fn label_text(snapshot: ServerStatusSnapshot) -> Seq<char> {
    match snapshot {
        ServerStatusSnapshot::Online { player_count } => online_prefix() + decimal(
            player_count as nat,
        ) + online_suffix(),
        ServerStatusSnapshot::Unreachable => offline_label(),
    }
}

/// The rename that a tick asks for: the label of the snapshot, unless the
/// display shows it already.
pub open spec fn reconciled(displayed: Seq<char>, snapshot: ServerStatusSnapshot) -> Option<
    Seq<char>,
> {
    if label_text(snapshot) == displayed {
        None
    } else {
        Some(label_text(snapshot))
    }
}

/// `needle` stands somewhere in `text`, in one piece.
pub open spec fn occurs_in(needle: Seq<char>, text: Seq<char>) -> bool {
    exists|i: int|
        0 <= i && i + needle.len() <= text.len() && #[trigger] text.subrange(
            i,
            i + needle.len(),
        ) == needle
}

/// Computes the label that a snapshot calls for.
pub fn label(snapshot: ServerStatusSnapshot) -> (text: String)
    ensures
        text@ == label_text(snapshot),
{
    match snapshot {
        ServerStatusSnapshot::Online { player_count } => {
            let mut text = String::from_str("ðŸŽ® Players online: ");
            let count = render_decimal(player_count as u64);
            text.append(count.as_str());
            text.append(" ðŸŽ®");
            text
        },
        ServerStatusSnapshot::Unreachable => String::from_str("ðŸ›‘ Server offline ðŸ›‘"),
    }
}

/// Decides one reconciliation tick: `displayed` is what the channel is
/// called now, `snapshot` what the status query found. Returns the new name
/// to ask for, or `None` where the channel already carries it.
pub fn reconcile(displayed: &String, snapshot: ServerStatusSnapshot) -> (rename: Option<String>)
    ensures
        match rename {
            Some(text) => reconciled(displayed@, snapshot) == Some(text@),
            None => reconciled(displayed@, snapshot) is None,
        },
{
    let text = label(snapshot);
    if text == *displayed {
        None
    } else {
        Some(text)
    }
}

/// Where the status loop stands within one tick.
#[derive(Clone, PartialEq, Eq, Debug)]
pub enum StatusLoop {
    /// Between two ticks.
    Idle,
    /// The tick has come and the server is being asked; `displayed` is what
    /// the channel was called when the tick came.
    Querying { displayed: String },
    Renaming,
}

/// [`StatusLoop`] as contracts see it.
pub enum StatusLoopView {
    Idle,
    Querying { displayed: Seq<char> },
    Renaming,
}

impl View for StatusLoop {
    type V = StatusLoopView;

    open spec fn view(&self) -> StatusLoopView {
        match *self {
            StatusLoop::Idle => StatusLoopView::Idle,
            StatusLoop::Querying { displayed } => StatusLoopView::Querying {
                displayed: displayed@,
            },
            StatusLoop::Renaming => StatusLoopView::Renaming,
        }
    }
}

/// What the caller reports back.
#[derive(Clone, PartialEq, Eq, Debug)]
pub enum StatusEvent {
    /// The tick has come; `displayed` is what the channel is called now.
    Ticked { displayed: String },
    Queried(ServerStatusSnapshot),
    Renamed { ok: bool },
}

/// [`StatusEvent`] as contracts see it.
pub enum StatusEventView {
    Ticked { displayed: Seq<char> },
    Queried(ServerStatusSnapshot),
    Renamed { ok: bool },
}

impl View for StatusEvent {
    type V = StatusEventView;

    open spec fn view(&self) -> StatusEventView {
        match *self {
            StatusEvent::Ticked { displayed } => StatusEventView::Ticked { displayed: displayed@ },
            StatusEvent::Queried(snapshot) => StatusEventView::Queried(snapshot),
            StatusEvent::Renamed { ok } => StatusEventView::Renamed { ok },
        }
    }
}

/// What the caller is asked to do next.
#[derive(Clone, PartialEq, Eq, Debug)]
pub enum StatusAction {
    /// Wait for the next tick, then read what the channel is called.
    AwaitTick,
    QueryStatus { port: u16 },
    Rename { label: String },
}

/// [`StatusAction`] as contracts see it.
pub enum StatusActionView {
    AwaitTick,
    QueryStatus { port: u16 },
    Rename { label: Seq<char> },
}

impl View for StatusAction {
    type V = StatusActionView;

    open spec fn view(&self) -> StatusActionView {
        match *self {
            StatusAction::AwaitTick => StatusActionView::AwaitTick,
            StatusAction::QueryStatus { port } => StatusActionView::QueryStatus { port },
            StatusAction::Rename { label } => StatusActionView::Rename { label: label@ },
        }
    }
}

/// The view of an action that may be missing.
pub open spec fn action_view(action: Option<StatusAction>) -> Option<StatusActionView> {
    match action {
        Some(a) => Some(a@),
        None => None,
    }
}

/// The whole transition relation of the loop. A tick starts a query. What
/// the query found decides whether the channel is renamed; a server that did
/// not answer is a finding like any other. Whether or not a rename went
/// through, the loop waits for the next tick. An event that the state does
/// not wait for changes nothing and asks for nothing.
pub open spec fn next(state: StatusLoopView, event: StatusEventView) -> (
    StatusLoopView,
    Option<StatusActionView>,
) {
    match (state, event) {
        (StatusLoopView::Idle, StatusEventView::Ticked { displayed }) => (
            StatusLoopView::Querying { displayed },
            Some(StatusActionView::QueryStatus { port: STATUS_PORT }),
        ),
        (StatusLoopView::Querying { displayed }, StatusEventView::Queried(snapshot)) => {
            match reconciled(displayed, snapshot) {
                Some(label) => (StatusLoopView::Renaming, Some(StatusActionView::Rename { label })),
                None => (StatusLoopView::Idle, Some(StatusActionView::AwaitTick)),
            }
        },
        (StatusLoopView::Renaming, StatusEventView::Renamed { .. }) => (
            StatusLoopView::Idle,
            Some(StatusActionView::AwaitTick),
        ),
        _ => (state, None),
    }
}

impl StatusLoop {
    /// Starts the loop: the first thing to do is to wait for a tick.
    pub fn start() -> (r: (StatusLoop, StatusAction))
        ensures
            r.0@ == StatusLoopView::Idle,
            r.1@ == StatusActionView::AwaitTick,
    {
        (StatusLoop::Idle, StatusAction::AwaitTick)
    }

    /// Takes one step: `event` is what came of the action that the step
    /// before asked for.
    pub fn step(self, event: StatusEvent) -> (r: (StatusLoop, Option<StatusAction>))
        ensures
            (r.0@, action_view(r.1)) == next(self@, event@),
    {
        match (self, event) {
            (StatusLoop::Idle, StatusEvent::Ticked { displayed }) => (
                StatusLoop::Querying { displayed },
                Some(StatusAction::QueryStatus { port: STATUS_PORT }),
            ),
            (StatusLoop::Querying { displayed }, StatusEvent::Queried(snapshot)) => {
                match reconcile(&displayed, snapshot) {
                    Some(label) => (StatusLoop::Renaming, Some(StatusAction::Rename { label })),
                    None => (StatusLoop::Idle, Some(StatusAction::AwaitTick)),
                }
            },
            (StatusLoop::Renaming, StatusEvent::Renamed { .. }) => (
                StatusLoop::Idle,
                Some(StatusAction::AwaitTick),
            ),
            (state, _) => (state, None),
        }
    }
}

/// The loop has no end: in every state there is an event that it waits for,
/// and whatever that event reports, a failed query and a failed rename
/// included, the loop asks for something next.
pub proof fn loop_goes_on(state: StatusLoopView, snapshot: ServerStatusSnapshot, ok: bool)
    ensures
        state is Idle ==> forall|displayed: Seq<char>|
            (#[trigger] next(state, StatusEventView::Ticked { displayed })).1 is Some,
        state is Querying ==> next(state, StatusEventView::Queried(snapshot)).1 is Some,
        state is Renaming ==> next(state, StatusEventView::Renamed { ok })
            == (StatusLoopView::Idle, Some(StatusActionView::AwaitTick)),
{
}

/// One tick as the display lives through it: what the query found, and
/// whether a rename, if this tick asks for one, goes through.
pub struct Tick {
    pub snapshot: ServerStatusSnapshot,
    pub rename_succeeds: bool,
}

/// What the channel is called after a tick: what the tick asked for, where
/// it asked for a rename and the rename went through, and else what it was
/// called before.
pub open spec fn displayed_after(displayed: Seq<char>, tick: Tick) -> Seq<char> {
    match reconciled(displayed, tick.snapshot) {
        Some(label) => if tick.rename_succeeds {
            label
        } else {
            displayed
        },
        None => displayed,
    }
}

/// What the loop asks for in the course of one tick that comes while the
/// channel is called `displayed`, from the tick to the wait for the next.
pub open spec fn tick_actions(displayed: Seq<char>, tick: Tick) -> Seq<StatusActionView> {
    let (querying, query) = next(StatusLoopView::Idle, StatusEventView::Ticked { displayed });
    let (decided, decision) = next(querying, StatusEventView::Queried(tick.snapshot));
    if decided is Renaming {
        seq![
            query->0,
            decision->0,
            next(decided, StatusEventView::Renamed { ok: tick.rename_succeeds }).1->0,
        ]
    } else {
        seq![query->0, decision->0]
    }
}

/// One tick is one query and one rename at most: the loop asks the server,
/// asks for the rename that the finding calls for, if it calls for one, and
/// waits for the next tick.
pub proof fn tick_asks_as_reconciled(displayed: Seq<char>, tick: Tick)
    ensures
        tick_actions(displayed, tick) == match reconciled(displayed, tick.snapshot) {
            Some(label) => seq![
                StatusActionView::QueryStatus { port: STATUS_PORT },
                StatusActionView::Rename { label },
                StatusActionView::AwaitTick,
            ],
            None => seq![
                StatusActionView::QueryStatus { port: STATUS_PORT },
                StatusActionView::AwaitTick,
            ],
        },
{
}

/// How many renames a run of consecutive ticks asks for.
pub open spec fn rename_requests(displayed: Seq<char>, ticks: Seq<Tick>) -> nat
    decreases ticks.len(),
{
    if ticks.len() == 0 {
        0
    } else {
        let rest = rename_requests(displayed_after(displayed, ticks[0]), ticks.drop_first());
        if reconciled(displayed, ticks[0].snapshot) is Some {
            rest + 1
        } else {
            rest
        }
    }
}

/// How many of the renames that a run of ticks asks for do not go through.
pub open spec fn rename_failures(displayed: Seq<char>, ticks: Seq<Tick>) -> nat
    decreases ticks.len(),
{
    if ticks.len() == 0 {
        0
    } else {
        let rest = rename_failures(displayed_after(displayed, ticks[0]), ticks.drop_first());
        if reconciled(displayed, ticks[0].snapshot) is Some && !ticks[0].rename_succeeds {
            rest + 1
        } else {
            rest
        }
    }
}

/// While the snapshot stays the same, a rename is asked for again only after
/// one that failed: over any run of ticks that all find `snapshot`, the
/// requests number at most one more than the failures, and there is none
/// where the channel carries the label from the start.
pub proof fn steady_snapshot_renames_once(
    displayed: Seq<char>,
    snapshot: ServerStatusSnapshot,
    ticks: Seq<Tick>,
)
    requires
        forall|i: int| 0 <= i < ticks.len() ==> ticks[i].snapshot == snapshot,
    ensures
        rename_requests(displayed, ticks) <= rename_failures(displayed, ticks) + 1,
        displayed == label_text(snapshot) ==> rename_requests(displayed, ticks) == 0,
    decreases ticks.len(),
{
    if ticks.len() > 0 {
        let rest = ticks.drop_first();
        assert(ticks[0].snapshot == snapshot);
        assert forall|i: int| 0 <= i < rest.len() implies rest[i].snapshot == snapshot by {
            assert(rest[i] == ticks[i + 1]);
        }
        steady_snapshot_renames_once(displayed_after(displayed, ticks[0]), snapshot, rest);
    }
}

/// Where every rename goes through, none fails.
proof fn lemma_no_failures(displayed: Seq<char>, ticks: Seq<Tick>)
    requires
        forall|i: int| 0 <= i < ticks.len() ==> ticks[i].rename_succeeds,
    ensures
        rename_failures(displayed, ticks) == 0,
    decreases ticks.len(),
{
    if ticks.len() > 0 {
        let rest = ticks.drop_first();
        assert(ticks[0].rename_succeeds);
        assert forall|i: int| 0 <= i < rest.len() implies rest[i].rename_succeeds by {
            assert(rest[i] == ticks[i + 1]);
        }
        lemma_no_failures(displayed_after(displayed, ticks[0]), rest);
    }
}

/// The display is brought up to date once: over any run of consecutive
/// ticks that all find the same snapshot and whose renames go through, two
/// ticks or more, the loop asks for one rename at most, not for one per
/// tick.
pub proof fn unchanged_snapshot_renames_at_most_once(
    displayed: Seq<char>,
    snapshot: ServerStatusSnapshot,
    ticks: Seq<Tick>,
)
    requires
        forall|i: int| 0 <= i < ticks.len() ==> ticks[i].snapshot == snapshot,
        forall|i: int| 0 <= i < ticks.len() ==> ticks[i].rename_succeeds,
    ensures
        rename_requests(displayed, ticks) <= 1,
{
    steady_snapshot_renames_once(displayed, snapshot, ticks);
    lemma_no_failures(displayed, ticks);
}

/// A server that did not answer is shown by the offline label. One that
/// answered with `player_count` is shown by a label that differs from the
/// offline label and spells the count out.
pub proof fn online_label_names_count(player_count: u32)
    ensures
        label_text(ServerStatusSnapshot::Unreachable) == offline_label(),
        label_text(ServerStatusSnapshot::Online { player_count }) != offline_label(),
        occurs_in(
            decimal(player_count as nat),
            label_text(ServerStatusSnapshot::Online { player_count }),
        ),
{
    reveal_strlit("ðŸŽ® Players online: ");
    reveal_strlit("ðŸ›‘ Server offline ðŸ›‘");
    let digits = decimal(player_count as nat);
    let text = label_text(ServerStatusSnapshot::Online { player_count });
    assert(text[2] == online_prefix()[2]);
    assert(offline_label()[2] != online_prefix()[2]);
    let start = online_prefix().len() as int;
    assert(text.subrange(start, start + digits.len()) =~= digits);
}

} // verus!
