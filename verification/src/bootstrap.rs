//! What has to be in place before the bot serves anyone: the role that marks
//! a verified member, the instructions in the verification channel, and the
//! `verify` command. Each is set up only where it is missing, and any
//! failure halts the start.

use crate::community::{
    community_views, community_with_channel, lemma_community_with_channel,
    lemma_location_ignores_roles, lemma_role_named_iff_present, locate_community, role_named,
    Community, CommunityView, RoleView,
};
use crate::presence::{
    instructions, instructions_view, verified_role, verified_role_name, verified_role_view,
    verify_command, verify_command_view, CommandSpec, CommandSpecView, Instructions,
    InstructionsView, RoleSpec, RoleSpecView,
};
use vstd::prelude::*;

verus! {

/// How long the bot waits after the gateway reports ready, in seconds.
pub const SETTLE_DELAY_SECS: u64 = 3;

/// How many messages of the verification channel the bot asks for to see
/// whether the channel is empty.
pub const HISTORY_PROBE_LIMIT: u8 = 1;

/// The two channels the bot is configured with.
#[derive(Clone, Copy, PartialEq, Eq, Debug, Structural)]
pub struct Targets {
    pub verify_channel_id: u64,
    pub status_channel_id: u64,
}

/// The community the bot serves, as the start-up found it.
#[derive(Clone, Copy, PartialEq, Eq, Debug, Structural)]
pub struct Site {
    pub community_id: u64,
    pub verify_channel_id: u64,
    pub status_channel_id: u64,
    pub has_status_channel: bool,
}

/// Why a start-up was halted.
#[derive(Clone, Copy, PartialEq, Eq, Debug, Structural)]
pub enum BootstrapError {
    /// No community has the verification channel.
    CommunityNotFound,
    RoleNotCreated,
    HistoryUnavailable,
    InstructionsNotSent,
    /// The community has no status channel.
    StatusChannelNotFound,
    CommandNotRegistered,
}

/// What an error says to the operator.
pub open spec fn error_text(error: BootstrapError) -> Seq<char> {
    match error {
        BootstrapError::CommunityNotFound => "There should be guild with a channel with the provided DISCORD_VERIFY_CHANNEL_ID"@,
        BootstrapError::RoleNotCreated => "Couldn't create a role"@,
        BootstrapError::HistoryUnavailable => "Couldn't get messages of verify channel"@,
        BootstrapError::InstructionsNotSent => "Couldn't send embed"@,
        BootstrapError::StatusChannelNotFound => "There should be channel with the provided DISCORD_STATUS_CHANNEL_ID"@,
        BootstrapError::CommandNotRegistered => "Couldn't create commands"@,
    }
}

impl BootstrapError {
    /// What the error says to the operator.
    pub fn describe(&self) -> (text: &'static str)
        ensures
            text@ == error_text(*self),
    {
        match self {
            BootstrapError::CommunityNotFound => "There should be guild with a channel with the provided DISCORD_VERIFY_CHANNEL_ID",
            BootstrapError::RoleNotCreated => "Couldn't create a role",
            BootstrapError::HistoryUnavailable => "Couldn't get messages of verify channel",
            BootstrapError::InstructionsNotSent => "Couldn't send embed",
            BootstrapError::StatusChannelNotFound => "There should be channel with the provided DISCORD_STATUS_CHANNEL_ID",
            BootstrapError::CommandNotRegistered => "Couldn't create commands",
        }
    }
}

/// Where a start-up stands.
#[derive(Clone, Copy, PartialEq, Eq, Debug, Structural)]
pub enum Bootstrap {
    Settling(Targets),
    Locating(Targets),
    CreatingRole(Site),
    ReadingHistory(Site),
    SendingInstructions(Site),
    RegisteringCommand(Site),
    Ready(Site),
    Halted(BootstrapError),
}

/// What the caller is asked to do next.
#[derive(Clone, PartialEq, Eq, Debug)]
pub enum BootstrapAction {
    Settle { seconds: u64 },
    ListCommunities,
    CreateRole { community_id: u64, role: RoleSpec },
    FetchHistory { channel_id: u64, limit: u8 },
    SendInstructions { channel_id: u64, message: Instructions },
    RegisterCommand { community_id: u64, command: CommandSpec },
    BeginStatusLoop { community_id: u64, status_channel_id: u64 },
    Halt(BootstrapError),
}

/// [`BootstrapAction`] as contracts see it.
pub enum BootstrapActionView {
    Settle { seconds: u64 },
    ListCommunities,
    CreateRole { community_id: u64, role: RoleSpecView },
    FetchHistory { channel_id: u64, limit: u8 },
    SendInstructions { channel_id: u64, message: InstructionsView },
    RegisterCommand { community_id: u64, command: CommandSpecView },
    BeginStatusLoop { community_id: u64, status_channel_id: u64 },
    Halt(BootstrapError),
}

impl View for BootstrapAction {
    type V = BootstrapActionView;

    open spec fn view(&self) -> BootstrapActionView {
        match *self {
            BootstrapAction::Settle { seconds } => BootstrapActionView::Settle { seconds },
            BootstrapAction::ListCommunities => BootstrapActionView::ListCommunities,
            BootstrapAction::CreateRole { community_id, role } => BootstrapActionView::CreateRole {
                community_id,
                role: role@,
            },
            BootstrapAction::FetchHistory { channel_id, limit } => {
                BootstrapActionView::FetchHistory { channel_id, limit }
            },
            BootstrapAction::SendInstructions { channel_id, message } => {
                BootstrapActionView::SendInstructions { channel_id, message: message@ }
            },
            BootstrapAction::RegisterCommand { community_id, command } => {
                BootstrapActionView::RegisterCommand { community_id, command: command@ }
            },
            BootstrapAction::BeginStatusLoop { community_id, status_channel_id } => {
                BootstrapActionView::BeginStatusLoop { community_id, status_channel_id }
            },
            BootstrapAction::Halt(error) => BootstrapActionView::Halt(error),
        }
    }
}

/// The view of an action that may be missing.
pub open spec fn action_view(action: Option<BootstrapAction>) -> Option<BootstrapActionView> {
    match action {
        Some(a) => Some(a@),
        None => None,
    }
}

/// What the caller reports back.
#[derive(Clone, PartialEq, Eq, Debug)]
pub enum BootstrapEvent {
    Settled,
    CommunitiesListed(Vec<Community>),
    RoleCreated { ok: bool },
    /// How many messages the probe of the verification channel returned, or
    /// `None` where it failed.
    HistoryFetched { messages: Option<usize> },
    InstructionsSent { ok: bool },
    CommandRegistered { ok: bool },
}

/// [`BootstrapEvent`] as contracts see it.
pub enum BootstrapEventView {
    Settled,
    CommunitiesListed(Seq<CommunityView>),
    RoleCreated { ok: bool },
    HistoryFetched { messages: Option<usize> },
    InstructionsSent { ok: bool },
    CommandRegistered { ok: bool },
}

impl View for BootstrapEvent {
    type V = BootstrapEventView;

    open spec fn view(&self) -> BootstrapEventView {
        match *self {
            BootstrapEvent::Settled => BootstrapEventView::Settled,
            BootstrapEvent::CommunitiesListed(communities) => BootstrapEventView::CommunitiesListed(
                community_views(communities@),
            ),
            BootstrapEvent::RoleCreated { ok } => BootstrapEventView::RoleCreated { ok },
            BootstrapEvent::HistoryFetched { messages } => BootstrapEventView::HistoryFetched {
                messages,
            },
            BootstrapEvent::InstructionsSent { ok } => BootstrapEventView::InstructionsSent { ok },
            BootstrapEvent::CommandRegistered { ok } => BootstrapEventView::CommandRegistered {
                ok,
            },
        }
    }
}

/// Halting with `error`.
pub open spec fn halted(error: BootstrapError) -> (Bootstrap, Option<BootstrapActionView>) {
    (Bootstrap::Halted(error), Some(BootstrapActionView::Halt(error)))
}

/// Going on to probe the verification channel.
pub open spec fn probing(site: Site) -> (Bootstrap, Option<BootstrapActionView>) {
    (
        Bootstrap::ReadingHistory(site),
        Some(
            BootstrapActionView::FetchHistory {
                channel_id: site.verify_channel_id,
                limit: HISTORY_PROBE_LIMIT,
            },
        ),
    )
}

/// Going on to register the command, which needs the status channel to be
/// there: the status loop starts right after it.
pub open spec fn registering(site: Site) -> (Bootstrap, Option<BootstrapActionView>) {
    if site.has_status_channel {
        (
            Bootstrap::RegisteringCommand(site),
            Some(
                BootstrapActionView::RegisterCommand {
                    community_id: site.community_id,
                    command: verify_command_view(),
                },
            ),
        )
    } else {
        halted(BootstrapError::StatusChannelNotFound)
    }
}

/// What the list of communities leads to: the one with the verification
/// channel is the bot's, and it gets the role unless it has one.
pub open spec fn located(targets: Targets, communities: Seq<CommunityView>) -> (
    Bootstrap,
    Option<BootstrapActionView>,
) {
    match community_with_channel(communities, targets.verify_channel_id) {
        None => halted(BootstrapError::CommunityNotFound),
        Some(i) => {
            let community = communities[i];
            let site = Site {
                community_id: community.id,
                verify_channel_id: targets.verify_channel_id,
                status_channel_id: targets.status_channel_id,
                has_status_channel: community.channel_ids.contains(targets.status_channel_id),
            };
            if role_named(community.roles, verified_role_name()) is Some {
                probing(site)
            } else {
                (
                    Bootstrap::CreatingRole(site),
                    Some(
                        BootstrapActionView::CreateRole {
                            community_id: site.community_id,
                            role: verified_role_view(),
                        },
                    ),
                )
            }
        },
    }
}

/// The whole transition relation: the state after `event` and what to do
/// next. An event that the state does not wait for changes nothing and asks
/// for nothing.
pub open spec fn next(state: Bootstrap, event: BootstrapEventView) -> (
    Bootstrap,
    Option<BootstrapActionView>,
) {
    match (state, event) {
        (Bootstrap::Settling(targets), BootstrapEventView::Settled) => (
            Bootstrap::Locating(targets),
            Some(BootstrapActionView::ListCommunities),
        ),
        (Bootstrap::Locating(targets), BootstrapEventView::CommunitiesListed(communities)) => {
            located(targets, communities)
        },
        (Bootstrap::CreatingRole(site), BootstrapEventView::RoleCreated { ok }) => {
            if ok {
                probing(site)
            } else {
                halted(BootstrapError::RoleNotCreated)
            }
        },
        (Bootstrap::ReadingHistory(site), BootstrapEventView::HistoryFetched { messages }) => {
            match messages {
                None => halted(BootstrapError::HistoryUnavailable),
                Some(n) => if n == 0 {
                    (
                        Bootstrap::SendingInstructions(site),
                        Some(
                            BootstrapActionView::SendInstructions {
                                channel_id: site.verify_channel_id,
                                message: instructions_view(),
                            },
                        ),
                    )
                } else {
                    registering(site)
                },
            }
        },
        (Bootstrap::SendingInstructions(site), BootstrapEventView::InstructionsSent { ok }) => {
            if ok {
                registering(site)
            } else {
                halted(BootstrapError::InstructionsNotSent)
            }
        },
        (Bootstrap::RegisteringCommand(site), BootstrapEventView::CommandRegistered { ok }) => {
            if ok {
                (
                    Bootstrap::Ready(site),
                    Some(
                        BootstrapActionView::BeginStatusLoop {
                            community_id: site.community_id,
                            status_channel_id: site.status_channel_id,
                        },
                    ),
                )
            } else {
                halted(BootstrapError::CommandNotRegistered)
            }
        },
        _ => (state, None),
    }
}

/// The first state of a start-up and its first action.
pub open spec fn initial(targets: Targets) -> (Bootstrap, BootstrapActionView) {
    (Bootstrap::Settling(targets), BootstrapActionView::Settle { seconds: SETTLE_DELAY_SECS })
}

impl Bootstrap {
    /// Begins a start-up: the first thing to do is to let the platform
    /// settle.
    pub fn begin(targets: Targets) -> (r: (Bootstrap, BootstrapAction))
        ensures
            (r.0, r.1@) == initial(targets),
    {
        (Bootstrap::Settling(targets), BootstrapAction::Settle { seconds: SETTLE_DELAY_SECS })
    }

    /// Whether the start-up is over, for better or worse.
    pub fn is_over(&self) -> (over: bool)
        ensures
            over == (*self is Ready || *self is Halted),
    {
        match self {
            Bootstrap::Ready(_) => true,
            Bootstrap::Halted(_) => true,
            _ => false,
        }
    }

    /// Takes one step: `event` is what came of the action that the step
    /// before asked for.
    pub fn step(self, event: BootstrapEvent) -> (r: (Bootstrap, Option<BootstrapAction>))
        ensures
            (r.0, action_view(r.1)) == next(self, event@),
    {
        match (self, event) {
            (Bootstrap::Settling(targets), BootstrapEvent::Settled) => (
                Bootstrap::Locating(targets),
                Some(BootstrapAction::ListCommunities),
            ),
            (Bootstrap::Locating(targets), BootstrapEvent::CommunitiesListed(communities)) => {
                locate(targets, &communities)
            },
            (Bootstrap::CreatingRole(site), BootstrapEvent::RoleCreated { ok }) => {
                if ok {
                    probe(site)
                } else {
                    halt(BootstrapError::RoleNotCreated)
                }
            },
            (Bootstrap::ReadingHistory(site), BootstrapEvent::HistoryFetched { messages }) => {
                match messages {
                    None => halt(BootstrapError::HistoryUnavailable),
                    Some(n) => {
                        if n == 0 {
                            (
                                Bootstrap::SendingInstructions(site),
                                Some(
                                    BootstrapAction::SendInstructions {
                                        channel_id: site.verify_channel_id,
                                        message: instructions(),
                                    },
                                ),
                            )
                        } else {
                            register(site)
                        }
                    },
                }
            },
            (Bootstrap::SendingInstructions(site), BootstrapEvent::InstructionsSent { ok }) => {
                if ok {
                    register(site)
                } else {
                    halt(BootstrapError::InstructionsNotSent)
                }
            },
            (Bootstrap::RegisteringCommand(site), BootstrapEvent::CommandRegistered { ok }) => {
                if ok {
                    (
                        Bootstrap::Ready(site),
                        Some(
                            BootstrapAction::BeginStatusLoop {
                                community_id: site.community_id,
                                status_channel_id: site.status_channel_id,
                            },
                        ),
                    )
                } else {
                    halt(BootstrapError::CommandNotRegistered)
                }
            },
            (state, _) => (state, None),
        }
    }
}

fn halt(error: BootstrapError) -> (r: (Bootstrap, Option<BootstrapAction>))
    ensures
        (r.0, action_view(r.1)) == halted(error),
{
    (Bootstrap::Halted(error), Some(BootstrapAction::Halt(error)))
}

fn probe(site: Site) -> (r: (Bootstrap, Option<BootstrapAction>))
    ensures
        (r.0, action_view(r.1)) == probing(site),
{
    (
        Bootstrap::ReadingHistory(site),
        Some(
            BootstrapAction::FetchHistory {
                channel_id: site.verify_channel_id,
                limit: HISTORY_PROBE_LIMIT,
            },
        ),
    )
}

fn register(site: Site) -> (r: (Bootstrap, Option<BootstrapAction>))
    ensures
        (r.0, action_view(r.1)) == registering(site),
{
    if site.has_status_channel {
        (
            Bootstrap::RegisteringCommand(site),
            Some(
                BootstrapAction::RegisterCommand {
                    community_id: site.community_id,
                    command: verify_command(),
                },
            ),
        )
    } else {
        halt(BootstrapError::StatusChannelNotFound)
    }
}

fn locate(targets: Targets, communities: &Vec<Community>) -> (r: (
    Bootstrap,
    Option<BootstrapAction>,
))
    ensures
        (r.0, action_view(r.1)) == located(targets, community_views(communities@)),
{
    match locate_community(communities, targets.verify_channel_id) {
        None => halt(BootstrapError::CommunityNotFound),
        Some(i) => {
            let community = &communities[i];
            assert(community_views(communities@)[i as int] == community@);
            let site = Site {
                community_id: community.id,
                verify_channel_id: targets.verify_channel_id,
                status_channel_id: targets.status_channel_id,
                has_status_channel: community.has_channel(targets.status_channel_id),
            };
            let role = verified_role();
            if community.role_named(&role.name).is_some() {
                probe(site)
            } else {
                (
                    Bootstrap::CreatingRole(site),
                    Some(BootstrapAction::CreateRole { community_id: site.community_id, role }),
                )
            }
        },
    }
}

/// What a start-up asks for, in order, while `events` come in one by one.
pub open spec fn actions(state: Bootstrap, events: Seq<BootstrapEventView>) -> Seq<
    BootstrapActionView,
>
    decreases events.len(),
{
    if events.len() == 0 {
        seq![]
    } else {
        let (after, action) = next(state, events[0]);
        let rest = actions(after, events.drop_first());
        match action {
            Some(a) => seq![a] + rest,
            None => rest,
        }
    }
}

/// Everything a start-up with these targets asks for, the first action
/// included.
pub open spec fn transcript(targets: Targets, events: Seq<BootstrapEventView>) -> Seq<
    BootstrapActionView,
> {
    seq![initial(targets).1] + actions(initial(targets).0, events)
}

/// The event shows a community that needs nothing: where it lists
/// communities, the one with the verification channel has the role, and where
/// it reports on the channel's history, the probe did not come back empty.
pub open spec fn shows_initialized(targets: Targets, event: BootstrapEventView) -> bool {
    match event {
        BootstrapEventView::CommunitiesListed(communities) => match community_with_channel(
            communities,
            targets.verify_channel_id,
        ) {
            Some(i) => role_named(communities[i].roles, verified_role_name()) is Some,
            None => true,
        },
        BootstrapEventView::HistoryFetched { messages } => messages != Some(0usize),
        _ => true,
    }
}

/// The targets that a state was begun with, where it still knows them.
pub open spec fn targets_of(state: Bootstrap) -> Option<Targets> {
    match state {
        Bootstrap::Settling(targets) => Some(targets),
        Bootstrap::Locating(targets) => Some(targets),
        _ => None,
    }
}

proof fn lemma_initialized_from(state: Bootstrap, targets: Targets, events: Seq<BootstrapEventView>)
    requires
        targets_of(state) is Some ==> targets_of(state) == Some(targets),
        !(state is CreatingRole),
        !(state is SendingInstructions),
        forall|i: int| 0 <= i < events.len() ==> shows_initialized(targets, events[i]),
    ensures
        forall|j: int|
            0 <= j < actions(state, events).len() ==> !(actions(state, events)[j]
                is CreateRole) && !(actions(state, events)[j] is SendInstructions),
    decreases events.len(),
{
    if events.len() > 0 {
        let (after, action) = next(state, events[0]);
        let rest = events.drop_first();
        assert(shows_initialized(targets, events[0]));
        assert forall|i: int| 0 <= i < rest.len() implies shows_initialized(targets, rest[i]) by {
            assert(rest[i] == events[i + 1]);
        }
        lemma_initialized_from(after, targets, rest);
    }
}

/// A start-up that finds its community initialized leaves it alone: where
/// every listing shows the role in place and every probe of the verification
/// channel finds a message, no role is created and no instructions are sent,
/// whatever else happens and in whatever order the events arrive.
pub proof fn initialized_community_is_left_alone(
    targets: Targets,
    events: Seq<BootstrapEventView>,
)
    requires
        forall|i: int| 0 <= i < events.len() ==> shows_initialized(targets, events[i]),
    ensures
        forall|j: int|
            0 <= j < transcript(targets, events).len() ==> !(transcript(targets, events)[j]
                is CreateRole) && !(transcript(targets, events)[j] is SendInstructions),
{
    lemma_initialized_from(initial(targets).0, targets, events);
}

/// How many roles a run of actions asks to create.
pub open spec fn roles_asked(actions: Seq<BootstrapActionView>) -> nat
    decreases actions.len(),
{
    if actions.len() == 0 {
        0
    } else if actions[0] is CreateRole {
        roles_asked(actions.drop_first()) + 1
    } else {
        roles_asked(actions.drop_first())
    }
}

/// How many times a run of actions asks to send the instructions.
pub open spec fn instructions_asked(actions: Seq<BootstrapActionView>) -> nat
    decreases actions.len(),
{
    if actions.len() == 0 {
        0
    } else if actions[0] is SendInstructions {
        instructions_asked(actions.drop_first()) + 1
    } else {
        instructions_asked(actions.drop_first())
    }
}

/// The action ends the start-up.
pub open spec fn is_final(action: BootstrapActionView) -> bool {
    action is BeginStatusLoop || action is Halt
}

/// The number of roles a state may still ask for.
spec fn roles_left(state: Bootstrap) -> nat {
    match state {
        Bootstrap::Settling(_) => 1,
        Bootstrap::Locating(_) => 1,
        _ => 0,
    }
}

/// The number of times a state may still ask to send the instructions.
spec fn instructions_left(state: Bootstrap) -> nat {
    match state {
        Bootstrap::Settling(_) => 1,
        Bootstrap::Locating(_) => 1,
        Bootstrap::CreatingRole(_) => 1,
        Bootstrap::ReadingHistory(_) => 1,
        _ => 0,
    }
}

proof fn lemma_once_from(state: Bootstrap, events: Seq<BootstrapEventView>)
    ensures
        roles_asked(actions(state, events)) <= roles_left(state),
        instructions_asked(actions(state, events)) <= instructions_left(state),
        state is Ready || state is Halted ==> actions(state, events).len() == 0,
        forall|j: int|
            0 <= j < actions(state, events).len() ==> (is_final(
                #[trigger] actions(state, events)[j],
            ) ==> j == actions(state, events).len() - 1),
    decreases events.len(),
{
    if events.len() > 0 {
        let (after, action) = next(state, events[0]);
        let rest = actions(after, events.drop_first());
        lemma_once_from(after, events.drop_first());
        match action {
            Some(a) => {
                assert(actions(state, events) == seq![a] + rest);
                assert((seq![a] + rest).drop_first() =~= rest);
                assert forall|j: int| 0 <= j < actions(state, events).len() implies (is_final(
                    #[trigger] actions(state, events)[j],
                ) ==> j == actions(state, events).len() - 1) by {
                    if j > 0 {
                        assert(actions(state, events)[j] == rest[j - 1]);
                    }
                }
            },
            None => {},
        }
    }
}

/// One start-up creates one role at most and sends the instructions once at
/// most, and nothing follows its end, be it the start of the status loop or
/// a halt.
pub proof fn start_up_sets_up_once(targets: Targets, events: Seq<BootstrapEventView>)
    ensures
        roles_asked(transcript(targets, events)) <= 1,
        instructions_asked(transcript(targets, events)) <= 1,
        forall|j: int|
            0 <= j < transcript(targets, events).len() ==> (is_final(
                #[trigger] transcript(targets, events)[j],
            ) ==> j == transcript(targets, events).len() - 1),
{
    let first = initial(targets);
    let rest = actions(first.0, events);
    lemma_once_from(first.0, events);
    assert((seq![first.1] + rest).drop_first() =~= rest);
    assert forall|j: int| 0 <= j < transcript(targets, events).len() implies (is_final(
        #[trigger] transcript(targets, events)[j],
    ) ==> j == transcript(targets, events).len() - 1) by {
        if j > 0 {
            assert(transcript(targets, events)[j] == rest[j - 1]);
        }
    }
}

/// The communities once the one at `position` has got one more role.
pub open spec fn with_role(communities: Seq<CommunityView>, position: int, role: RoleView) -> Seq<
    CommunityView,
> {
    communities.update(
        position,
        CommunityView {
            id: communities[position].id,
            roles: communities[position].roles.push(role),
            channel_ids: communities[position].channel_ids,
        },
    )
}

/// A role that was created is not asked for again: where a listing makes the
/// start-up ask for the role, a listing of the same communities in which the
/// bot's community has got a role of the name asked for, under whatever id,
/// makes it go straight on to the verification channel.
pub proof fn created_role_is_found_again(
    targets: Targets,
    communities: Seq<CommunityView>,
    role_id: u64,
)
    requires
        located(targets, communities).0 is CreatingRole,
    ensures
        ({
            let position = community_with_channel(communities, targets.verify_channel_id)->0;
            let created = RoleView { id: role_id, name: verified_role_view().name };
            located(targets, with_role(communities, position, created)) == probing(
                located(targets, communities).0->CreatingRole_0,
            )
        }),
{
    let position = community_with_channel(communities, targets.verify_channel_id)->0;
    let created = RoleView { id: role_id, name: verified_role_view().name };
    let after = with_role(communities, position, created);
    lemma_community_with_channel(communities, targets.verify_channel_id);
    lemma_location_ignores_roles(communities, after, targets.verify_channel_id);
    lemma_role_named_iff_present(after[position].roles, verified_role_name());
    assert(after[position].roles[communities[position].roles.len() as int].name
        == verified_role_name());
}

} // verus!
