use mc_verification_bot::bootstrap::{
    Bootstrap, BootstrapAction, BootstrapError, BootstrapEvent, Site, Targets,
    HISTORY_PROBE_LIMIT, SETTLE_DELAY_SECS,
};
use mc_verification_bot::community::{Community, Role};
use mc_verification_bot::presence::{instructions, verified_role, verify_command};

const VERIFY_CHANNEL: u64 = 10;
const STATUS_CHANNEL: u64 = 20;
const GUILD: u64 = 900;

fn targets() -> Targets {
    Targets { verify_channel_id: VERIFY_CHANNEL, status_channel_id: STATUS_CHANNEL }
}

fn site() -> Site {
    Site {
        community_id: GUILD,
        verify_channel_id: VERIFY_CHANNEL,
        status_channel_id: STATUS_CHANNEL,
        has_status_channel: true,
    }
}

fn create_role(community_id: u64) -> BootstrapAction {
    BootstrapAction::CreateRole { community_id, role: verified_role() }
}

fn send_instructions() -> BootstrapAction {
    BootstrapAction::SendInstructions { channel_id: VERIFY_CHANNEL, message: instructions() }
}

fn register_command() -> BootstrapAction {
    BootstrapAction::RegisterCommand { community_id: GUILD, command: verify_command() }
}

/// The platform as a start-up sees it, with a count of what was made.
struct Platform {
    communities: Vec<Community>,
    history: usize,
    command_registered: usize,
    roles_created: usize,
    instructions_sent: usize,
    fail_on: Option<BootstrapAction>,
}

impl Platform {
    fn fresh() -> Platform {
        Platform {
            communities: vec![
                Community { id: 1, roles: Vec::new(), channel_ids: vec![1, 2, 3] },
                Community {
                    id: GUILD,
                    roles: vec![Role { id: 5, name: String::from("@everyone") }],
                    channel_ids: vec![STATUS_CHANNEL, 15, VERIFY_CHANNEL],
                },
            ],
            history: 0,
            command_registered: 0,
            roles_created: 0,
            instructions_sent: 0,
            fail_on: None,
        }
    }

    fn perform(&mut self, action: BootstrapAction) -> BootstrapEvent {
        let ok = self.fail_on.as_ref() != Some(&action);
        match action {
            BootstrapAction::Settle { .. } => BootstrapEvent::Settled,
            BootstrapAction::ListCommunities => {
                BootstrapEvent::CommunitiesListed(self.communities.clone())
            }
            BootstrapAction::CreateRole { community_id, role } => {
                if ok {
                    self.roles_created += 1;
                    let community =
                        self.communities.iter_mut().find(|c| c.id == community_id).unwrap();
                    community.roles.push(Role { id: 77, name: role.name });
                }
                BootstrapEvent::RoleCreated { ok }
            }
            BootstrapAction::FetchHistory { channel_id, limit } => {
                assert_eq!(channel_id, VERIFY_CHANNEL);
                let messages =
                    if ok { Some(usize::min(self.history, usize::from(limit))) } else { None };
                BootstrapEvent::HistoryFetched { messages }
            }
            BootstrapAction::SendInstructions { channel_id, message } => {
                assert_eq!(channel_id, VERIFY_CHANNEL);
                assert_eq!(message, instructions());
                if ok {
                    self.instructions_sent += 1;
                    self.history += 1;
                }
                BootstrapEvent::InstructionsSent { ok }
            }
            BootstrapAction::RegisterCommand { community_id, command } => {
                assert_eq!(community_id, GUILD);
                assert_eq!(command, verify_command());
                if ok {
                    self.command_registered += 1;
                }
                BootstrapEvent::CommandRegistered { ok }
            }
            BootstrapAction::BeginStatusLoop { .. } | BootstrapAction::Halt(_) => unreachable!(),
        }
    }

    /// Runs one start-up to its end and returns what it asked for.
    fn start(&mut self) -> (Bootstrap, Vec<BootstrapAction>) {
        let (mut state, first) = Bootstrap::begin(targets());
        let mut actions = vec![first];
        while !state.is_over() {
            let event = self.perform(actions.last().unwrap().clone());
            let (after, action) = state.step(event);
            state = after;
            actions.push(action.expect("the start-up waits for this event"));
        }
        (state, actions)
    }
}

#[test]
fn bootstrap_constants() {
    assert_eq!(SETTLE_DELAY_SECS, 3);
    assert_eq!(HISTORY_PROBE_LIMIT, 1);
}

#[test]
fn fresh_community_gets_role_instructions_and_command() {
    let mut platform = Platform::fresh();
    let (state, actions) = platform.start();
    assert_eq!(state, Bootstrap::Ready(site()));
    assert_eq!(
        actions,
        vec![
            BootstrapAction::Settle { seconds: 3 },
            BootstrapAction::ListCommunities,
            create_role(GUILD),
            BootstrapAction::FetchHistory { channel_id: VERIFY_CHANNEL, limit: 1 },
            send_instructions(),
            register_command(),
            BootstrapAction::BeginStatusLoop {
                community_id: GUILD,
                status_channel_id: STATUS_CHANNEL,
            },
        ]
    );
    assert_eq!(platform.roles_created, 1);
    assert_eq!(platform.instructions_sent, 1);
    assert_eq!(platform.command_registered, 1);
}

#[test]
fn rerun_creates_no_second_role_and_sends_no_second_message() {
    let mut platform = Platform::fresh();
    platform.start();
    let (state, actions) = platform.start();
    assert_eq!(state, Bootstrap::Ready(site()));
    assert_eq!(
        actions,
        vec![
            BootstrapAction::Settle { seconds: 3 },
            BootstrapAction::ListCommunities,
            BootstrapAction::FetchHistory { channel_id: VERIFY_CHANNEL, limit: 1 },
            register_command(),
            BootstrapAction::BeginStatusLoop {
                community_id: GUILD,
                status_channel_id: STATUS_CHANNEL,
            },
        ]
    );
    assert_eq!(platform.roles_created, 1);
    assert_eq!(platform.instructions_sent, 1);
    assert_eq!(platform.command_registered, 2);
    platform.start();
    assert_eq!(platform.roles_created, 1);
    assert_eq!(platform.instructions_sent, 1);
}

#[test]
fn role_in_place_is_not_created_again() {
    let mut platform = Platform::fresh();
    platform.communities[1].roles.push(Role { id: 77, name: String::from("Verified") });
    let (_, actions) = platform.start();
    assert!(!actions.contains(&create_role(GUILD)));
    assert!(actions.contains(&send_instructions()));
    assert_eq!(platform.roles_created, 0);
}

#[test]
fn any_message_in_the_channel_keeps_the_instructions_back() {
    let mut platform = Platform::fresh();
    platform.history = 12;
    let (_, actions) = platform.start();
    assert!(actions.contains(&create_role(GUILD)));
    assert!(!actions.contains(&send_instructions()));
    assert_eq!(platform.instructions_sent, 0);
}

#[test]
fn role_name_is_matched_exactly() {
    let mut platform = Platform::fresh();
    platform.communities[1].roles.push(Role { id: 70, name: String::from("verified") });
    platform.communities[1].roles.push(Role { id: 71, name: String::from("Verified ") });
    platform.start();
    assert_eq!(platform.roles_created, 1);
}

#[test]
fn role_of_another_community_does_not_count() {
    let mut platform = Platform::fresh();
    platform.communities[0].roles.push(Role { id: 77, name: String::from("Verified") });
    platform.start();
    assert_eq!(platform.roles_created, 1);
}

#[test]
fn halts_without_a_community_for_the_verification_channel() {
    let mut platform = Platform::fresh();
    platform.communities[1].channel_ids = vec![STATUS_CHANNEL];
    let (state, actions) = platform.start();
    assert_eq!(state, Bootstrap::Halted(BootstrapError::CommunityNotFound));
    assert_eq!(
        actions,
        vec![
            BootstrapAction::Settle { seconds: 3 },
            BootstrapAction::ListCommunities,
            BootstrapAction::Halt(BootstrapError::CommunityNotFound),
        ]
    );
}

#[test]
fn halts_without_any_community() {
    let mut platform = Platform::fresh();
    platform.communities.clear();
    let (state, _) = platform.start();
    assert_eq!(state, Bootstrap::Halted(BootstrapError::CommunityNotFound));
}

#[test]
fn halts_when_the_role_cannot_be_created() {
    let mut platform = Platform::fresh();
    platform.fail_on = Some(create_role(GUILD));
    let (state, actions) = platform.start();
    assert_eq!(state, Bootstrap::Halted(BootstrapError::RoleNotCreated));
    assert_eq!(actions.last(), Some(&BootstrapAction::Halt(BootstrapError::RoleNotCreated)));
    assert_eq!(platform.instructions_sent, 0);
    assert_eq!(platform.command_registered, 0);
}

#[test]
fn halts_when_the_history_cannot_be_read() {
    let mut platform = Platform::fresh();
    platform.fail_on =
        Some(BootstrapAction::FetchHistory { channel_id: VERIFY_CHANNEL, limit: 1 });
    let (state, _) = platform.start();
    assert_eq!(state, Bootstrap::Halted(BootstrapError::HistoryUnavailable));
    assert_eq!(platform.roles_created, 1);
    assert_eq!(platform.instructions_sent, 0);
}

#[test]
fn halts_when_the_instructions_cannot_be_sent() {
    let mut platform = Platform::fresh();
    platform.fail_on = Some(send_instructions());
    let (state, _) = platform.start();
    assert_eq!(state, Bootstrap::Halted(BootstrapError::InstructionsNotSent));
    assert_eq!(platform.command_registered, 0);
}

#[test]
fn halts_without_a_status_channel_after_role_and_instructions() {
    let mut platform = Platform::fresh();
    platform.communities[1].channel_ids = vec![VERIFY_CHANNEL];
    let (state, actions) = platform.start();
    assert_eq!(state, Bootstrap::Halted(BootstrapError::StatusChannelNotFound));
    assert_eq!(
        actions,
        vec![
            BootstrapAction::Settle { seconds: 3 },
            BootstrapAction::ListCommunities,
            create_role(GUILD),
            BootstrapAction::FetchHistory { channel_id: VERIFY_CHANNEL, limit: 1 },
            send_instructions(),
            BootstrapAction::Halt(BootstrapError::StatusChannelNotFound),
        ]
    );
    assert_eq!(platform.command_registered, 0);
}

#[test]
fn halts_when_the_command_cannot_be_registered() {
    let mut platform = Platform::fresh();
    platform.fail_on = Some(register_command());
    let (state, _) = platform.start();
    assert_eq!(state, Bootstrap::Halted(BootstrapError::CommandNotRegistered));
}

#[test]
fn first_community_with_the_channel_is_served() {
    let mut platform = Platform::fresh();
    platform.communities[0].channel_ids.push(VERIFY_CHANNEL);
    let (state, _) = Bootstrap::begin(targets());
    let (state, _) = state.step(BootstrapEvent::Settled);
    let (state, action) = state.step(BootstrapEvent::CommunitiesListed(platform.communities));
    assert_eq!(action, Some(create_role(1)));
    assert_eq!(
        state,
        Bootstrap::CreatingRole(Site {
            community_id: 1,
            verify_channel_id: VERIFY_CHANNEL,
            status_channel_id: STATUS_CHANNEL,
            has_status_channel: false,
        })
    );
}

#[test]
fn bootstrap_ignores_events_out_of_turn() {
    let (state, _) = Bootstrap::begin(targets());
    let (state, action) = state.step(BootstrapEvent::RoleCreated { ok: true });
    assert_eq!((state, action), (Bootstrap::Settling(targets()), None));
    let (state, action) = state.step(BootstrapEvent::CommunitiesListed(Vec::new()));
    assert_eq!((state, action), (Bootstrap::Settling(targets()), None));
    let (state, _) = state.step(BootstrapEvent::Settled);
    let (state, action) = state.step(BootstrapEvent::HistoryFetched { messages: Some(0) });
    assert_eq!((state, action), (Bootstrap::Locating(targets()), None));
    assert!(!state.is_over());
}

#[test]
fn finished_bootstrap_stays_finished() {
    let mut platform = Platform::fresh();
    let (state, _) = platform.start();
    assert!(state.is_over());
    let (after, action) = state.step(BootstrapEvent::HistoryFetched { messages: Some(0) });
    assert_eq!((after, action), (Bootstrap::Ready(site()), None));
    let halted = Bootstrap::Halted(BootstrapError::RoleNotCreated);
    assert!(halted.is_over());
    let (after, action) = halted.step(BootstrapEvent::Settled);
    assert_eq!((after, action), (halted, None));
}

#[test]
fn bootstrap_errors_are_described() {
    assert_eq!(
        BootstrapError::CommunityNotFound.describe(),
        "There should be guild with a channel with the provided DISCORD_VERIFY_CHANNEL_ID"
    );
    assert_eq!(BootstrapError::RoleNotCreated.describe(), "Couldn't create a role");
    assert_eq!(
        BootstrapError::HistoryUnavailable.describe(),
        "Couldn't get messages of verify channel"
    );
    assert_eq!(BootstrapError::InstructionsNotSent.describe(), "Couldn't send embed");
    assert_eq!(
        BootstrapError::StatusChannelNotFound.describe(),
        "There should be channel with the provided DISCORD_STATUS_CHANNEL_ID"
    );
    assert_eq!(BootstrapError::CommandNotRegistered.describe(), "Couldn't create commands");
}
