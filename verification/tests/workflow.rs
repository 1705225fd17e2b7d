use mc_verification_bot::allowlist::{
    GrantFailure, GrantOutcome, Session, SessionAction, SessionEvent,
};
use mc_verification_bot::community::{Community, Role};
use mc_verification_bot::identity::{interpret, IdentityLookupResult, MojangResponse};
use mc_verification_bot::reply::Reply;
use mc_verification_bot::workflow::{
    Fault, Invocation, Member, OptionValue, Outcome, Workflow, WorkflowAction, WorkflowEvent,
};

const GUILD: u64 = 900;
const VERIFIED_ROLE: u64 = 77;
const USER: u64 = 4242;

/// What the game server's console does with a session.
#[derive(Clone, Copy, PartialEq)]
enum Console {
    Healthy,
    Offline,
    WrongPassword,
    Mute,
}

/// Everything outside the bot, with a count of every call into it.
struct World {
    verified_members: Vec<u64>,
    membership_readable: bool,
    membership_writable: bool,
    identity_answer: Option<MojangResponse>,
    console: Console,
    whitelist: Vec<String>,
    membership_reads: usize,
    identity_lookups: Vec<String>,
    console_sessions: usize,
    console_commands: Vec<String>,
    membership_writes: usize,
}

impl World {
    fn new(identity_answer: Option<MojangResponse>) -> World {
        World {
            verified_members: Vec::new(),
            membership_readable: true,
            membership_writable: true,
            identity_answer,
            console: Console::Healthy,
            whitelist: Vec::new(),
            membership_reads: 0,
            identity_lookups: Vec::new(),
            console_sessions: 0,
            console_commands: Vec::new(),
            membership_writes: 0,
        }
    }

    fn grant_access(&mut self, canonical_name: String) -> GrantOutcome {
        self.console_sessions += 1;
        let (mut session, mut action) = Session::open(canonical_name);
        loop {
            let event = match action {
                SessionAction::Connect { port } => {
                    assert_eq!(port, 25575);
                    if self.console == Console::Offline {
                        SessionEvent::ConnectFailed
                    } else {
                        SessionEvent::Connected
                    }
                }
                SessionAction::Authenticate => {
                    if self.console == Console::WrongPassword {
                        SessionEvent::AuthFailed
                    } else {
                        SessionEvent::Authenticated
                    }
                }
                SessionAction::RunCommand { command } => {
                    self.console_commands.push(command.clone());
                    if self.console == Console::Mute {
                        SessionEvent::CommandFailed
                    } else {
                        let name = command.strip_prefix("whitelist add ").unwrap();
                        self.whitelist.push(String::from(name));
                        SessionEvent::CommandAnswered
                    }
                }
                SessionAction::Close(outcome) => return outcome,
            };
            let (after, next) = session.step(event);
            session = after;
            action = next.expect("the session waits for this event");
        }
    }

    /// Serves one command from start to end.
    fn serve(&mut self, invocation: Invocation) -> (Outcome, Option<Reply>) {
        let (mut state, mut action) = Workflow::receive(invocation);
        loop {
            let event = match action {
                WorkflowAction::CheckMembership(member) => {
                    self.membership_reads += 1;
                    if self.membership_readable {
                        WorkflowEvent::MembershipChecked {
                            verified: self.verified_members.contains(&member.user_id),
                        }
                    } else {
                        WorkflowEvent::MembershipUnreadable
                    }
                }
                WorkflowAction::ResolveIdentity { username } => {
                    self.identity_lookups.push(username);
                    WorkflowEvent::IdentityResolved(interpret(self.identity_answer.clone()))
                }
                WorkflowAction::GrantAccess { canonical_name } => {
                    WorkflowEvent::AccessGranted(self.grant_access(canonical_name))
                }
                WorkflowAction::RecordMembership(member) => {
                    self.membership_writes += 1;
                    if self.membership_writable {
                        self.verified_members.push(member.user_id);
                    }
                    WorkflowEvent::MembershipRecorded { ok: self.membership_writable }
                }
                WorkflowAction::Reply(reply) => {
                    return (state.outcome().expect("a reply ends the verification"), Some(reply));
                }
                WorkflowAction::Abort(fault) => {
                    assert_eq!(state.outcome(), Some(Outcome::Aborted(fault)));
                    return (Outcome::Aborted(fault), None);
                }
            };
            let (after, next) = state.step(event);
            state = after;
            action = next.expect("the verification waits for this event");
        }
    }
}

fn community() -> Community {
    Community {
        id: GUILD,
        roles: vec![
            Role { id: 1, name: String::from("@everyone") },
            Role { id: VERIFIED_ROLE, name: String::from("Verified") },
        ],
        channel_ids: vec![10, 20],
    }
}

fn verify(username: &str) -> Invocation {
    Invocation {
        command_name: String::from("verify"),
        options: vec![OptionValue::Text(String::from(username))],
        user_id: USER,
        community: Some(community()),
    }
}

fn account(name: &str) -> Option<MojangResponse> {
    Some(MojangResponse::Success {
        id: String::from("853c80ef3c3749fdaa49938b674adae6"),
        name: String::from(name),
    })
}

fn no_account() -> Option<MojangResponse> {
    Some(MojangResponse::Failure {
        path: String::from("/users/profiles/minecraft/ghost"),
        error_message: String::from("Couldn't find any profile with name ghost"),
    })
}

fn private(content: &str) -> Option<Reply> {
    Some(Reply { content: String::from(content), ephemeral: true })
}

#[test]
fn found_account_is_granted_and_recorded() {
    let mut world = World::new(account("Alice"));
    let (outcome, reply) = world.serve(verify("alice"));
    assert_eq!(outcome, Outcome::Granted { membership_recorded: true });
    let reply = reply.unwrap();
    assert!(reply.content.contains("Alice"));
    assert_eq!(reply.content, "'Alice' was successfully added to the whitelist!");
    assert!(reply.ephemeral);
    assert!(world.verified_members.contains(&USER));
    assert_eq!(world.whitelist, vec![String::from("Alice")]);
    assert_eq!(world.console_commands, vec![String::from("whitelist add Alice")]);
    assert_eq!(world.identity_lookups, vec![String::from("alice")]);
    assert_eq!(world.membership_reads, 1);
    assert_eq!(world.membership_writes, 1);
}

#[test]
fn malformed_identity_answer_mutates_nothing() {
    let mut world = World::new(None);
    let (outcome, reply) = world.serve(verify("alice"));
    assert_eq!(outcome, Outcome::IdentityUnreachable);
    assert_eq!(reply, private("Couldn't fetch the profile from the Mojang API. Please try again."));
    assert!(world.verified_members.is_empty());
    assert!(world.whitelist.is_empty());
    assert_eq!(world.console_sessions, 0);
    assert_eq!(world.membership_writes, 0);
}

#[test]
fn offline_console_leaves_room_for_a_retry() {
    let mut world = World::new(account("Alice"));
    world.console = Console::Offline;
    let (outcome, reply) = world.serve(verify("alice"));
    assert_eq!(outcome, Outcome::GrantFailed(GrantFailure::ConnectFailure));
    assert_eq!(
        reply,
        private(
            "Could not connect to the minecraft server. Probably because it is offline right now. Try again later"
        )
    );
    assert!(world.verified_members.is_empty());
    assert!(world.whitelist.is_empty());
    assert_eq!(world.membership_writes, 0);

    world.console = Console::Healthy;
    let (outcome, reply) = world.serve(verify("alice"));
    assert_eq!(outcome, Outcome::Granted { membership_recorded: true });
    assert_eq!(reply, private("'Alice' was successfully added to the whitelist!"));
    assert_eq!(world.verified_members, vec![USER]);
    assert_eq!(world.whitelist, vec![String::from("Alice")]);
}

#[test]
fn verified_member_causes_no_remote_call() {
    let mut world = World::new(account("Alice"));
    world.verified_members.push(USER);
    let (outcome, reply) = world.serve(verify("alice"));
    assert_eq!(outcome, Outcome::AlreadyVerified);
    assert_eq!(
        reply,
        private(
            "You have already verified a username, please contact an admin if you have verified the wrong username or need to change it."
        )
    );
    assert_eq!(world.membership_reads, 1);
    assert_eq!(world.identity_lookups.len(), 0);
    assert_eq!(world.console_sessions, 0);
    assert_eq!(world.console_commands.len(), 0);
    assert_eq!(world.membership_writes, 0);
}

#[test]
fn second_verification_of_the_same_member_grants_nothing() {
    let mut world = World::new(account("Alice"));
    let (first, _) = world.serve(verify("alice"));
    let (second, _) = world.serve(verify("alice"));
    assert_eq!(first, Outcome::Granted { membership_recorded: true });
    assert_eq!(second, Outcome::AlreadyVerified);
    assert_eq!(world.console_sessions, 1);
    assert_eq!(world.console_commands, vec![String::from("whitelist add Alice")]);
    assert_eq!(world.identity_lookups.len(), 1);
    assert_eq!(world.membership_writes, 1);
}

#[test]
fn unknown_name_causes_no_mutation() {
    let mut world = World::new(no_account());
    let (outcome, reply) = world.serve(verify("ghost"));
    assert_eq!(outcome, Outcome::IdentityNotFound);
    assert_eq!(
        reply,
        private("There isn't a Mojang user with 'ghost' username. Please try again.")
    );
    assert_eq!(world.identity_lookups, vec![String::from("ghost")]);
    assert_eq!(world.console_sessions, 0);
    assert_eq!(world.membership_writes, 0);
    assert!(world.verified_members.is_empty());
    assert!(world.whitelist.is_empty());
}

#[test]
fn grant_uses_the_canonical_name_not_the_claimed_one() {
    let mut world = World::new(account("Dinnerbone"));
    let (_, reply) = world.serve(verify("dINNERBONE"));
    assert_eq!(world.identity_lookups, vec![String::from("dINNERBONE")]);
    assert_eq!(world.console_commands, vec![String::from("whitelist add Dinnerbone")]);
    assert_eq!(reply, private("'Dinnerbone' was successfully added to the whitelist!"));
}

#[test]
fn rejected_password_leaves_the_member_unverified() {
    let mut world = World::new(account("Alice"));
    world.console = Console::WrongPassword;
    let (outcome, reply) = world.serve(verify("alice"));
    assert_eq!(outcome, Outcome::GrantFailed(GrantFailure::AuthFailure));
    assert_eq!(
        reply,
        private(
            "Could not connect to the minecraft server. Probably because it is offline right now. Try again later"
        )
    );
    assert_eq!(world.console_commands.len(), 0);
    assert_eq!(world.membership_writes, 0);
    assert!(world.verified_members.is_empty());
}

#[test]
fn unanswered_command_leaves_the_member_unverified() {
    let mut world = World::new(account("Alice"));
    world.console = Console::Mute;
    let (outcome, reply) = world.serve(verify("alice"));
    assert_eq!(outcome, Outcome::GrantFailed(GrantFailure::CommandFailure));
    assert_eq!(
        reply,
        private(
            "Something went wrong... The server is probably offline right now. Try again when the server is online"
        )
    );
    assert_eq!(world.console_commands, vec![String::from("whitelist add Alice")]);
    assert_eq!(world.membership_writes, 0);
    assert!(world.verified_members.is_empty());
}

#[test]
fn failed_membership_write_still_reports_the_grant() {
    let mut world = World::new(account("Alice"));
    world.membership_writable = false;
    let (outcome, reply) = world.serve(verify("alice"));
    assert_eq!(outcome, Outcome::Granted { membership_recorded: false });
    assert_eq!(reply, private("'Alice' was successfully added to the whitelist!"));
    assert_eq!(world.whitelist, vec![String::from("Alice")]);
    assert_eq!(world.membership_writes, 1);
    assert!(world.verified_members.is_empty());
}

#[test]
fn other_command_is_not_a_command() {
    let mut world = World::new(account("Alice"));
    let mut invocation = verify("alice");
    invocation.command_name = String::from("ping");
    let (outcome, reply) = world.serve(invocation);
    assert_eq!(outcome, Outcome::NotACommand);
    assert_eq!(reply, private("Not a command"));
    assert_eq!(world.membership_reads, 0);
}

#[test]
fn other_command_is_refused_before_its_options_are_looked_at() {
    let mut world = World::new(account("Alice"));
    let invocation = Invocation {
        command_name: String::from("Verify"),
        options: Vec::new(),
        user_id: USER,
        community: None,
    };
    let (outcome, reply) = world.serve(invocation);
    assert_eq!(outcome, Outcome::NotACommand);
    assert_eq!(reply, private("Not a command"));
}

#[test]
fn command_outside_a_community_is_turned_down() {
    let mut world = World::new(account("Alice"));
    let mut invocation = verify("alice");
    invocation.community = None;
    let (outcome, reply) = world.serve(invocation);
    assert_eq!(outcome, Outcome::OutsideCommunity);
    assert_eq!(reply, private("Commands only work in a specific server"));
    assert_eq!(world.membership_reads, 0);
    assert_eq!(world.identity_lookups.len(), 0);
}

#[test]
fn command_without_option_is_aborted() {
    let mut world = World::new(account("Alice"));
    let mut invocation = verify("alice");
    invocation.options.clear();
    assert_eq!(world.serve(invocation), (Outcome::Aborted(Fault::MissingOption), None));
}

#[test]
fn command_with_wrong_option_kind_is_aborted() {
    let mut world = World::new(account("Alice"));
    let mut invocation = verify("alice");
    invocation.options = vec![OptionValue::Other, OptionValue::Text(String::from("alice"))];
    assert_eq!(world.serve(invocation), (Outcome::Aborted(Fault::OptionNotText), None));
}

#[test]
fn command_with_empty_name_is_aborted() {
    let mut world = World::new(account("Alice"));
    assert_eq!(world.serve(verify("")), (Outcome::Aborted(Fault::EmptyUsername), None));
    assert_eq!(world.identity_lookups.len(), 0);
}

#[test]
fn malformed_command_is_aborted_even_outside_a_community() {
    let mut world = World::new(account("Alice"));
    let mut invocation = verify("alice");
    invocation.options.clear();
    invocation.community = None;
    assert_eq!(world.serve(invocation), (Outcome::Aborted(Fault::MissingOption), None));
}

#[test]
fn community_without_the_role_aborts() {
    let mut world = World::new(account("Alice"));
    let mut invocation = verify("alice");
    invocation.community = Some(Community {
        id: GUILD,
        roles: vec![Role { id: 1, name: String::from("verified") }],
        channel_ids: Vec::new(),
    });
    assert_eq!(world.serve(invocation), (Outcome::Aborted(Fault::VerifiedRoleMissing), None));
    assert_eq!(world.membership_reads, 0);
}

#[test]
fn unreadable_membership_aborts() {
    let mut world = World::new(account("Alice"));
    world.membership_readable = false;
    assert_eq!(world.serve(verify("alice")), (Outcome::Aborted(Fault::MembershipUnreadable), None));
    assert_eq!(world.identity_lookups.len(), 0);
    assert_eq!(world.console_sessions, 0);
}

#[test]
fn first_action_asks_about_the_member_and_the_role() {
    let (state, action) = Workflow::receive(verify("alice"));
    let member = Member { user_id: USER, community_id: GUILD, role_id: VERIFIED_ROLE };
    assert_eq!(action, WorkflowAction::CheckMembership(member));
    assert_eq!(
        state,
        Workflow::CheckingMembership { member, claimed_username: String::from("alice") }
    );
    assert_eq!(state.outcome(), None);
}

#[test]
fn only_the_first_option_is_the_claimed_name() {
    let mut invocation = verify("alice");
    invocation.options.push(OptionValue::Text(String::from("bob")));
    invocation.options.push(OptionValue::Other);
    let (state, _) = Workflow::receive(invocation);
    let (_, action) = state.step(WorkflowEvent::MembershipChecked { verified: false });
    assert_eq!(action, Some(WorkflowAction::ResolveIdentity { username: String::from("alice") }));
}

#[test]
fn events_out_of_turn_change_nothing() {
    let (state, _) = Workflow::receive(verify("alice"));
    let before = state.clone();
    let (state, action) = state.step(WorkflowEvent::AccessGranted(GrantOutcome::Granted));
    assert_eq!(action, None);
    assert_eq!(state, before);
    let (state, action) = state.step(WorkflowEvent::MembershipRecorded { ok: true });
    assert_eq!(action, None);
    let (state, action) = state.step(WorkflowEvent::IdentityResolved(IdentityLookupResult::Found {
        account_id: String::from("1"),
        canonical_name: String::from("Mallory"),
    }));
    assert_eq!(action, None);
    assert_eq!(state, before);
}

#[test]
fn finished_verification_stays_finished() {
    let (state, _) = Workflow::receive(verify("alice"));
    let (state, _) = state.step(WorkflowEvent::MembershipChecked { verified: true });
    assert_eq!(state.outcome(), Some(Outcome::AlreadyVerified));
    for event in [
        WorkflowEvent::MembershipChecked { verified: false },
        WorkflowEvent::MembershipUnreadable,
        WorkflowEvent::IdentityResolved(IdentityLookupResult::NotFound),
        WorkflowEvent::AccessGranted(GrantOutcome::Granted),
        WorkflowEvent::MembershipRecorded { ok: true },
    ] {
        let (after, action) = state.clone().step(event);
        assert_eq!(action, None);
        assert_eq!(after, Workflow::Finished(Outcome::AlreadyVerified));
    }
}

#[test]
fn repeated_answers_grant_once() {
    let found = || {
        WorkflowEvent::IdentityResolved(IdentityLookupResult::Found {
            account_id: String::from("1"),
            canonical_name: String::from("Alice"),
        })
    };
    let events = vec![
        WorkflowEvent::MembershipChecked { verified: false },
        WorkflowEvent::MembershipChecked { verified: false },
        found(),
        found(),
        WorkflowEvent::AccessGranted(GrantOutcome::Granted),
        WorkflowEvent::AccessGranted(GrantOutcome::Granted),
        WorkflowEvent::MembershipRecorded { ok: true },
        found(),
        WorkflowEvent::MembershipRecorded { ok: true },
    ];
    let (mut state, first) = Workflow::receive(verify("alice"));
    let mut actions = vec![first];
    for event in events {
        let (after, action) = state.step(event);
        state = after;
        actions.extend(action);
    }
    let member = Member { user_id: USER, community_id: GUILD, role_id: VERIFIED_ROLE };
    assert_eq!(
        actions,
        vec![
            WorkflowAction::CheckMembership(member),
            WorkflowAction::ResolveIdentity { username: String::from("alice") },
            WorkflowAction::GrantAccess { canonical_name: String::from("Alice") },
            WorkflowAction::RecordMembership(member),
            WorkflowAction::Reply(Reply {
                content: String::from("'Alice' was successfully added to the whitelist!"),
                ephemeral: true,
            }),
        ]
    );
}

#[test]
fn faults_are_described() {
    assert_eq!(Fault::MissingOption.describe(), "There wasn't an option");
    assert_eq!(Fault::OptionNotText.describe(), "It should be a String");
    assert_eq!(Fault::EmptyUsername.describe(), "The username should not be empty");
    assert_eq!(Fault::VerifiedRoleMissing.describe(), "There should a Verified role");
    assert_eq!(Fault::MembershipUnreadable.describe(), "Couldn't check if user has role");
}
