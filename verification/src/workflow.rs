//! The verification of one member: from the `verify` command to the reply,
//! with at most one change to the allow-list on the way.

use crate::allowlist::{GrantFailure, GrantOutcome};
use crate::community::{role_named, Community, CommunityView};
use crate::identity::{IdentityLookupResult, IdentityLookupResultView};
use crate::presence::{verified_role_name, verify_command_name};
use crate::reply::{
    already_verified_text, cannot_connect_text, command_failed_text, granted_text,
    not_a_command_text, not_found_text, outside_community_text, private_reply, unreachable_text,
    Reply, ReplyView,
};
use vstd::prelude::*;

verus! {

/// An argument of a command, as the platform hands it over.
#[derive(Clone, PartialEq, Eq, Debug)]
pub enum OptionValue {
    Text(String),
    Other,
}

/// [`OptionValue`] as contracts see it.
pub enum OptionValueView {
    Text(Seq<char>),
    Other,
}

impl View for OptionValue {
    type V = OptionValueView;

    open spec fn view(&self) -> OptionValueView {
        match *self {
            OptionValue::Text(text) => OptionValueView::Text(text@),
            OptionValue::Other => OptionValueView::Other,
        }
    }
}

/// A command as it arrives: what it is called, its arguments, who sent it,
/// and the community it was sent in, where the bot knows that community.
#[derive(Clone, PartialEq, Eq, Debug)]
pub struct Invocation {
    pub command_name: String,
    pub options: Vec<OptionValue>,
    pub user_id: u64,
    pub community: Option<Community>,
}

/// [`Invocation`] as contracts see it.
pub struct InvocationView {
    pub command_name: Seq<char>,
    pub options: Seq<OptionValueView>,
    pub user_id: u64,
    pub community: Option<CommunityView>,
}

impl View for Invocation {
    type V = InvocationView;

    open spec fn view(&self) -> InvocationView {
        InvocationView {
            command_name: self.command_name@,
            options: self.options@.map_values(|o: OptionValue| o@),
            user_id: self.user_id,
            community: match self.community {
                Some(c) => Some(c@),
                None => None,
            },
        }
    }
}

/// The member a verification is about, and the role that marks them as
/// verified.
#[derive(Clone, Copy, PartialEq, Eq, Debug, Structural)]
pub struct Member {
    pub user_id: u64,
    pub community_id: u64,
    pub role_id: u64,
}

/// A command that cannot be served and gets no reply.
#[derive(Clone, Copy, PartialEq, Eq, Debug, Structural)]
pub enum Fault {
    MissingOption,
    OptionNotText,
    EmptyUsername,
    /// The community has no role that marks verified members.
    VerifiedRoleMissing,
    MembershipUnreadable,
}

/// What a fault says to the operator.
pub open spec fn fault_text(fault: Fault) -> Seq<char> {
    match fault {
        Fault::MissingOption => "There wasn't an option"@,
        Fault::OptionNotText => "It should be a String"@,
        Fault::EmptyUsername => "The username should not be empty"@,
        Fault::VerifiedRoleMissing => "There should a Verified role"@,
        Fault::MembershipUnreadable => "Couldn't check if user has role"@,
    }
}

impl Fault {
    /// What the fault says to the operator.
    pub fn describe(&self) -> (text: &'static str)
        ensures
            text@ == fault_text(*self),
    {
        match self {
            Fault::MissingOption => "There wasn't an option",
            Fault::OptionNotText => "It should be a String",
            Fault::EmptyUsername => "The username should not be empty",
            Fault::VerifiedRoleMissing => "There should a Verified role",
            Fault::MembershipUnreadable => "Couldn't check if user has role",
        }
    }
}

/// How a verification ended.
#[derive(Clone, Copy, PartialEq, Eq, Debug, Structural)]
pub enum Outcome {
    NotACommand,
    OutsideCommunity,
    AlreadyVerified,
    IdentityNotFound,
    IdentityUnreachable,
    GrantFailed(GrantFailure),
    /// The account is on the allow-list. `membership_recorded` tells whether
    /// the member also got the role; where not, the two records disagree and
    /// an operator has to look.
    Granted { membership_recorded: bool },
    Aborted(Fault),
}

/// Where a verification stands. Up to the answer of the identity service
/// the state holds the request, who asks and which name they claim; from then
/// on the name of the account as the service spells it. Once the verification
/// has finished, nothing of the request is left.
#[derive(Clone, PartialEq, Eq, Debug)]
pub enum Workflow {
    CheckingMembership { member: Member, claimed_username: String },
    ResolvingIdentity { member: Member, claimed_username: String },
    GrantingAccess { member: Member, canonical_name: String },
    RecordingMembership { member: Member, canonical_name: String },
    Finished(Outcome),
}

/// [`Workflow`] as contracts see it.
pub enum WorkflowView {
    CheckingMembership { member: Member, claimed_username: Seq<char> },
    ResolvingIdentity { member: Member, claimed_username: Seq<char> },
    GrantingAccess { member: Member, canonical_name: Seq<char> },
    RecordingMembership { member: Member, canonical_name: Seq<char> },
    Finished(Outcome),
}

impl View for Workflow {
    type V = WorkflowView;

    open spec fn view(&self) -> WorkflowView {
        match *self {
            Workflow::CheckingMembership { member, claimed_username } => {
                WorkflowView::CheckingMembership { member, claimed_username: claimed_username@ }
            },
            Workflow::ResolvingIdentity { member, claimed_username } => {
                WorkflowView::ResolvingIdentity { member, claimed_username: claimed_username@ }
            },
            Workflow::GrantingAccess { member, canonical_name } => WorkflowView::GrantingAccess {
                member,
                canonical_name: canonical_name@,
            },
            Workflow::RecordingMembership { member, canonical_name } => {
                WorkflowView::RecordingMembership { member, canonical_name: canonical_name@ }
            },
            Workflow::Finished(outcome) => WorkflowView::Finished(outcome),
        }
    }
}

/// What the caller reports back.
#[derive(Clone, PartialEq, Eq, Debug)]
pub enum WorkflowEvent {
    MembershipChecked { verified: bool },
    MembershipUnreadable,
    IdentityResolved(IdentityLookupResult),
    AccessGranted(GrantOutcome),
    MembershipRecorded { ok: bool },
}

/// [`WorkflowEvent`] as contracts see it.
pub enum WorkflowEventView {
    MembershipChecked { verified: bool },
    MembershipUnreadable,
    IdentityResolved(IdentityLookupResultView),
    AccessGranted(GrantOutcome),
    MembershipRecorded { ok: bool },
}

impl View for WorkflowEvent {
    type V = WorkflowEventView;

    open spec fn view(&self) -> WorkflowEventView {
        match *self {
            WorkflowEvent::MembershipChecked { verified } => WorkflowEventView::MembershipChecked {
                verified,
            },
            WorkflowEvent::MembershipUnreadable => WorkflowEventView::MembershipUnreadable,
            WorkflowEvent::IdentityResolved(result) => WorkflowEventView::IdentityResolved(
                result@,
            ),
            WorkflowEvent::AccessGranted(outcome) => WorkflowEventView::AccessGranted(outcome),
            WorkflowEvent::MembershipRecorded { ok } => WorkflowEventView::MembershipRecorded {
                ok,
            },
        }
    }
}

/// What the caller is asked to do next.
#[derive(Clone, PartialEq, Eq, Debug)]
pub enum WorkflowAction {
    /// Ask the platform whether the member has the role.
    CheckMembership(Member),
    /// Ask the identity service about the name.
    ResolveIdentity { username: String },
    /// Put the account on the allow-list of the game server.
    GrantAccess { canonical_name: String },
    /// Give the member the role.
    RecordMembership(Member),
    Reply(Reply),
    Abort(Fault),
}

/// [`WorkflowAction`] as contracts see it.
pub enum WorkflowActionView {
    CheckMembership(Member),
    ResolveIdentity { username: Seq<char> },
    GrantAccess { canonical_name: Seq<char> },
    RecordMembership(Member),
    Reply(ReplyView),
    Abort(Fault),
}

impl View for WorkflowAction {
    type V = WorkflowActionView;

    open spec fn view(&self) -> WorkflowActionView {
        match *self {
            WorkflowAction::CheckMembership(member) => WorkflowActionView::CheckMembership(member),
            WorkflowAction::ResolveIdentity { username } => WorkflowActionView::ResolveIdentity {
                username: username@,
            },
            WorkflowAction::GrantAccess { canonical_name } => WorkflowActionView::GrantAccess {
                canonical_name: canonical_name@,
            },
            WorkflowAction::RecordMembership(member) => WorkflowActionView::RecordMembership(
                member,
            ),
            WorkflowAction::Reply(reply) => WorkflowActionView::Reply(reply@),
            WorkflowAction::Abort(fault) => WorkflowActionView::Abort(fault),
        }
    }
}

/// The view of an action that may be missing.
pub open spec fn action_view(action: Option<WorkflowAction>) -> Option<WorkflowActionView> {
    match action {
        Some(a) => Some(a@),
        None => None,
    }
}

/// Ending with `outcome` and the reply `content`.
pub open spec fn finished(outcome: Outcome, content: Seq<char>) -> (
    WorkflowView,
    WorkflowActionView,
) {
    (WorkflowView::Finished(outcome), WorkflowActionView::Reply(private_reply(content)))
}

/// Ending without a reply.
pub open spec fn aborted(fault: Fault) -> (WorkflowView, WorkflowActionView) {
    (WorkflowView::Finished(Outcome::Aborted(fault)), WorkflowActionView::Abort(fault))
}

/// What a command leads to when it arrives. Only `verify` is served; its
/// first argument is the claimed name and must be a text that is not empty;
/// it must come from a community the bot knows, and that community must have
/// the role. Then the first thing to find out is whether the member is
/// verified already.
pub open spec fn received(invocation: InvocationView) -> (WorkflowView, WorkflowActionView) {
    if invocation.command_name != verify_command_name() {
        finished(Outcome::NotACommand, not_a_command_text())
    } else if invocation.options.len() == 0 {
        aborted(Fault::MissingOption)
    } else {
        match invocation.options[0] {
            OptionValueView::Other => aborted(Fault::OptionNotText),
            OptionValueView::Text(claimed_username) => if claimed_username.len() == 0 {
                aborted(Fault::EmptyUsername)
            } else {
                match invocation.community {
                    None => finished(Outcome::OutsideCommunity, outside_community_text()),
                    Some(community) => match role_named(community.roles, verified_role_name()) {
                        None => aborted(Fault::VerifiedRoleMissing),
                        Some(role_id) => {
                            let member = Member {
                                user_id: invocation.user_id,
                                community_id: community.id,
                                role_id,
                            };
                            (
                                WorkflowView::CheckingMembership { member, claimed_username },
                                WorkflowActionView::CheckMembership(member),
                            )
                        },
                    },
                }
            },
        }
    }
}

/// What the end of an allow-list session leads to.
pub open spec fn granted(member: Member, canonical_name: Seq<char>, outcome: GrantOutcome) -> (
    WorkflowView,
    WorkflowActionView,
) {
    match outcome {
        GrantOutcome::Granted => (
            WorkflowView::RecordingMembership { member, canonical_name },
            WorkflowActionView::RecordMembership(member),
        ),
        GrantOutcome::Failed(failure) => finished(
            Outcome::GrantFailed(failure),
            match failure {
                GrantFailure::CommandFailure => command_failed_text(),
                _ => cannot_connect_text(),
            },
        ),
    }
}

/// What the state does with an event it waits for; `None` for any other
/// event.
pub open spec fn transition(state: WorkflowView, event: WorkflowEventView) -> Option<
    (WorkflowView, WorkflowActionView),
> {
    match (state, event) {
        (
            WorkflowView::CheckingMembership { member, claimed_username },
            WorkflowEventView::MembershipChecked { verified },
        ) => Some(
            if verified {
                finished(Outcome::AlreadyVerified, already_verified_text())
            } else {
                (
                    WorkflowView::ResolvingIdentity { member, claimed_username },
                    WorkflowActionView::ResolveIdentity { username: claimed_username },
                )
            },
        ),
        (WorkflowView::CheckingMembership { .. }, WorkflowEventView::MembershipUnreadable) => Some(
            aborted(Fault::MembershipUnreadable),
        ),
        (
            WorkflowView::ResolvingIdentity { member, claimed_username },
            WorkflowEventView::IdentityResolved(result),
        ) => Some(
            match result {
                IdentityLookupResultView::Found { canonical_name, .. } => (
                    WorkflowView::GrantingAccess { member, canonical_name },
                    WorkflowActionView::GrantAccess { canonical_name },
                ),
                IdentityLookupResultView::NotFound => finished(
                    Outcome::IdentityNotFound,
                    not_found_text(claimed_username),
                ),
                IdentityLookupResultView::TransportError => finished(
                    Outcome::IdentityUnreachable,
                    unreachable_text(),
                ),
            },
        ),
        (
            WorkflowView::GrantingAccess { member, canonical_name },
            WorkflowEventView::AccessGranted(outcome),
        ) => Some(granted(member, canonical_name, outcome)),
        (
            WorkflowView::RecordingMembership { canonical_name, .. },
            WorkflowEventView::MembershipRecorded { ok },
        ) => Some(
            finished(Outcome::Granted { membership_recorded: ok }, granted_text(canonical_name)),
        ),
        _ => None,
    }
}

/// The whole transition relation: the state after `event` and what to do
/// next. An event that the state does not wait for changes nothing and asks
/// for nothing.
pub open spec fn next(state: WorkflowView, event: WorkflowEventView) -> (
    WorkflowView,
    Option<WorkflowActionView>,
) {
    match transition(state, event) {
        Some((after, action)) => (after, Some(action)),
        None => (state, None),
    }
}

fn finish(outcome: Outcome, content: &str) -> (r: (Workflow, WorkflowAction))
    ensures
        (r.0@, r.1@) == finished(outcome, content@),
{
    (Workflow::Finished(outcome), WorkflowAction::Reply(Reply::fixed(content)))
}

fn abort(fault: Fault) -> (r: (Workflow, WorkflowAction))
    ensures
        (r.0@, r.1@) == aborted(fault),
{
    (Workflow::Finished(Outcome::Aborted(fault)), WorkflowAction::Abort(fault))
}

impl Workflow {
    /// Takes a command in and says what to do first.
    pub fn receive(invocation: Invocation) -> (r: (Workflow, WorkflowAction))
        ensures
            (r.0@, r.1@) == received(invocation@),
    {
        let verify = String::from_str("verify");
        if !(invocation.command_name == verify) {
            return finish(Outcome::NotACommand, "Not a command");
        }
        if invocation.options.len() == 0 {
            return abort(Fault::MissingOption);
        }
        assert(invocation@.options[0] == invocation.options[0]@);
        let claimed_username = match &invocation.options[0] {
            OptionValue::Other => {
                return abort(Fault::OptionNotText);
            },
            OptionValue::Text(text) => text.clone(),
        };
        if claimed_username.as_str().is_empty() {
            return abort(Fault::EmptyUsername);
        }
        match &invocation.community {
            None => finish(Outcome::OutsideCommunity, "Commands only work in a specific server"),
            Some(community) => {
                let role_name = String::from_str("Verified");
                match community.role_named(&role_name) {
                    None => abort(Fault::VerifiedRoleMissing),
                    Some(role_id) => {
                        let member = Member {
                            user_id: invocation.user_id,
                            community_id: community.id,
                            role_id,
                        };
                        (
                            Workflow::CheckingMembership { member, claimed_username },
                            WorkflowAction::CheckMembership(member),
                        )
                    },
                }
            },
        }
    }

    /// How the verification ended, once it has.
    pub fn outcome(&self) -> (outcome: Option<Outcome>)
        ensures
            outcome == match self@ {
                WorkflowView::Finished(o) => Some(o),
                _ => None,
            },
    {
        match self {
            Workflow::Finished(o) => Some(*o),
            _ => None,
        }
    }

    /// Takes one step: `event` is what came of the action that the step
    /// before asked for.
    pub fn step(self, event: WorkflowEvent) -> (r: (Workflow, Option<WorkflowAction>))
        ensures
            (r.0@, action_view(r.1)) == next(self@, event@),
    {
        match (self, event) {
            (
                Workflow::CheckingMembership { member, claimed_username },
                WorkflowEvent::MembershipChecked { verified },
            ) => {
                if verified {
                    let (after, action) = finish(
                        Outcome::AlreadyVerified,
                        "You have already verified a username, please contact an admin if you have verified the wrong username or need to change it.",
                    );
                    (after, Some(action))
                } else {
                    let username = claimed_username.clone();
                    (
                        Workflow::ResolvingIdentity { member, claimed_username },
                        Some(WorkflowAction::ResolveIdentity { username }),
                    )
                }
            },
            (Workflow::CheckingMembership { .. }, WorkflowEvent::MembershipUnreadable) => {
                let (after, action) = abort(Fault::MembershipUnreadable);
                (after, Some(action))
            },
            (
                Workflow::ResolvingIdentity { member, claimed_username },
                WorkflowEvent::IdentityResolved(result),
            ) => {
                match result {
                    IdentityLookupResult::Found { canonical_name, .. } => {
                        let name = canonical_name.clone();
                        (
                            Workflow::GrantingAccess { member, canonical_name },
                            Some(WorkflowAction::GrantAccess { canonical_name: name }),
                        )
                    },
                    IdentityLookupResult::NotFound => (
                        Workflow::Finished(Outcome::IdentityNotFound),
                        Some(WorkflowAction::Reply(Reply::not_found(claimed_username.as_str()))),
                    ),
                    IdentityLookupResult::TransportError => {
                        let (after, action) = finish(
                            Outcome::IdentityUnreachable,
                            "Couldn't fetch the profile from the Mojang API. Please try again.",
                        );
                        (after, Some(action))
                    },
                }
            },
            (
                Workflow::GrantingAccess { member, canonical_name },
                WorkflowEvent::AccessGranted(outcome),
            ) => {
                let (after, action) = match outcome {
                    GrantOutcome::Granted => (
                        Workflow::RecordingMembership { member, canonical_name },
                        WorkflowAction::RecordMembership(member),
                    ),
                    GrantOutcome::Failed(GrantFailure::CommandFailure) => finish(
                        Outcome::GrantFailed(GrantFailure::CommandFailure),
                        "Something went wrong... The server is probably offline right now. Try again when the server is online",
                    ),
                    GrantOutcome::Failed(failure) => finish(
                        Outcome::GrantFailed(failure),
                        "Could not connect to the minecraft server. Probably because it is offline right now. Try again later",
                    ),
                };
                (after, Some(action))
            },
            (
                Workflow::RecordingMembership { canonical_name, .. },
                WorkflowEvent::MembershipRecorded { ok },
            ) => (
                Workflow::Finished(Outcome::Granted { membership_recorded: ok }),
                Some(WorkflowAction::Reply(Reply::granted(canonical_name.as_str()))),
            ),
            (state, _) => (state, None),
        }
    }
}

/// What a verification asks for, in order, while `events` come in one by
/// one.
pub open spec fn actions(state: WorkflowView, events: Seq<WorkflowEventView>) -> Seq<
    WorkflowActionView,
>
    decreases events.len(),
{
    if events.len() == 0 {
        seq![]
    } else {
        let (after, action) = next(state, events[0]);
        let rest = actions(after, events.drop_first());
        match action {
            Some(a) => seq![a] + rest,
            None => rest,
        }
    }
}

/// Everything the verification that `invocation` starts asks for, the first
/// action included.
pub open spec fn transcript(invocation: InvocationView, events: Seq<WorkflowEventView>) -> Seq<
    WorkflowActionView,
> {
    seq![received(invocation).1] + actions(received(invocation).0, events)
}

/// The action reaches out to the identity service or to the game server.
pub open spec fn is_remote_call(action: WorkflowActionView) -> bool {
    action is ResolveIdentity || action is GrantAccess
}

/// The action changes the allow-list or gives out the role.
pub open spec fn is_mutation(action: WorkflowActionView) -> bool {
    action is GrantAccess || action is RecordMembership
}

/// The action ends the verification.
pub open spec fn is_final(action: WorkflowActionView) -> bool {
    action is Reply || action is Abort
}

/// How many times a run of actions asks for a change to the allow-list.
pub open spec fn grants(actions: Seq<WorkflowActionView>) -> nat
    decreases actions.len(),
{
    if actions.len() == 0 {
        0
    } else if actions[0] is GrantAccess {
        grants(actions.drop_first()) + 1
    } else {
        grants(actions.drop_first())
    }
}

/// Unless the event says that the member lacks the role.
pub open spec fn keeps_verified(event: WorkflowEventView) -> bool {
    event matches WorkflowEventView::MembershipChecked { verified } ==> verified
}

/// Unless the event is an answer of the identity service that names an
/// account.
pub open spec fn keeps_unresolved(event: WorkflowEventView) -> bool {
    event matches WorkflowEventView::IdentityResolved(result) ==> !(result is Found)
}

/// Unless the event is the end of an allow-list session that granted
/// access.
pub open spec fn keeps_ungranted(event: WorkflowEventView) -> bool {
    event matches WorkflowEventView::AccessGranted(outcome) ==> outcome is Failed
}

proof fn lemma_verified_from(state: WorkflowView, events: Seq<WorkflowEventView>)
    requires
        state is CheckingMembership || state is Finished,
        forall|i: int| 0 <= i < events.len() ==> keeps_verified(events[i]),
    ensures
        forall|j: int|
            0 <= j < actions(state, events).len() ==> {
                let a = #[trigger] actions(state, events)[j];
                !is_remote_call(a) && !is_mutation(a)
            },
    decreases events.len(),
{
    if events.len() > 0 {
        let rest = events.drop_first();
        assert(keeps_verified(events[0]));
        assert forall|i: int| 0 <= i < rest.len() implies keeps_verified(rest[i]) by {
            assert(rest[i] == events[i + 1]);
        }
        let (after, action) = next(state, events[0]);
        lemma_verified_from(after, rest);
        assert forall|j: int| 0 <= j < actions(state, events).len() implies {
            let a = #[trigger] actions(state, events)[j];
            !is_remote_call(a) && !is_mutation(a)
        } by {
            if action is Some && j > 0 {
                assert(actions(state, events)[j] == actions(after, rest)[j - 1]);
            }
        }
    }
}

/// A member who is verified already is left alone: where every answer of the
/// platform says that the member has the role, the verification never asks
/// the identity service, never asks for a change to the allow-list and never
/// gives out the role, whatever else happens and in whatever order the
/// events arrive.
pub proof fn verified_member_is_left_alone(
    invocation: InvocationView,
    events: Seq<WorkflowEventView>,
)
    requires
        forall|i: int| 0 <= i < events.len() ==> keeps_verified(events[i]),
    ensures
        forall|j: int|
            0 <= j < transcript(invocation, events).len() ==> {
                let a = #[trigger] transcript(invocation, events)[j];
                !is_remote_call(a) && !is_mutation(a)
            },
{
    lemma_verified_from(received(invocation).0, events);
}

proof fn lemma_unresolved_from(state: WorkflowView, events: Seq<WorkflowEventView>)
    requires
        state is CheckingMembership || state is ResolvingIdentity || state is Finished,
        forall|i: int| 0 <= i < events.len() ==> keeps_unresolved(events[i]),
    ensures
        forall|j: int|
            0 <= j < actions(state, events).len() ==> !is_mutation(
                #[trigger] actions(state, events)[j],
            ),
    decreases events.len(),
{
    if events.len() > 0 {
        let rest = events.drop_first();
        assert(keeps_unresolved(events[0]));
        assert forall|i: int| 0 <= i < rest.len() implies keeps_unresolved(rest[i]) by {
            assert(rest[i] == events[i + 1]);
        }
        let (after, action) = next(state, events[0]);
        lemma_unresolved_from(after, rest);
        assert forall|j: int| 0 <= j < actions(state, events).len() implies !is_mutation(
            #[trigger] actions(state, events)[j],
        ) by {
            if action is Some && j > 0 {
                assert(actions(state, events)[j] == actions(after, rest)[j - 1]);
            }
        }
    }
}

/// A name that resolves to no account changes nothing: where no answer of
/// the identity service names an account, be it that there is none or that
/// the service could not be reached, the verification never asks for a change
/// to the allow-list and never gives out the role.
pub proof fn unresolved_name_changes_nothing(
    invocation: InvocationView,
    events: Seq<WorkflowEventView>,
)
    requires
        forall|i: int| 0 <= i < events.len() ==> keeps_unresolved(events[i]),
    ensures
        forall|j: int|
            0 <= j < transcript(invocation, events).len() ==> !is_mutation(
                #[trigger] transcript(invocation, events)[j],
            ),
{
    lemma_unresolved_from(received(invocation).0, events);
}

proof fn lemma_ungranted_from(state: WorkflowView, events: Seq<WorkflowEventView>)
    requires
        !(state is RecordingMembership),
        forall|i: int| 0 <= i < events.len() ==> keeps_ungranted(events[i]),
    ensures
        forall|j: int|
            0 <= j < actions(state, events).len() ==> !(#[trigger] actions(state, events)[j]
                is RecordMembership),
    decreases events.len(),
{
    if events.len() > 0 {
        let rest = events.drop_first();
        assert(keeps_ungranted(events[0]));
        assert forall|i: int| 0 <= i < rest.len() implies keeps_ungranted(rest[i]) by {
            assert(rest[i] == events[i + 1]);
        }
        let (after, action) = next(state, events[0]);
        lemma_ungranted_from(after, rest);
        assert forall|j: int| 0 <= j < actions(state, events).len() implies !(
        #[trigger] actions(state, events)[j] is RecordMembership) by {
            if action is Some && j > 0 {
                assert(actions(state, events)[j] == actions(after, rest)[j - 1]);
            }
        }
    }
}

/// A grant that failed leaves the member unverified: where every allow-list
/// session ends in a failure, the role is never given out, so the member may
/// try again.
pub proof fn failed_grant_records_nothing(
    invocation: InvocationView,
    events: Seq<WorkflowEventView>,
)
    requires
        forall|i: int| 0 <= i < events.len() ==> keeps_ungranted(events[i]),
    ensures
        forall|j: int|
            0 <= j < transcript(invocation, events).len() ==> !(#[trigger] transcript(
                invocation,
                events,
            )[j] is RecordMembership),
{
    lemma_ungranted_from(received(invocation).0, events);
}

/// The number of changes to the allow-list a state may still ask for.
spec fn grants_left(state: WorkflowView) -> nat {
    match state {
        WorkflowView::CheckingMembership { .. } => 1,
        WorkflowView::ResolvingIdentity { .. } => 1,
        _ => 0,
    }
}

/// Some answer of the identity service among `events` names the account
/// `canonical_name`.
pub open spec fn names_account(events: Seq<WorkflowEventView>, canonical_name: Seq<char>) -> bool {
    exists|i: int| 0 <= i < events.len() && resolves_to(#[trigger] events[i], canonical_name)
}

/// The event is an answer of the identity service that names the account
/// `canonical_name`.
pub open spec fn resolves_to(event: WorkflowEventView, canonical_name: Seq<char>) -> bool {
    event matches WorkflowEventView::IdentityResolved(
        IdentityLookupResultView::Found { canonical_name: name, .. },
    ) && name == canonical_name
}

proof fn lemma_single_grant_from(state: WorkflowView, events: Seq<WorkflowEventView>)
    ensures
        grants(actions(state, events)) <= grants_left(state),
        state is Finished ==> actions(state, events).len() == 0,
        forall|j: int|
            0 <= j < actions(state, events).len() ==> {
                let a = #[trigger] actions(state, events)[j];
                &&& is_final(a) ==> j == actions(state, events).len() - 1
                &&& a matches WorkflowActionView::GrantAccess { canonical_name } ==> names_account(
                    events,
                    canonical_name,
                )
                &&& !(a is CheckMembership)
            },
    decreases events.len(),
{
    if events.len() > 0 {
        let (after, action) = next(state, events[0]);
        let tail = events.drop_first();
        let rest = actions(after, tail);
        lemma_single_grant_from(after, tail);
        assert forall|name: Seq<char>| names_account(tail, name) implies names_account(
            events,
            name,
        ) by {
            let i = choose|i: int| 0 <= i < tail.len() && resolves_to(#[trigger] tail[i], name);
            assert(events[i + 1] == tail[i]);
        }
        match action {
            Some(a) => {
                assert(actions(state, events) == seq![a] + rest);
                assert((seq![a] + rest).drop_first() =~= rest);
                assert forall|j: int| 0 <= j < actions(state, events).len() implies {
                    let b = #[trigger] actions(state, events)[j];
                    &&& is_final(b) ==> j == actions(state, events).len() - 1
                    &&& b matches WorkflowActionView::GrantAccess { canonical_name }
                        ==> names_account(events, canonical_name)
                    &&& !(b is CheckMembership)
                } by {
                    if j > 0 {
                        assert(actions(state, events)[j] == rest[j - 1]);
                    }
                }
            },
            None => {},
        }
    }
}

/// One verification changes the allow-list once at most, and for the account
/// that the identity service named, under the name as the service spells it.
/// The member's role is looked at once, before anything else, and nothing
/// follows the reply.
pub proof fn verification_grants_once(invocation: InvocationView, events: Seq<WorkflowEventView>)
    ensures
        grants(transcript(invocation, events)) <= 1,
        forall|j: int|
            0 <= j < transcript(invocation, events).len() ==> {
                let a = #[trigger] transcript(invocation, events)[j];
                &&& is_final(a) ==> j == transcript(invocation, events).len() - 1
                &&& a matches WorkflowActionView::GrantAccess { canonical_name } ==> names_account(
                    events,
                    canonical_name,
                )
                &&& a is CheckMembership ==> j == 0
            },
{
    let first = received(invocation);
    let rest = actions(first.0, events);
    lemma_single_grant_from(first.0, events);
    assert((seq![first.1] + rest).drop_first() =~= rest);
    assert forall|j: int| 0 <= j < transcript(invocation, events).len() implies {
        let a = #[trigger] transcript(invocation, events)[j];
        &&& is_final(a) ==> j == transcript(invocation, events).len() - 1
        &&& a matches WorkflowActionView::GrantAccess { canonical_name } ==> names_account(
            events,
            canonical_name,
        )
        &&& a is CheckMembership ==> j == 0
    } by {
        if j > 0 {
            assert(transcript(invocation, events)[j] == rest[j - 1]);
        }
    }
}

/// The member and the claimed name that a state works for, where it still
/// holds them.
spec fn serves(state: WorkflowView, member: Member, claimed_username: Seq<char>) -> bool {
    match state {
        WorkflowView::CheckingMembership { member: m, claimed_username: c } => m == member && c
            == claimed_username,
        WorkflowView::ResolvingIdentity { member: m, claimed_username: c } => m == member && c
            == claimed_username,
        WorkflowView::GrantingAccess { member: m, .. } => m == member,
        WorkflowView::RecordingMembership { member: m, .. } => m == member,
        WorkflowView::Finished(_) => true,
    }
}

/// The action is about `member` and, where it asks the identity service,
/// about `claimed_username`.
pub open spec fn is_about(
    action: WorkflowActionView,
    member: Member,
    claimed_username: Seq<char>,
) -> bool {
    match action {
        WorkflowActionView::CheckMembership(m) => m == member,
        WorkflowActionView::RecordMembership(m) => m == member,
        WorkflowActionView::ResolveIdentity { username } => username == claimed_username,
        _ => true,
    }
}

proof fn lemma_serves_from(
    state: WorkflowView,
    member: Member,
    claimed_username: Seq<char>,
    events: Seq<WorkflowEventView>,
)
    requires
        serves(state, member, claimed_username),
    ensures
        forall|j: int|
            0 <= j < actions(state, events).len() ==> is_about(
                #[trigger] actions(state, events)[j],
                member,
                claimed_username,
            ),
    decreases events.len(),
{
    if events.len() > 0 {
        let (after, action) = next(state, events[0]);
        let rest = events.drop_first();
        lemma_serves_from(after, member, claimed_username, rest);
        assert forall|j: int| 0 <= j < actions(state, events).len() implies is_about(
            #[trigger] actions(state, events)[j],
            member,
            claimed_username,
        ) by {
            if action is Some && j > 0 {
                assert(actions(state, events)[j] == actions(after, rest)[j - 1]);
            }
        }
    }
}

/// A verification serves the one who asked: where the command leads to a
/// look at the membership, the sender of the command is the member that is
/// looked at and that gets the role, the role is the community's own, and the
/// name that the identity service is asked about is the first argument of the
/// command as it was given, which is not empty.
pub proof fn verification_serves_its_sender(
    invocation: InvocationView,
    events: Seq<WorkflowEventView>,
)
    requires
        received(invocation).1 is CheckMembership,
    ensures
        ({
            let member = received(invocation).1->CheckMembership_0;
            let claimed_username = invocation.options[0]->Text_0;
            &&& invocation.options.len() > 0
            &&& invocation.options[0] is Text
            &&& claimed_username.len() > 0
            &&& invocation.community is Some
            &&& member.user_id == invocation.user_id
            &&& member.community_id == invocation.community->0.id
            &&& role_named(invocation.community->0.roles, verified_role_name()) == Some(
                member.role_id,
            )
            &&& forall|j: int|
                0 <= j < transcript(invocation, events).len() ==> is_about(
                    #[trigger] transcript(invocation, events)[j],
                    member,
                    claimed_username,
                )
        }),
{
    let member = received(invocation).1->CheckMembership_0;
    let claimed_username = invocation.options[0]->Text_0;
    let first = received(invocation);
    let rest = actions(first.0, events);
    lemma_serves_from(first.0, member, claimed_username, events);
    assert forall|j: int| 0 <= j < transcript(invocation, events).len() implies is_about(
        #[trigger] transcript(invocation, events)[j],
        member,
        claimed_username,
    ) by {
        if j > 0 {
            assert(transcript(invocation, events)[j] == rest[j - 1]);
        }
    }
}

} // verus!
