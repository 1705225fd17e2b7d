//! What the bot tells the person who asked to be verified.

use vstd::prelude::*;

verus! {

/// A reply to a command. Every reply of the bot is for the caller's eyes
/// only.
#[derive(Clone, PartialEq, Eq, Debug)]
pub struct Reply {
    pub content: String,
    pub ephemeral: bool,
}

/// [`Reply`] as contracts see it.
pub struct ReplyView {
    pub content: Seq<char>,
    pub ephemeral: bool,
}

impl View for Reply {
    type V = ReplyView;

    open spec fn view(&self) -> ReplyView {
        ReplyView { content: self.content@, ephemeral: self.ephemeral }
    }
}

/// The reply that carries `content`.
pub open spec fn private_reply(content: Seq<char>) -> ReplyView {
    ReplyView { content, ephemeral: true }
}

pub open spec fn not_a_command_text() -> Seq<char> {
    "Not a command"@
}

pub open spec fn outside_community_text() -> Seq<char> {
    "Commands only work in a specific server"@
}

pub open spec fn already_verified_text() -> Seq<char> {
    "You have already verified a username, please contact an admin if you have verified the wrong username or need to change it."@
}

/// The claimed name `claimed` belongs to no account.
pub open spec fn not_found_text(claimed: Seq<char>) -> Seq<char> {
    "There isn't a Mojang user with '"@ + claimed + "' username. Please try again."@
}

pub open spec fn unreachable_text() -> Seq<char> {
    "Couldn't fetch the profile from the Mojang API. Please try again."@
}

pub open spec fn cannot_connect_text() -> Seq<char> {
    "Could not connect to the minecraft server. Probably because it is offline right now. Try again later"@
}

pub open spec fn command_failed_text() -> Seq<char> {
    "Something went wrong... The server is probably offline right now. Try again when the server is online"@
}

/// The account `canonical_name` is on the allow-list.
pub open spec fn granted_text(canonical_name: Seq<char>) -> Seq<char> {
    "'"@ + canonical_name + "' was successfully added to the whitelist!"@
}

impl Reply {
    /// A reply with a fixed text.
    pub fn fixed(content: &str) -> (reply: Reply)
        ensures
            reply@ == private_reply(content@),
    {
        Reply { content: String::from_str(content), ephemeral: true }
    }

    /// The reply to a claimed name that belongs to no account.
    pub fn not_found(claimed: &str) -> (reply: Reply)
        ensures
            reply@ == private_reply(not_found_text(claimed@)),
    {
        let mut content = String::from_str("There isn't a Mojang user with '");
        content.append(claimed);
        content.append("' username. Please try again.");
        Reply { content, ephemeral: true }
    }

    /// The reply to a verification that put `canonical_name` on the
    /// allow-list.
    pub fn granted(canonical_name: &str) -> (reply: Reply)
        ensures
            reply@ == private_reply(granted_text(canonical_name@)),
    {
        let mut content = String::from_str("'");
        content.append(canonical_name);
        content.append("' was successfully added to the whitelist!");
        Reply { content, ephemeral: true }
    }
}

} // verus!
