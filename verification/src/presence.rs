//! What the bot puts in place in its community: the role of verified
//! members, the instructions in the verification channel, and the `verify`
//! command.

use vstd::prelude::*;

verus! {

/// The colours the bot uses, by their names in the platform's palette.
#[derive(Clone, Copy, PartialEq, Eq, Debug, Structural)]
pub enum Colour {
    Blue,
    DarkGreen,
}

/// The name of the role that marks a verified member.
pub open spec fn verified_role_name() -> Seq<char> {
    "Verified"@
}

/// The name of the one command the bot answers.
pub open spec fn verify_command_name() -> Seq<char> {
    "verify"@
}

/// A role to create.
#[derive(Clone, PartialEq, Eq, Debug)]
pub struct RoleSpec {
    pub name: String,
    pub colour: Colour,
    /// Whether members with the role are listed apart from the others.
    pub hoist: bool,
}

/// [`RoleSpec`] as contracts see it.
pub struct RoleSpecView {
    pub name: Seq<char>,
    pub colour: Colour,
    pub hoist: bool,
}

impl View for RoleSpec {
    type V = RoleSpecView;

    open spec fn view(&self) -> RoleSpecView {
        RoleSpecView { name: self.name@, colour: self.colour, hoist: self.hoist }
    }
}

/// The message that tells newcomers how to get verified.
#[derive(Clone, PartialEq, Eq, Debug)]
pub struct Instructions {
    pub title: String,
    pub description: String,
    pub footer: String,
    pub colour: Colour,
}

/// [`Instructions`] as contracts see it.
pub struct InstructionsView {
    pub title: Seq<char>,
    pub description: Seq<char>,
    pub footer: Seq<char>,
    pub colour: Colour,
}

impl View for Instructions {
    type V = InstructionsView;

    open spec fn view(&self) -> InstructionsView {
        InstructionsView {
            title: self.title@,
            description: self.description@,
            footer: self.footer@,
            colour: self.colour,
        }
    }
}

/// A command with one text argument.
#[derive(Clone, PartialEq, Eq, Debug)]
pub struct CommandSpec {
    pub name: String,
    pub description: String,
    pub option_name: String,
    pub option_description: String,
    pub option_required: bool,
}

/// [`CommandSpec`] as contracts see it.
pub struct CommandSpecView {
    pub name: Seq<char>,
    pub description: Seq<char>,
    pub option_name: Seq<char>,
    pub option_description: Seq<char>,
    pub option_required: bool,
}

impl View for CommandSpec {
    type V = CommandSpecView;

    open spec fn view(&self) -> CommandSpecView {
        CommandSpecView {
            name: self.name@,
            description: self.description@,
            option_name: self.option_name@,
            option_description: self.option_description@,
            option_required: self.option_required,
        }
    }
}

/// The role of verified members: blue, and listed apart.
pub open spec fn verified_role_view() -> RoleSpecView {
    RoleSpecView { name: verified_role_name(), colour: Colour::Blue, hoist: true }
}

/// The instructions as they stand in the verification channel.
pub open spec fn instructions_view() -> InstructionsView {
    InstructionsView {
        title: "Verification Ready!"@,
        description: "Type `/verify <username>` to add your minecraft profile to the server whitelist."@,
        footer: "Minecraft Verification Bot"@,
        colour: Colour::DarkGreen,
    }
}

/// The `verify` command: its one argument, the claimed name, is required.
pub open spec fn verify_command_view() -> CommandSpecView {
    CommandSpecView {
        name: verify_command_name(),
        description: "Verify a Minecraft username and add it to the whitelist."@,
        option_name: "username"@,
        option_description: "Your Minecraft username"@,
        option_required: true,
    }
}

/// Describes the role of verified members.
pub fn verified_role() -> (role: RoleSpec)
    ensures
        role@ == verified_role_view(),
{
    RoleSpec { name: String::from_str("Verified"), colour: Colour::Blue, hoist: true }
}

/// Describes the instructions for the verification channel.
pub fn instructions() -> (message: Instructions)
    ensures
        message@ == instructions_view(),
{
    Instructions {
        title: String::from_str("Verification Ready!"),
        description: String::from_str(
            "Type `/verify <username>` to add your minecraft profile to the server whitelist.",
        ),
        footer: String::from_str("Minecraft Verification Bot"),
        colour: Colour::DarkGreen,
    }
}

/// Describes the `verify` command.
pub fn verify_command() -> (command: CommandSpec)
    ensures
        command@ == verify_command_view(),
{
    CommandSpec {
        name: String::from_str("verify"),
        description: String::from_str("Verify a Minecraft username and add it to the whitelist."),
        option_name: String::from_str("username"),
        option_description: String::from_str("Your Minecraft username"),
        option_required: true,
    }
}

} // verus!
