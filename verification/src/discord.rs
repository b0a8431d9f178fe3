//! Decisions of the chat front end that do not depend on the chat library.

use crate::message::MessageState;
use crate::text::{same_text, texts};
use vstd::prelude::*;

verus! {

/// What went wrong in the command framework.
#[derive(Clone, Copy, Debug, PartialEq, Eq, Structural)]
pub enum FrameworkFault {
    CommandCheckFailed,
    MissingUserPermissions,
    MissingBotPermissions,
    Setup,
    EventHandler,
    CommandPanic,
    Command,
    DynamicPrefix,
    /// Any other fault.
    Other,
}

/// What the user is told about a fault.
#[derive(Clone, Copy, Debug, PartialEq, Eq, Structural)]
pub enum FaultReply {
    /// Nothing.
    Silent,
    /// That the bot lacks permissions; shown to the user alone.
    MissingPermissions,
    /// That something went wrong; shown to everybody.
    Generic,
}

/// A text in the colour of its severity, shown to the user alone or to
/// everybody.
#[derive(Debug, PartialEq, Eq)]
pub struct Notice {
    pub text: String,
    pub state: MessageState,
    pub ephemeral: bool,
}

/// What the user is told about `fault`. A failed check and missing
/// permissions of the user are passed over in silence; every other fault
/// is answered where there is a command to answer to, which a failed or
/// panicked command always has.
pub open spec fn reply_to(fault: FrameworkFault, has_context: bool) -> FaultReply {
    match fault {
        FrameworkFault::CommandCheckFailed | FrameworkFault::MissingUserPermissions =>
            FaultReply::Silent,
        FrameworkFault::MissingBotPermissions => if has_context {
            FaultReply::MissingPermissions
        } else {
            FaultReply::Silent
        },
        FrameworkFault::CommandPanic | FrameworkFault::Command => FaultReply::Generic,
        _ => if has_context {
            FaultReply::Generic
        } else {
            FaultReply::Silent
        },
    }
}

/// The text of a reply, where it has one.
pub open spec fn reply_text(reply: FaultReply) -> Option<Seq<char>> {
    match reply {
        FaultReply::Silent => None,
        FaultReply::MissingPermissions => Some("Bot has missing permissions"@),
        FaultReply::Generic => Some("Something went wrong. blame Mikumin."@),
    }
}

/// Each identifier as a mention on a line of its own.
pub open spec fn mentions(users: Seq<Seq<char>>) -> Seq<char>
    decreases users.len(),
{
    if users.len() == 0 {
        Seq::empty()
    } else {
        mentions(users.drop_last()) + "<@"@ + users.last() + ">\n"@
    }
}

/// Decides what the user is told about a fault of the command framework.
pub fn handle_error(fault: FrameworkFault, has_context: bool) -> (notice: Option<Notice>)
    ensures
        match notice {
            Some(n) => {
                &&& reply_text(reply_to(fault, has_context)) == Some(n.text@)
                &&& n.state == MessageState::ERROR
                &&& n.ephemeral == (reply_to(fault, has_context) is MissingPermissions)
            },
            None => reply_to(fault, has_context) is Silent,
        },
{
    let reply = match fault {
        FrameworkFault::CommandCheckFailed | FrameworkFault::MissingUserPermissions =>
            FaultReply::Silent,
        FrameworkFault::MissingBotPermissions => if has_context {
            FaultReply::MissingPermissions
        } else {
            FaultReply::Silent
        },
        FrameworkFault::CommandPanic | FrameworkFault::Command => FaultReply::Generic,
        _ => if has_context {
            FaultReply::Generic
        } else {
            FaultReply::Silent
        },
    };
    match reply {
        FaultReply::Silent => None,
        FaultReply::MissingPermissions => Some(
            Notice {
                text: String::from_str("Bot has missing permissions"),
                state: MessageState::ERROR,
                ephemeral: true,
            },
        ),
        FaultReply::Generic => Some(
            Notice {
                text: String::from_str("Something went wrong. blame Mikumin."),
                state: MessageState::ERROR,
                ephemeral: false,
            },
        ),
    }
}

/// Decides whether a command of a user goes ahead: not for a blacklisted
/// user, who is told so alone.
pub fn global_check(blacklisted: bool) -> (refusal: Option<Notice>)
    ensures
        match refusal {
            Some(n) => {
                &&& blacklisted
                &&& n.text@ == "You are blacklisted"@
                &&& n.state == MessageState::INFO
                &&& n.ephemeral
            },
            None => !blacklisted,
        },
{
    if blacklisted {
        Some(
            Notice {
                text: String::from_str("You are blacklisted"),
                state: MessageState::INFO,
                ephemeral: true,
            },
        )
    } else {
        None
    }
}

/// Whether a member with the roles `roles` has the role `replay_role`.
pub fn user_has_replay_role(roles: &Vec<u64>, replay_role: u64) -> (has: bool)
    ensures
        has == roles@.contains(replay_role),
{
    let mut i: usize = 0;
    while i < roles.len()
        invariant
            i <= roles.len(),
            forall|j: int| 0 <= j < i ==> roles@[j] != replay_role,
        decreases roles.len() - i,
    {
        if roles[i] == replay_role {
            return true;
        }
        i += 1;
    }
    false
}

/// Whether a message is answered with the reaction: one that no bot wrote
/// and that reads `sata andagi`.
pub fn handle_message(author_is_bot: bool, content: &str) -> (react: bool)
    ensures
        react == (!author_is_bot && content@ == "sata andagi"@),
{
    !author_is_bot && same_text(content, "sata andagi")
}

/// Lists the blacklisted users, each as a mention on a line of its own.
pub fn list(users: &Vec<String>) -> (listing: String)
    ensures
        listing@ == mentions(texts(users@)),
{
    let mut listing = String::new();
    let mut i: usize = 0;
    assert(texts(users@).subrange(0, 0) =~= Seq::<Seq<char>>::empty());
    while i < users.len()
        invariant
            i <= users.len(),
            listing@ == mentions(texts(users@).subrange(0, i as int)),
        decreases users.len() - i,
    {
        proof {
            let next = texts(users@).subrange(0, i + 1);
            assert(next.drop_last() =~= texts(users@).subrange(0, i as int));
            assert(next.last() == users@[i as int]@);
        }
        listing.append("<@");
        listing.append(users[i].as_str());
        listing.append(">\n");
        i += 1;
    }
    assert(texts(users@).subrange(0, i as int) =~= texts(users@));
    listing
}

} // verus!
