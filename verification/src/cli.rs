//! The commands of the server's command line.

use vstd::prelude::*;

verus! {

/// A command, and which server it is for: its name, or the path of its
/// configuration.
pub struct Cli {
    pub command: Commands,
    pub server: Option<String>,
    pub config: Option<String>,
}

/// What to do.
#[allow(inconsistent_fields)]
pub enum Commands {
    /// Make launchers, the files that start a server.
    Server { action: ServerAction },
    /// Run the server, at another port than the configured one if one is given.
    Serve { port: Option<u16> },
    /// Look at the group or change it.
    Group { action: GroupAction },
    /// Look at the members or change them.
    Member { action: MemberAction },
    /// Show the server's statistics.
    Info,
    /// Show how to set a server up.
    Guide,
}

/// What to do about launchers.
pub enum ServerAction {
    /// Make a launcher. The name and the type, group or channel, are asked for where
    /// they are not given. Without a port a free one is taken, and without a group
    /// name that of the server.
    Create {
        name: Option<String>,
        type_: Option<String>,
        port: Option<u16>,
        group_name: Option<String>,
        os: String,
    },
}

/// What to do about the group.
pub enum GroupAction {
    /// Show the group.
    Info,
    /// Make or rename the group. All members of a group post messages. In a channel
    /// only the owner does, and all members read them.
    Setup { name: String, channel: bool },
    /// Show the token for joining.
    Invite,
    /// Make or show the token with which anyone views a channel without registering.
    /// A group that is no channel has none.
    PublicToken,
    /// Make the group a channel, in which only the owner posts.
    ToChannel,
    /// Make the channel a group, in which all members post.
    ToGroup,
}

/// What to do about the members. A name comes in the parts that spaces cut it
/// into.
pub enum MemberAction {
    /// List the members.
    List,
    /// Add a member.
    Add { username_parts: Vec<String>, display_name: Option<String> },
    /// Kick a member.
    Kick { username_parts: Vec<String> },
    /// Ban a member.
    Ban { username_parts: Vec<String>, reason: Option<String> },
    /// Lift a ban.
    Unban { username_parts: Vec<String> },
    /// Give a member a role.
    Role { role: String, username_parts: Vec<String> },
}

} // verus!
