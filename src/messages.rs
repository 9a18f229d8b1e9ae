use vstd::prelude::*;

verus! {

/// A message from a client: the tokens of one command line.
#[derive(Clone, Debug, PartialEq, Eq)]
pub enum ClientMessage {
    Execute { command: Vec<String> },
}

/// A message from the server.
#[derive(Clone, Debug, PartialEq, Eq)]
pub enum ServerMessage {
    /// Free text for the user.
    Notification { message: String },
    /// The caller's role and the commands it allows.
    Role { title: String, allowed_commands: Vec<String> },
    /// The entries of the caller's current directory.
    FilesList { files: Vec<String> },
    /// The (name, location) of every session in the world.
    UsersList { users: Vec<(String, String)> },
    /// The caller's new location.
    MoveTo { location: String },
    /// How many sessions a kill reached.
    KillResult { killed_users_count: u32 },
}

/// Whether `m` is a notification carrying `text`.
pub open spec fn is_notification(m: ServerMessage, text: Seq<char>) -> bool {
    m matches ServerMessage::Notification { message } && message@ == text
}

/// A notification carrying `message`.
pub fn notify(message: &str) -> (r: ServerMessage)
    ensures
        is_notification(r, message@),
{
    ServerMessage::Notification { message: message.to_owned() }
}

} // verus!
