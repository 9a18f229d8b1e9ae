use vstd::prelude::*;

verus! {

/// The entries of a directory.
#[derive(Clone, Debug, PartialEq)]
pub struct FilesList {
    pub files: Vec<String>,
}

impl FilesList {
    pub fn new(files: Vec<String>) -> (r: FilesList)
        ensures
            r.files == files,
    {
        FilesList { files }
    }
}

/// What a new user of the HTTP binding receives: its role, its location and its identity token.
#[derive(Clone, Debug, PartialEq)]
pub struct InlineResponse200 {
    pub role: Role,
    pub location: MoveTo,
    pub identity: String,
}

impl InlineResponse200 {
    pub fn new(role: Role, location: MoveTo, identity: String) -> (r: InlineResponse200)
        ensures
            r.role == role,
            r.location == location,
            r.identity == identity,
    {
        InlineResponse200 { role, location, identity }
    }
}

/// Whether the caller's session is still alive.
#[derive(Clone, Debug, PartialEq)]
pub struct InlineResponse2001 {
    pub is_alive: bool,
}

impl InlineResponse2001 {
    pub fn new(is_alive: bool) -> (r: InlineResponse2001)
        ensures
            r.is_alive == is_alive,
    {
        InlineResponse2001 { is_alive }
    }
}

/// How many sessions a kill reached.
#[derive(Clone, Debug, PartialEq)]
pub struct KillResult {
    pub killed_users_count: u32,
}

impl KillResult {
    pub fn new(killed_users_count: u32) -> (r: KillResult)
        ensures
            r.killed_users_count == killed_users_count,
    {
        KillResult { killed_users_count }
    }
}

/// A new location.
#[derive(Clone, Debug, PartialEq)]
pub struct MoveTo {
    pub location: String,
}

impl MoveTo {
    pub fn new(location: String) -> (r: MoveTo)
        ensures
            r.location == location,
    {
        MoveTo { location }
    }
}

/// Free text for the user.
#[derive(Clone, Debug, PartialEq)]
pub struct Notification {
    pub message: String,
}

impl Notification {
    pub fn new(message: String) -> (r: Notification)
        ensures
            r.message == message,
    {
        Notification { message }
    }
}

/// One command line, as tokens.
#[derive(Clone, Debug, PartialEq)]
pub struct Query {
    pub arguments: Vec<String>,
}

impl Query {
    pub fn new(arguments: Vec<String>) -> (r: Query)
        ensures
            r.arguments == arguments,
    {
        Query { arguments }
    }
}

/// A role title and the commands it allows.
#[derive(Clone, Debug, PartialEq)]
pub struct Role {
    pub title: String,
    pub allowed_commands: Vec<String>,
}

impl Role {
    pub fn new(title: String, allowed_commands: Vec<String>) -> (r: Role)
        ensures
            r.title == title,
            r.allowed_commands == allowed_commands,
    {
        Role { title, allowed_commands }
    }
}

/// The sessions of the world.
#[derive(Clone, Debug, PartialEq)]
pub struct UsersList {
    pub users: Vec<UsersListUsers>,
}

impl UsersList {
    pub fn new(users: Vec<UsersListUsers>) -> (r: UsersList)
        ensures
            r.users == users,
    {
        UsersList { users }
    }
}

/// One session: its user name and location.
#[derive(Clone, Debug, PartialEq)]
pub struct UsersListUsers {
    pub user: String,
    pub location: String,
}

impl UsersListUsers {
    pub fn new(user: String, location: String) -> (r: UsersListUsers)
        ensures
            r.user == user,
            r.location == location,
    {
        UsersListUsers { user, location }
    }
}

/// Replies to a status request.
#[derive(Debug, PartialEq)]
pub enum GetMyselfResponse {
    HereIsYourStatus(InlineResponse2001),
    YourRequestIsJunk,
}

/// Replies to a request for a new identity.
#[derive(Debug, PartialEq)]
pub enum GetNewUserResponse {
    HereIsTheDefaultIdentity(InlineResponse200),
    YourRequestIsJunk,
}

/// Replies to a command.
#[derive(Debug, PartialEq)]
pub enum PostQueryResponse {
    HereIsTheKillResult(KillResult),
    HereIsANewRoleForYou(Role),
    HereAreTheFiles(FilesList),
    HereAreYourCrewmates(UsersList),
    SomeRandomInformation(Notification),
    HereIsTheNewLocation(MoveTo),
    YourRequestIsJunk,
    YouAreDead,
}

} // verus!
