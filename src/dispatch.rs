use vstd::prelude::*;
use vstd::string::*;

use crate::errors::{Error, ErrorKind};
use crate::members::Members;
use crate::messages::{is_notification, notify, ServerMessage};
use crate::world::{
    count_targets, entry_of, is_target, location_to_string, without_marker, UserRecord, World,
};

verus! {

/// What a command comes to once it has been authorized and routed.
#[derive(Debug)]
pub enum Outcome {
    /// The reply is ready.
    Reply(ServerMessage),
    /// `ls`: the entries of the directory `location` are needed; see [`complete_ls`].
    ListDirectory { location: String },
    /// `cd`: `target`, taken from `location` when relative, must be looked up; see
    /// [`complete_cd`].
    ChangeDirectory { location: String, target: String },
}

/// What looking up the target of a `cd` found.
#[derive(Clone, Debug, PartialEq, Eq)]
pub enum PathProbe {
    /// Nothing exists there.
    Missing,
    /// Something exists there, but it is not a directory.
    NotDirectory,
    /// The path could not be made canonical; `error` describes why.
    Unresolvable { error: String },
    /// The canonical path of the directory.
    Resolved { location: String },
}

/// The reply of a command whose outcome is a ready reply, or the error it failed with.
pub open spec fn reply_of(r: Result<Outcome, Error>) -> Result<ServerMessage, Error> {
    match r {
        Ok(Outcome::Reply(m)) => Ok(m),
        Ok(_) => Err(Error { kind: ErrorKind::NothingToRead }),
        Err(e) => Err(e),
    }
}

pub open spec fn params_missing() -> Seq<char> {
    "The command misses some parameters"@
}

/// `login <name> <password>`: what it replies and how it leaves the world.
pub open spec fn login_post(
    command: Seq<String>,
    me: int,
    before: Seq<UserRecord>,
    after: Seq<UserRecord>,
    members: Members,
    r: Result<ServerMessage, Error>,
) -> bool {
    if command.len() < 3 {
        after == before && (r matches Ok(m) && is_notification(m, params_missing()))
    } else if !members.user_map().contains_key(command[1]@) {
        after == before && (r matches Ok(m) && is_notification(m, "No such a user > "@ + command[1]@))
    } else if members.user_map()[command[1]@].1 != command[2]@ {
        after == before && (r matches Ok(m) && is_notification(m, "Incorrect password"@))
    } else {
        &&& after == before.update(me, UserRecord { name: command[1], ..before[me] })
        &&& members.has_role_for(command[1]@) ==> (r matches Ok(ServerMessage::Role { title, allowed_commands })
            && title@ == members.user_map()[command[1]@].0 && allowed_commands.deep_view()
            == members.commands_for(command[1]@))
        &&& !members.has_role_for(command[1]@) ==> (r matches Err(e) && e.kind matches ErrorKind::Configuration {
            message,
        } && message@ == members.role_for_failure(command[1]@))
    }
}

/// `who`: the (name, shown location) of every record, in roster order.
pub open spec fn who_post(before: Seq<UserRecord>, m: ServerMessage) -> bool {
    &&& m matches ServerMessage::UsersList { users }
    &&& users@.len() == before.len()
    &&& forall|i: int|
        0 <= i < before.len() ==> (#[trigger] users@[i]).0@ == entry_of(before[i]).0 && users@[i].1@
            == entry_of(before[i]).1
}

/// `kill <name>`: what it replies and how it leaves the world.
pub open spec fn kill_post(
    command: Seq<String>,
    me: int,
    before: Seq<UserRecord>,
    after: Seq<UserRecord>,
    m: ServerMessage,
) -> bool {
    if command.len() < 2 {
        after == before && is_notification(m, params_missing())
    } else {
        &&& after.len() == before.len()
        &&& forall|i: int|
            0 <= i < before.len() ==> (#[trigger] after[i]).name == before[i].name && after[i].location
                == before[i].location && after[i].alive == (before[i].alive && !is_target(
                before[i],
                command[1]@,
                before[me].location@,
            ))
        &&& m matches ServerMessage::KillResult { killed_users_count }
        &&& killed_users_count as int == count_targets(before, command[1]@, before[me].location@)
    }
}

/// Logs the caller in as `command[1]` when `command[2]` is that user's password, and replies with
/// the user's role. The caller keeps its old name on a missing parameter, an unknown user or a
/// wrong password, and gets a notification. When the user's role does not exist the name is
/// already changed and the registry's configuration error is returned.
pub fn handle_login(command: &Vec<String>, me: usize, world: &mut World, members: &Members) -> (r:
    Result<ServerMessage, Error>)
    requires
        me < old(world)@.len(),
    ensures
        login_post(command@, me as int, old(world)@, final(world)@, *members, r),
{
    if command.len() < 3 {
        return Ok(notify("The command misses some parameters"));
    }
    let name = &command[1];
    let pass = &command[2];
    if !members.has_user(name.as_str()) {
        let text = String::from_str("No such a user > ").concat(name.as_str());
        return Ok(notify(text.as_str()));
    }
    let settings = match members.settings_for(name.as_str()) {
        Ok(s) => s,
        Err(e) => return Err(e),
    };
    if *pass != settings.pass {
        return Ok(notify("Incorrect password"));
    }
    world.set_name(me, name.clone());
    let role = match members.role_for(name.as_str()) {
        Ok(role) => role,
        Err(e) => return Err(e),
    };
    Ok(ServerMessage::Role { title: role.title, allowed_commands: role.allowed_commands })
}

/// The roster as `who` reports it.
pub fn handle_who(world: &World) -> (r: ServerMessage)
    ensures
        who_post(world@, r),
{
    let users = world.collect_users();
    ServerMessage::UsersList { users }
}

/// Two `who` replies over the same roster carry identical (name, location) lists, in the same
/// order: with no mutation in between, asking twice gives the same answer.
pub proof fn lemma_who_idempotent(world: Seq<UserRecord>, first: ServerMessage, second: ServerMessage)
    requires
        who_post(world, first),
        who_post(world, second),
    ensures
        first matches ServerMessage::UsersList { users: a } && second matches ServerMessage::UsersList {
            users: b,
        } && a.deep_view() == b.deep_view(),
{
    if let ServerMessage::UsersList { users: a } = first {
        if let ServerMessage::UsersList { users: b } = second {
            assert(a.deep_view() =~= b.deep_view());
        }
    }
}

/// Clears the liveness flag of every session named `command[1]` at the caller's location, and
/// replies with how many there were.
pub fn handle_kill(command: &Vec<String>, me: usize, world: &mut World) -> (r: ServerMessage)
    requires
        me < old(world)@.len(),
        old(world).wf(),
    ensures
        kill_post(command@, me as int, old(world)@, final(world)@, r),
{
    if command.len() < 2 {
        return notify("The command misses some parameters");
    }
    let here = world.record(me).location.clone();
    let count = world.kill_nearby(&command[1], &here);
    ServerMessage::KillResult { killed_users_count: count }
}

/// The displayable entries among `entries`, in order.
pub open spec fn displayable(entries: Seq<Option<String>>) -> Seq<Seq<char>>
    decreases entries.len(),
{
    if entries.len() == 0 {
        Seq::empty()
    } else {
        displayable(entries.drop_last()) + match entries.last() {
            Some(s) => seq![s@],
            None => Seq::empty(),
        }
    }
}

/// The reply of `ls` for the entries of the caller's directory; an entry that has no
/// displayable form (`None`) is left out.
pub fn complete_ls(entries: &Vec<Option<String>>) -> (r: ServerMessage)
    ensures
        r matches ServerMessage::FilesList { files } && files.deep_view() == displayable(entries@),
{
    let mut files: Vec<String> = Vec::new();
    let mut i: usize = 0;
    while i < entries.len()
        invariant
            0 <= i <= entries@.len(),
            files.deep_view() == displayable(entries@.take(i as int)),
        decreases entries@.len() - i,
    {
        assert(entries@.take(i + 1).drop_last() == entries@.take(i as int));
        match &entries[i] {
            Some(path) => {
                files.push(path.clone());
                assert(files.deep_view() =~= displayable(entries@.take(i + 1)));
            },
            None => {
                assert(files.deep_view() =~= displayable(entries@.take(i + 1)));
            },
        }
        i = i + 1;
    }
    assert(entries@.take(entries@.len() as int) == entries@);
    ServerMessage::FilesList { files }
}

/// `cd` once its target has been looked up: what it replies and how it leaves the world.
pub open spec fn cd_post(
    probe: PathProbe,
    me: int,
    before: Seq<UserRecord>,
    after: Seq<UserRecord>,
    r: ServerMessage,
) -> bool {
    match probe {
        PathProbe::Missing => after == before && is_notification(r, "No such a path"@),
        PathProbe::NotDirectory => after == before && is_notification(r, "This is not a directory"@),
        PathProbe::Unresolvable { error } => after == before && is_notification(
            r,
            "Error > "@ + error@,
        ),
        PathProbe::Resolved { location } => {
            &&& after == before.update(me, UserRecord { location, ..before[me] })
            &&& r matches ServerMessage::MoveTo { location: shown }
            &&& shown@ == without_marker(location@)
        },
    }
}

/// `cd`, once its target has been looked up: moves the caller to a resolved directory and
/// replies with the location as shown to users; otherwise leaves the caller where it is and
/// replies with a notification.
pub fn complete_cd(probe: PathProbe, me: usize, world: &mut World) -> (r: ServerMessage)
    requires
        me < old(world)@.len(),
    ensures
        cd_post(probe, me as int, old(world)@, final(world)@, r),
{
    match probe {
        PathProbe::Missing => notify("No such a path"),
        PathProbe::NotDirectory => notify("This is not a directory"),
        PathProbe::Unresolvable { error } => {
            let text = String::from_str("Error > ").concat(error.as_str());
            notify(text.as_str())
        },
        PathProbe::Resolved { location } => {
            let shown = location_to_string(location.as_str());
            world.set_location(me, location);
            ServerMessage::MoveTo { location: shown }
        },
    }
}

/// Whether `command` is authorized for the caller named `name`: the registry knows the
/// caller's role, and the command's first token is among its allowed commands.
pub open spec fn authorized(members: Members, name: Seq<char>, command: Seq<String>) -> bool {
    command.len() > 0 && members.has_role_for(name) && members.commands_for(name).contains(
        command[0]@,
    )
}

/// What an authorized command does, by its first token.
pub open spec fn routed_post(
    command: Seq<String>,
    me: int,
    before: Seq<UserRecord>,
    after: Seq<UserRecord>,
    members: Members,
    r: Result<Outcome, Error>,
) -> bool {
    let verb = command[0]@;
    if verb == "login"@ {
        (r is Ok ==> r->Ok_0 is Reply) && login_post(command, me, before, after, members, reply_of(r))
    } else if verb == "ls"@ {
        after == before && (r matches Ok(Outcome::ListDirectory { location }) && location
            == before[me].location)
    } else if verb == "cd"@ {
        &&& after == before
        &&& command.len() < 2 ==> (r matches Ok(Outcome::Reply(m)) && is_notification(m, params_missing()))
        &&& command.len() >= 2 ==> (r matches Ok(Outcome::ChangeDirectory { location, target })
            && location == before[me].location && target == command[1])
    } else if verb == "who"@ {
        after == before && (r matches Ok(Outcome::Reply(m)) && who_post(before, m))
    } else if verb == "kill"@ {
        r matches Ok(Outcome::Reply(m)) && kill_post(command, me, before, after, m)
    } else {
        after == before && (r matches Ok(Outcome::Reply(m)) && is_notification(
            m,
            "No such a command > "@ + verb,
        ))
    }
}

/// What running `command` for the session at position `me` replies and how it leaves the
/// world: see [`handle_execute`].
pub open spec fn execute_post(
    command: Seq<String>,
    me: int,
    before: Seq<UserRecord>,
    after: Seq<UserRecord>,
    members: Members,
    r: Result<Outcome, Error>,
) -> bool {
    let name = before[me].name@;
    &&& command.len() == 0 ==> after == before && (r matches Ok(Outcome::Reply(m))
        && is_notification(m, "Empty command"@))
    &&& command.len() > 0 && !members.has_role_for(name) ==> after == before && (r matches Err(e)
        && e.kind matches ErrorKind::Configuration { message } && message@ == members.role_for_failure(
        name,
    ))
    &&& command.len() > 0 && members.has_role_for(name) && !authorized(members, name, command) ==> after
        == before && (r matches Ok(Outcome::Reply(m)) && is_notification(
        m,
        "No such an allowed command for you"@,
    ))
    &&& authorized(members, name, command) ==> routed_post(command, me, before, after, members, r)
}

/// Runs one command line for the session at position `me`.
///
/// An empty command gets `"Empty command"`. The caller's role is then looked up under its
/// current name; a command whose first token that role does not allow gets the fixed
/// `"No such an allowed command for you"` notification and changes nothing. Otherwise the
/// command is routed by its first token.
pub fn handle_execute(command: &Vec<String>, me: usize, world: &mut World, members: &Members) -> (r:
    Result<Outcome, Error>)
    requires
        me < old(world)@.len(),
        old(world).wf(),
    ensures
        execute_post(command@, me as int, old(world)@, final(world)@, *members, r),
{
    if command.len() == 0 {
        return Ok(Outcome::Reply(notify("Empty command")));
    }
    let name = world.record(me).name.clone();
    let role = match members.role_for(name.as_str()) {
        Ok(role) => role,
        Err(e) => return Err(e),
    };
    if !role.allows(&command[0]) {
        return Ok(Outcome::Reply(notify("No such an allowed command for you")));
    }
    let verb = &command[0];
    if *verb == String::from_str("login") {
        match handle_login(command, me, world, members) {
            Ok(m) => Ok(Outcome::Reply(m)),
            Err(e) => Err(e),
        }
    } else if *verb == String::from_str("ls") {
        Ok(Outcome::ListDirectory { location: world.record(me).location.clone() })
    } else if *verb == String::from_str("cd") {
        if command.len() < 2 {
            return Ok(Outcome::Reply(notify("The command misses some parameters")));
        }
        Ok(
            Outcome::ChangeDirectory {
                location: world.record(me).location.clone(),
                target: command[1].clone(),
            },
        )
    } else if *verb == String::from_str("who") {
        Ok(Outcome::Reply(handle_who(world)))
    } else if *verb == String::from_str("kill") {
        Ok(Outcome::Reply(handle_kill(command, me, world)))
    } else {
        let text = String::from_str("No such a command > ").concat(verb.as_str());
        Ok(Outcome::Reply(notify(text.as_str())))
    }
}

} // verus!
