use vstd::prelude::*;
use vstd::string::*;

use crate::dispatch::{
    complete_cd, complete_ls, displayable, execute_post, handle_execute, cd_post, Outcome, PathProbe,
};
use crate::errors::{misconfiguration, misconfiguration_text, Error, ErrorKind};
use crate::members::Members;
use crate::messages::{ClientMessage, ServerMessage};
use crate::world::{UserRecord, World};

verus! {

/// Where a session stands. A session exists once its handshake is done, so it starts `Active`.
#[derive(Clone, Copy, Debug, PartialEq, Eq, Structural)]
pub enum Phase {
    Active,
    /// A fatal condition was met: the connection is to be released.
    Closing,
    /// The connection is released.
    Closed,
}

/// What became of an attempt to write the head of the outbound queue.
#[derive(Clone, Copy, Debug, PartialEq, Eq, Structural)]
pub enum WriteOutcome {
    /// All of its bytes were written.
    Written,
    /// The stream is not ready; the message stays at the head, to be tried again.
    WouldBlock,
    /// The message could not be encoded or the stream failed.
    Failed,
}

/// What one attempt to read a message from the peer gave.
#[derive(Clone, Debug)]
pub enum Inbound {
    /// No whole message has arrived yet.
    NotReady,
    /// One decoded message.
    Message(ClientMessage),
    /// The stream failed or closed, or its bytes are not a message.
    Fault,
}

/// What the connection owner has to do next.
#[derive(Debug)]
pub enum Action {
    Proceed,
    /// List the directory `location`, then hand the entries to [`Session::complete_listing`].
    ListDirectory { location: String },
    /// Look `target` up from `location`, then hand the result to [`Session::complete_change`].
    ChangeDirectory { location: String, target: String },
    /// Release the connection.
    Close,
}

/// The state of one connection: its position in the world, its outbound queue and its phase.
#[derive(Debug)]
pub struct Session {
    me: usize,
    queue: Vec<ServerMessage>,
    phase: Phase,
}

/// How the outcome of a command is carried out by the session: a ready reply joins the end of the
/// queue; a filesystem request is handed on; an error closes the session.
pub open spec fn outcome_applied(
    o: Result<Outcome, Error>,
    before: Session,
    after: Session,
    r: Result<Action, Error>,
) -> bool {
    &&& after.me() == before.me()
    &&& match o {
        Ok(Outcome::Reply(m)) => after.queue() == before.queue().push(m) && after.phase()
            == before.phase() && r == Ok::<Action, Error>(Action::Proceed),
        Ok(Outcome::ListDirectory { location }) => after.queue() == before.queue() && after.phase()
            == before.phase() && (r matches Ok(Action::ListDirectory { location: l }) && l == location),
        Ok(Outcome::ChangeDirectory { location, target }) => after.queue() == before.queue()
            && after.phase() == before.phase() && (r matches Ok(
            Action::ChangeDirectory { location: l, target: t },
        ) && l == location && t == target),
        Err(e) => after.queue() == before.queue() && after.phase() == Phase::Closing && r
            == Err::<Action, Error>(e),
    }
}

impl Session {
    /// The session's position in the world.
    pub closed spec fn me(&self) -> nat {
        self.me as nat
    }

    /// The messages waiting to be sent, head first.
    pub closed spec fn queue(&self) -> Seq<ServerMessage> {
        self.queue@
    }

    pub closed spec fn phase(&self) -> Phase {
        self.phase
    }

    /// The handshake: queues the `"guest"` role and the starting `location`, then registers a
    /// live record named `"guest"` at that location. Fails, changing nothing, when the registry
    /// has no role for `"guest"` or the world is full.
    pub fn connect(world: &mut World, members: &Members, location: String) -> (r: Result<
        Session,
        Error,
    >)
        ensures
            r is Ok <==> members.has_role_for("guest"@) && old(world)@.len() < u32::MAX,
            r is Err ==> final(world)@ == old(world)@,
            !members.has_role_for("guest"@) ==> (r matches Err(e) && e.kind matches ErrorKind::Configuration {
                message,
            } && message@ == members.role_for_failure("guest"@)),
            members.has_role_for("guest"@) && old(world)@.len() >= u32::MAX ==> (r matches Err(e)
                && e.kind matches ErrorKind::Configuration { message } && message@ == misconfiguration_text(
                "The roster is full"@,
            )),
            r matches Ok(s) ==> {
                &&& s.me() == old(world)@.len()
                &&& final(world)@ == old(world)@.push(
                    UserRecord { name: final(world)@[s.me() as int].name, location, alive: true },
                )
                &&& final(world)@[s.me() as int].name@ == "guest"@
                &&& s.phase() == Phase::Active
                &&& s.queue().len() == 2
                &&& s.queue()[0] matches ServerMessage::Role { title, allowed_commands }
                &&& title@ == members.user_map()["guest"@].0
                &&& allowed_commands.deep_view() == members.commands_for("guest"@)
                &&& s.queue()[1] == ServerMessage::MoveTo { location }
            },
            old(world).wf() ==> final(world).wf(),
    {
        let guest_role = match members.role_for("guest") {
            Ok(role) => role,
            Err(e) => return Err(e),
        };
        let mut queue: Vec<ServerMessage> = Vec::new();
        queue.push(
            ServerMessage::Role {
                title: guest_role.title,
                allowed_commands: guest_role.allowed_commands,
            },
        );
        queue.push(ServerMessage::MoveTo { location: location.clone() });
        let record = UserRecord { name: String::from_str("guest"), location, alive: true };
        match world.register(record) {
            Some(me) => Ok(Session { me, queue, phase: Phase::Active }),
            None => misconfiguration("The roster is full"),
        }
    }

    /// The session's position in the world.
    pub fn position(&self) -> (r: usize)
        ensures
            r == self.me(),
    {
        self.me
    }

    pub fn current_phase(&self) -> (r: Phase)
        ensures
            r == self.phase(),
    {
        self.phase
    }

    pub fn is_active(&self) -> (r: bool)
        ensures
            r == (self.phase() == Phase::Active),
    {
        self.phase == Phase::Active
    }

    /// The number of messages waiting to be sent.
    pub fn pending(&self) -> (r: usize)
        ensures
            r == self.queue().len(),
    {
        self.queue.len()
    }

    /// The message to send next, if any.
    pub fn next_outbound(&self) -> (r: Option<&ServerMessage>)
        ensures
            self.queue().len() == 0 ==> r is None,
            self.queue().len() > 0 ==> r == Some(&self.queue()[0]),
    {
        if self.queue.len() == 0 {
            None
        } else {
            Some(&self.queue[0])
        }
    }

    /// Appends `message` to the outbound queue.
    pub fn enqueue(&mut self, message: ServerMessage)
        ensures
            final(self).queue() == old(self).queue().push(message),
            final(self).me() == old(self).me(),
            final(self).phase() == old(self).phase(),
    {
        self.queue.push(message);
    }

    /// Records what became of writing the head of the queue. Only a written message leaves the
    /// queue, and only from its head; a stream that would block leaves everything as it is; a
    /// failure closes the session.
    pub fn on_write(&mut self, outcome: WriteOutcome)
        ensures
            final(self).me() == old(self).me(),
            outcome == WriteOutcome::Written && old(self).queue().len() > 0 ==> final(self).queue()
                == old(self).queue().skip(1) && final(self).phase() == old(self).phase(),
            outcome == WriteOutcome::Written && old(self).queue().len() == 0 ==> *final(self)
                == *old(self),
            outcome == WriteOutcome::WouldBlock ==> *final(self) == *old(self),
            outcome == WriteOutcome::Failed ==> final(self).queue() == old(self).queue()
                && final(self).phase() == Phase::Closing,
    {
        match outcome {
            WriteOutcome::Written => {
                if self.queue.len() > 0 {
                    self.queue.remove(0);
                    assert(self.queue@ =~= old(self).queue@.skip(1));
                }
            },
            WriteOutcome::WouldBlock => {},
            WriteOutcome::Failed => {
                self.phase = Phase::Closing;
            },
        }
    }

    /// Handles what one read from the peer gave: nothing yet is no change; a fault closes the
    /// session; a message is run as a command for this session, and its outcome carried out.
    pub fn on_inbound(&mut self, inbound: Inbound, world: &mut World, members: &Members) -> (r:
        Result<Action, Error>)
        requires
            old(self).me() < old(world)@.len(),
            old(world).wf(),
        ensures
            inbound is NotReady ==> *final(self) == *old(self) && final(world)@ == old(world)@ && r
                == Ok::<Action, Error>(Action::Proceed),
            inbound is Fault ==> final(self).queue() == old(self).queue() && final(self).me() == old(
                self,
            ).me() && final(self).phase() == Phase::Closing && final(world)@ == old(world)@ && r
                == Ok::<Action, Error>(Action::Close),
            inbound matches Inbound::Message(ClientMessage::Execute { command }) ==> exists|
                o: Result<Outcome, Error>,
            |
                execute_post(command@, old(self).me() as int, old(world)@, final(world)@, *members, o)
                    && outcome_applied(o, *old(self), *final(self), r),
            final(world)@.len() == old(world)@.len(),
    {
        match inbound {
            Inbound::NotReady => Ok(Action::Proceed),
            Inbound::Fault => {
                self.phase = Phase::Closing;
                Ok(Action::Close)
            },
            Inbound::Message(ClientMessage::Execute { command }) => {
                let ghost before = *self;
                let o = handle_execute(&command, self.me, world, members);
                proof {
                    lemma_execute_keeps_len(command@, before.me() as int, old(world)@, final(world)@, *members, o);
                }
                let ghost og = o;
                let r = match o {
                    Ok(Outcome::Reply(m)) => {
                        self.queue.push(m);
                        Ok(Action::Proceed)
                    },
                    Ok(Outcome::ListDirectory { location }) => Ok(Action::ListDirectory { location }),
                    Ok(Outcome::ChangeDirectory { location, target }) => Ok(
                        Action::ChangeDirectory { location, target },
                    ),
                    Err(e) => {
                        self.phase = Phase::Closing;
                        Err(e)
                    },
                };
                assert(execute_post(command@, before.me() as int, old(world)@, final(world)@, *members, og));
                assert(outcome_applied(og, before, *self, r));
                r
            },
        }
    }

    /// Queues the reply of `ls` for the entries that listing the directory gave.
    pub fn complete_listing(&mut self, entries: &Vec<Option<String>>)
        ensures
            final(self).me() == old(self).me(),
            final(self).phase() == old(self).phase(),
            final(self).queue().len() == old(self).queue().len() + 1,
            final(self).queue().drop_last() == old(self).queue(),
            final(self).queue().last() matches ServerMessage::FilesList { files } && files.deep_view()
                == displayable(entries@),
    {
        let m = complete_ls(entries);
        self.queue.push(m);
        assert(self.queue@.drop_last() =~= old(self).queue@);
    }

    /// Queues the reply of `cd` for what looking its target up found, moving the session when
    /// the target resolved to a directory.
    pub fn complete_change(&mut self, probe: PathProbe, world: &mut World)
        requires
            old(self).me() < old(world)@.len(),
        ensures
            final(self).me() == old(self).me(),
            final(self).phase() == old(self).phase(),
            final(self).queue().len() == old(self).queue().len() + 1,
            final(self).queue().drop_last() == old(self).queue(),
            cd_post(probe, old(self).me() as int, old(world)@, final(world)@, final(self).queue().last()),
            final(world)@.len() == old(world)@.len(),
    {
        let m = complete_cd(probe, self.me, world);
        self.queue.push(m);
        assert(self.queue@.drop_last() =~= old(self).queue@);
    }

    /// Whether the session's record is still alive; a session whose record was killed starts
    /// closing.
    pub fn check_alive(&mut self, world: &World) -> (r: bool)
        requires
            old(self).me() < world@.len(),
        ensures
            r == world@[old(self).me() as int].alive,
            r ==> *final(self) == *old(self),
            !r ==> final(self).queue() == old(self).queue() && final(self).me() == old(self).me()
                && final(self).phase() == Phase::Closing,
    {
        if world.record(self.me).alive {
            true
        } else {
            self.phase = Phase::Closing;
            false
        }
    }

    /// Marks the connection as released. The record stays in the world, and keeps its liveness
    /// flag: only a kill clears it, a dropped connection does not.
    pub fn close(&mut self)
        ensures
            final(self).me() == old(self).me(),
            final(self).queue() == old(self).queue(),
            final(self).phase() == Phase::Closed,
    {
        self.phase = Phase::Closed;
    }
}

proof fn lemma_execute_keeps_len(
    command: Seq<String>,
    me: int,
    before: Seq<UserRecord>,
    after: Seq<UserRecord>,
    members: Members,
    o: Result<Outcome, Error>,
)
    requires
        0 <= me < before.len(),
        execute_post(command, me, before, after, members, o),
    ensures
        after.len() == before.len(),
{
}

} // verus!
