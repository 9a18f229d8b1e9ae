use vstd::prelude::*;
use vstd::string::*;

use crate::errors::{misconfiguration, misconfiguration_text, Error, ErrorKind};

verus! {

/// What the registry holds for one login name.
#[derive(Clone, Debug)]
pub struct UserSettings {
    pub role: String,
    pub pass: String,
}

/// A role: its title and the commands that its holders may run.
#[derive(Clone, Debug)]
pub struct Role {
    pub title: String,
    pub allowed_commands: Vec<String>,
}

impl Role {
    /// The allowed commands, as character sequences.
    pub open spec fn commands(&self) -> Seq<Seq<char>> {
        self.allowed_commands.deep_view()
    }

    /// Whether `command` is one of the role's allowed commands.
    pub fn allows(&self, command: &String) -> (r: bool)
        ensures
            r == self.commands().contains(command@),
    {
        let mut i: usize = 0;
        while i < self.allowed_commands.len()
            invariant
                0 <= i <= self.allowed_commands@.len(),
                forall|k: int| 0 <= k < i ==> self.commands()[k] != command@,
            decreases self.allowed_commands@.len() - i,
        {
            if self.allowed_commands[i] == *command {
                assert(self.commands()[i as int] == command@);
                return true;
            }
            i = i + 1;
        }
        proof {
            if self.commands().contains(command@) {
                let k = choose|k: int| 0 <= k < self.commands().len() && self.commands()[k] == command@;
                assert(self.commands()[k] != command@);
            }
        }
        false
    }
}

/// Whether `i` is the first position in `roles` whose title is `title`.
pub open spec fn is_first_role(roles: Seq<Role>, title: Seq<char>, i: int) -> bool {
    &&& 0 <= i < roles.len()
    &&& roles[i].title@ == title
    &&& forall|k: int| 0 <= k < i ==> roles[k].title@ != title
}

/// Role titles and their allowed commands; where a title repeats, its first entry counts.
pub open spec fn role_map_of(roles: Seq<Role>) -> Map<Seq<char>, Seq<Seq<char>>> {
    Map::new(
        |t: Seq<char>| exists|i: int| 0 <= i < roles.len() && roles[i].title@ == t,
        |t: Seq<char>| roles[choose|i: int| is_first_role(roles, t, i)].commands(),
    )
}

/// Whether `i` is the first position in `users` whose login name is `name`.
pub open spec fn is_first_user(users: Seq<(String, UserSettings)>, name: Seq<char>, i: int) -> bool {
    &&& 0 <= i < users.len()
    &&& users[i].0@ == name
    &&& forall|k: int| 0 <= k < i ==> users[k].0@ != name
}

/// Login names and their (role title, password); where a name repeats, its first entry counts.
pub open spec fn user_map_of(users: Seq<(String, UserSettings)>) -> Map<
    Seq<char>,
    (Seq<char>, Seq<char>),
> {
    Map::new(
        |n: Seq<char>| exists|i: int| 0 <= i < users.len() && users[i].0@ == n,
        |n: Seq<char>|
            {
                let i = choose|i: int| is_first_user(users, n, i);
                (users[i].1.role@, users[i].1.pass@)
            },
    )
}

/// The registry of roles and user accounts, loaded once and only read afterwards.
#[derive(Clone, Debug)]
pub struct Members {
    roles: Vec<Role>,
    users: Vec<(String, UserSettings)>,
}

impl Members {
    /// Role title to allowed commands.
    pub closed spec fn role_map(&self) -> Map<Seq<char>, Seq<Seq<char>>> {
        role_map_of(self.roles@)
    }

    /// Login name to (role title, password).
    pub closed spec fn user_map(&self) -> Map<Seq<char>, (Seq<char>, Seq<char>)> {
        user_map_of(self.users@)
    }

    /// Whether `name` is a known user whose role exists.
    pub open spec fn has_role_for(&self, name: Seq<char>) -> bool {
        self.user_map().contains_key(name) && self.role_map().contains_key(self.user_map()[name].0)
    }

    /// The configuration error text of looking up the role of `name` when that fails.
    pub open spec fn role_for_failure(&self, name: Seq<char>) -> Seq<char> {
        if !self.user_map().contains_key(name) {
            misconfiguration_text("No such user > "@ + name)
        } else {
            misconfiguration_text("No such a role > "@ + self.user_map()[name].0)
        }
    }

    /// The allowed commands of the role of `name`.
    pub open spec fn commands_for(&self, name: Seq<char>) -> Seq<Seq<char>> {
        self.role_map()[self.user_map()[name].0]
    }

    /// A registry of the given roles and users.
    pub fn new(roles: Vec<Role>, users: Vec<(String, UserSettings)>) -> (r: Members)
        ensures
            r.role_map() == role_map_of(roles@),
            r.user_map() == user_map_of(users@),
    {
        Members { roles, users }
    }

    fn find_role(&self, title: &String) -> (r: Option<usize>)
        ensures
            r matches Some(i) ==> is_first_role(self.roles@, title@, i as int),
            r is None ==> forall|k: int| 0 <= k < self.roles@.len() ==> self.roles@[k].title@ != title@,
    {
        let mut i: usize = 0;
        while i < self.roles.len()
            invariant
                0 <= i <= self.roles@.len(),
                forall|k: int| 0 <= k < i ==> self.roles@[k].title@ != title@,
            decreases self.roles@.len() - i,
        {
            if self.roles[i].title == *title {
                return Some(i);
            }
            i = i + 1;
        }
        None
    }

    fn find_user(&self, name: &String) -> (r: Option<usize>)
        ensures
            r matches Some(i) ==> is_first_user(self.users@, name@, i as int),
            r is None ==> forall|k: int| 0 <= k < self.users@.len() ==> self.users@[k].0@ != name@,
    {
        let mut i: usize = 0;
        while i < self.users.len()
            invariant
                0 <= i <= self.users@.len(),
                forall|k: int| 0 <= k < i ==> self.users@[k].0@ != name@,
            decreases self.users@.len() - i,
        {
            if self.users[i].0 == *name {
                return Some(i);
            }
            i = i + 1;
        }
        None
    }

    proof fn lemma_first_role(&self, t: Seq<char>, i: int)
        requires
            is_first_role(self.roles@, t, i),
        ensures
            self.role_map().contains_key(t),
            self.role_map()[t] == self.roles@[i].commands(),
    {
        let roles = self.roles@;
        assert(0 <= i < roles.len() && roles[i].title@ == t);
        let j = choose|j: int| is_first_role(roles, t, j);
        assert(is_first_role(roles, t, j));
        if j < i {
            assert(roles[j].title@ != t);
        }
        if i < j {
            assert(roles[i].title@ != t);
        }
        assert(j == i);
    }

    proof fn lemma_first_user(&self, n: Seq<char>, i: int)
        requires
            is_first_user(self.users@, n, i),
        ensures
            self.user_map().contains_key(n),
            self.user_map()[n] == (self.users@[i].1.role@, self.users@[i].1.pass@),
    {
        let users = self.users@;
        assert(0 <= i < users.len() && users[i].0@ == n);
        let j = choose|j: int| is_first_user(users, n, j);
        assert(is_first_user(users, n, j));
        if j < i {
            assert(users[j].0@ != n);
        }
        if i < j {
            assert(users[i].0@ != n);
        }
        assert(j == i);
    }

    /// The role titled `role`, or a configuration error `"Error > No such a role > <role>"`.
    pub fn role(&self, role: &str) -> (r: Result<Role, Error>)
        ensures
            r is Ok <==> self.role_map().contains_key(role@),
            r matches Ok(x) ==> x.title@ == role@ && x.commands() == self.role_map()[role@],
            r matches Err(e) ==> e.kind matches ErrorKind::Configuration { message } && message@
                == misconfiguration_text("No such a role > "@ + role@),
    {
        let title = String::from_str(role);
        match self.find_role(&title) {
            Some(i) => {
                proof {
                    self.lemma_first_role(role@, i as int);
                }
                let commands = self.roles[i].allowed_commands.clone();
                assert(commands.deep_view() =~= self.roles@[i as int].commands());
                Ok(Role { title, allowed_commands: commands })
            },
            None => {
                let text = String::from_str("No such a role > ").concat(role);
                misconfiguration(text.as_str())
            },
        }
    }

    pub fn has_user(&self, user: &str) -> (r: bool)
        ensures
            r == self.user_map().contains_key(user@),
    {
        let name = String::from_str(user);
        match self.find_user(&name) {
            Some(i) => {
                proof {
                    self.lemma_first_user(user@, i as int);
                }
                true
            },
            None => false,
        }
    }

    /// The account of `user`, or a configuration error `"Error > No such user > <user>"`.
    pub fn settings_for(&self, user: &str) -> (r: Result<UserSettings, Error>)
        ensures
            r is Ok <==> self.user_map().contains_key(user@),
            r matches Ok(s) ==> (s.role@, s.pass@) == self.user_map()[user@],
            r matches Err(e) ==> e.kind matches ErrorKind::Configuration { message } && message@
                == misconfiguration_text("No such user > "@ + user@),
    {
        let name = String::from_str(user);
        match self.find_user(&name) {
            Some(i) => {
                proof {
                    self.lemma_first_user(user@, i as int);
                }
                let settings = UserSettings {
                    role: self.users[i].1.role.clone(),
                    pass: self.users[i].1.pass.clone(),
                };
                Ok(settings)
            },
            None => {
                let text = String::from_str("No such user > ").concat(user);
                misconfiguration(text.as_str())
            },
        }
    }

    /// The role of `user`: fails when the user is unknown or names a role that does not exist.
    pub fn role_for(&self, user: &str) -> (r: Result<Role, Error>)
        ensures
            r is Ok <==> self.has_role_for(user@),
            r matches Ok(x) ==> x.title@ == self.user_map()[user@].0 && x.commands()
                == self.commands_for(user@),
            r matches Err(e) ==> e.kind matches ErrorKind::Configuration { message } && message@
                == self.role_for_failure(user@),
    {
        let settings = match self.settings_for(user) {
            Ok(s) => s,
            Err(e) => return Err(e),
        };
        self.role(settings.role.as_str())
    }
}

} // verus!
