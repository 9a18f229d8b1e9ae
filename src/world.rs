use vstd::prelude::*;

verus! {

/// The platform marker of extended-length paths, which locations shown to users leave out.
pub open spec fn marker() -> Seq<char> {
    seq!['\\', '\\', '?', '\\']
}

/// `s` with every occurrence of the marker removed, scanning from the left without overlaps.
pub open spec fn without_marker(s: Seq<char>) -> Seq<char>
    decreases s.len(),
{
    if s.len() == 0 {
        s
    } else if s.len() >= 4 && s.take(4) == marker() {
        without_marker(s.skip(4))
    } else {
        seq![s[0]] + without_marker(s.skip(1))
    }
}

/// Relies on str::replace, which replaces each non-overlapping match of the pattern, found
/// from the left, by the replacement (here the empty string).
#[verifier::external_body]
fn remove_marker(s: &str) -> (r: String)
    ensures
        r@ == without_marker(s@),
{
    s.replace("\\\\?\\", "")
}

/// How a location is shown to users and compared between sessions.
pub fn location_to_string(location: &str) -> (r: String)
    ensures
        r@ == without_marker(location@),
{
    remove_marker(location)
}

/// Whether two locations name the same place once shown to users.
pub fn are_locations_same(a: &str, b: &str) -> (r: bool)
    ensures
        r == (without_marker(a@) == without_marker(b@)),
{
    let string_a = location_to_string(a);
    let string_b = location_to_string(b);
    string_a == string_b
}

/// The record of one live session.
#[derive(Clone, Debug, PartialEq, Eq)]
pub struct UserRecord {
    /// `"guest"` until a login succeeds.
    pub name: String,
    /// The session's current directory.
    pub location: String,
    /// Cleared by a kill; the session ends when it sees it cleared.
    pub alive: bool,
}

/// Whether `u` is a record that a kill of `target` issued at `here` reaches.
pub open spec fn is_target(u: UserRecord, target: Seq<char>, here: Seq<char>) -> bool {
    u.name@ == target && without_marker(u.location@) == without_marker(here)
}

/// How many records of `users` a kill of `target` issued at `here` reaches.
pub open spec fn count_targets(users: Seq<UserRecord>, target: Seq<char>, here: Seq<char>) -> nat
    decreases users.len(),
{
    if users.len() == 0 {
        0
    } else {
        count_targets(users.drop_last(), target, here) + if is_target(users.last(), target, here) {
            1nat
        } else {
            0nat
        }
    }
}

proof fn lemma_count_targets_bound(users: Seq<UserRecord>, target: Seq<char>, here: Seq<char>)
    ensures
        count_targets(users, target, here) <= users.len(),
    decreases users.len(),
{
    if users.len() > 0 {
        lemma_count_targets_bound(users.drop_last(), target, here);
    }
}

/// What `who` reports of one record: its name and its location as shown to users.
pub open spec fn entry_of(u: UserRecord) -> (Seq<char>, Seq<char>) {
    (u.name@, without_marker(u.location@))
}

/// The roster of every session that has completed its handshake. Records are only ever
/// appended: a session keeps its position for as long as the world lives.
#[derive(Debug)]
pub struct World {
    users: Vec<UserRecord>,
}

impl View for World {
    type V = Seq<UserRecord>;

    closed spec fn view(&self) -> Seq<UserRecord> {
        self.users@
    }
}

impl World {
    /// Counts of records travel as `u32`, so the roster never holds more.
    pub open spec fn wf(&self) -> bool {
        self@.len() <= u32::MAX
    }

    pub fn new() -> (r: World)
        ensures
            r@ == Seq::<UserRecord>::empty(),
            r.wf(),
    {
        World { users: Vec::new() }
    }

    pub fn len(&self) -> (r: usize)
        ensures
            r == self@.len(),
    {
        self.users.len()
    }

    pub fn record(&self, index: usize) -> (r: &UserRecord)
        requires
            index < self@.len(),
        ensures
            *r == self@[index as int],
    {
        &self.users[index]
    }

    /// Appends `record` and returns its position; refuses, changing nothing, once the roster
    /// holds `u32::MAX` records.
    pub fn register(&mut self, record: UserRecord) -> (r: Option<usize>)
        ensures
            r is None <==> old(self)@.len() >= u32::MAX,
            r is None ==> final(self)@ == old(self)@,
            r matches Some(i) ==> i == old(self)@.len() && final(self)@ == old(self)@.push(record),
            old(self).wf() ==> final(self).wf(),
    {
        if self.users.len() >= 4294967295usize {
            return None;
        }
        let index = self.users.len();
        self.users.push(record);
        Some(index)
    }

    pub fn set_name(&mut self, index: usize, name: String)
        requires
            index < old(self)@.len(),
        ensures
            final(self)@ == old(self)@.update(
                index as int,
                UserRecord { name, ..old(self)@[index as int] },
            ),
    {
        self.users[index].name = name;
    }

    pub fn set_location(&mut self, index: usize, location: String)
        requires
            index < old(self)@.len(),
        ensures
            final(self)@ == old(self)@.update(
                index as int,
                UserRecord { location, ..old(self)@[index as int] },
            ),
    {
        self.users[index].location = location;
    }

    /// The (name, shown location) of every record, dead or alive, in roster order.
    pub fn collect_users(&self) -> (r: Vec<(String, String)>)
        ensures
            r@.len() == self@.len(),
            forall|i: int| 0 <= i < self@.len() ==> (#[trigger] r@[i]).0@ == entry_of(self@[i]).0
                && r@[i].1@ == entry_of(self@[i]).1,
    {
        let mut users: Vec<(String, String)> = Vec::new();
        let mut i: usize = 0;
        while i < self.users.len()
            invariant
                0 <= i <= self@.len(),
                users@.len() == i,
                forall|k: int| 0 <= k < i ==> (#[trigger] users@[k]).0@ == entry_of(self@[k]).0
                    && users@[k].1@ == entry_of(self@[k]).1,
            decreases self@.len() - i,
        {
            let name = self.users[i].name.clone();
            let location = location_to_string(self.users[i].location.as_str());
            users.push((name, location));
            i = i + 1;
        }
        users
    }

    /// Clears the liveness flag of every record named `target` whose location is the same as
    /// `here`, and returns how many there were. No record is removed.
    pub fn kill_nearby(&mut self, target: &String, here: &String) -> (count: u32)
        requires
            old(self).wf(),
        ensures
            final(self)@.len() == old(self)@.len(),
            forall|i: int| 0 <= i < old(self)@.len() ==> (#[trigger] final(self)@[i]).name == old(
                self,
            )@[i].name && final(self)@[i].location == old(self)@[i].location && final(self)@[i].alive
                == (old(self)@[i].alive && !is_target(old(self)@[i], target@, here@)),
            count as int == count_targets(old(self)@, target@, here@),
    {
        let ghost before = self.users@;
        let mut count: u32 = 0;
        let mut i: usize = 0;
        while i < self.users.len()
            invariant
                0 <= i <= before.len(),
                before.len() <= u32::MAX,
                self.users@.len() == before.len(),
                count as int == count_targets(before.take(i as int), target@, here@),
                forall|k: int| 0 <= k < before.len() ==> (#[trigger] self.users@[k]).name == before[k].name
                    && self.users@[k].location == before[k].location && self.users@[k].alive == if k
                    < i {
                    before[k].alive && !is_target(before[k], target@, here@)
                } else {
                    before[k].alive
                },
            decreases before.len() - i,
        {
            let has_same_name = self.users[i].name == *target;
            let is_nearby = are_locations_same(self.users[i].location.as_str(), here.as_str());
            assert(before.take(i + 1).drop_last() == before.take(i as int));
            proof {
                lemma_count_targets_bound(before.take(i as int), target@, here@);
            }
            if has_same_name && is_nearby {
                self.users[i].alive = false;
                count = count + 1;
            }
            i = i + 1;
        }
        assert(before.take(before.len() as int) == before);
        count
    }
}

} // verus!
