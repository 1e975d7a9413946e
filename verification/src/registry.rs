//! The room registry: the set of names that active sessions hold.

use vstd::prelude::*;

verus! {

/// Whether a registry with the names `active` admits `name`: the name is
/// not empty and nobody holds it.
pub open spec fn admits(active: Set<Seq<char>>, name: Seq<char>) -> bool {
    name.len() > 0 && !active.contains(name)
}

/// The names held after a join attempt under `name`.
pub open spec fn after_join(active: Set<Seq<char>>, name: Seq<char>) -> Set<Seq<char>> {
    if admits(active, name) {
        active.insert(name)
    } else {
        active
    }
}

/// One request to a registry.
pub enum RegistryOp {
    /// A join attempt under a name.
    Join(Seq<char>),
    /// The release of a name.
    Leave(Seq<char>),
}

/// The names held after one request.
pub open spec fn after_op(active: Set<Seq<char>>, op: RegistryOp) -> Set<Seq<char>> {
    match op {
        RegistryOp::Join(name) => after_join(active, name),
        RegistryOp::Leave(name) => active.remove(name),
    }
}

/// How many of the join attempts under `name` among `ops` succeed when the
/// requests are served in order, starting from the names `active`.
pub open spec fn joins_admitted(active: Set<Seq<char>>, ops: Seq<RegistryOp>, name: Seq<char>) -> nat
    decreases ops.len(),
{
    if ops.len() == 0 {
        0
    } else {
        let first: nat = if ops[0] == RegistryOp::Join(name) && admits(active, name) {
            1
        } else {
            0
        };
        first + joins_admitted(after_op(active, ops[0]), ops.drop_first(), name)
    }
}

/// A name has one holder at most: however join attempts and releases are
/// ordered, as long as nobody releases `name`, at most one join attempt under
/// it succeeds, and none does while somebody holds it.
pub proof fn name_joins_at_most_once(active: Set<Seq<char>>, ops: Seq<RegistryOp>, name: Seq<char>)
    requires
        forall|i: int| 0 <= i < ops.len() ==> ops[i] != RegistryOp::Leave(name),
    ensures
        joins_admitted(active, ops, name) <= 1,
        active.contains(name) ==> joins_admitted(active, ops, name) == 0,
    decreases ops.len(),
{
    if ops.len() > 0 {
        let rest = ops.drop_first();
        assert forall|i: int| 0 <= i < rest.len() implies rest[i] != RegistryOp::Leave(name) by {
            assert(rest[i] == ops[i + 1]);
        }
        name_joins_at_most_once(after_op(active, ops[0]), rest, name);
    }
}

/// The names that are held by active sessions, each at most once.
pub struct Registry {
    names: Vec<String>,
}

impl View for Registry {
    type V = Set<Seq<char>>;

    closed spec fn view(&self) -> Set<Seq<char>> {
        Set::new(|name: Seq<char>| self.holds(name))
    }
}

impl Registry {
    spec fn holds(&self, name: Seq<char>) -> bool {
        exists|i: int| 0 <= i < self.names@.len() && #[trigger] self.names@[i]@ == name
    }

    #[verifier::type_invariant]
    spec fn distinct(&self) -> bool {
        forall|i: int, j: int|
            0 <= i < j < self.names@.len() ==> #[trigger] self.names@[i]@ != #[trigger] self.names@[j]@
    }

    /// The registry of an empty room.
    pub fn new() -> (registry: Registry)
        ensures
            registry@ == Set::<Seq<char>>::empty(),
    {
        let registry = Registry { names: Vec::new() };
        assert(registry@ =~= Set::<Seq<char>>::empty());
        registry
    }

    /// Where `name` stands among the names, if it is held.
    fn position(&self, name: &String) -> (at: Option<usize>)
        ensures
            match at {
                Some(i) => i < self.names@.len() && self.names@[i as int]@ == name@,
                None => !self.holds(name@),
            },
    {
        let mut i: usize = 0;
        while i < self.names.len()
            invariant
                i <= self.names@.len(),
                forall|k: int| 0 <= k < i ==> #[trigger] self.names@[k]@ != name@,
            decreases self.names@.len() - i,
        {
            if self.names[i] == *name {
                return Some(i);
            }
            i += 1;
        }
        None
    }

    /// Whether a session holds `name`.
    pub fn contains(&self, name: &str) -> (held: bool)
        ensures
            held == self@.contains(name@),
    {
        self.position(&name.to_owned()).is_some()
    }

    /// Takes `name` for a new session if it is not empty and nobody holds
    /// it, and says whether it did. A rejected attempt changes nothing.
    pub fn try_join(&mut self, name: &str) -> (joined: bool)
        ensures
            joined == admits(old(self)@, name@),
            final(self)@ == after_join(old(self)@, name@),
    {
        let owned = name.to_owned();
        if name.is_empty() {
            return false;
        }
        match self.position(&owned) {
            Some(_) => false,
            None => {
                proof {
                    use_type_invariant(&*self);
                }
                let ghost before = self.names@;
                let mut names: Vec<String> = Vec::new();
                core::mem::swap(&mut self.names, &mut names);
                names.push(owned);
                self.names = names;
                proof {
                    assert forall|n: Seq<char>| #[trigger]
                        final(self)@.contains(n) == old(self)@.insert(name@).contains(n) by {
                        if n == name@ {
                            assert(self.names@[before.len() as int]@ == n);
                        } else if old(self).holds(n) {
                            let i = choose|i: int|
                                0 <= i < before.len() && #[trigger] before[i]@ == n;
                            assert(self.names@[i]@ == n);
                        } else if self.holds(n) {
                            let i = choose|i: int|
                                0 <= i < self.names@.len() && #[trigger] self.names@[i]@ == n;
                            assert(before[i]@ == n);
                        }
                    }
                    assert(final(self)@ =~= old(self)@.insert(name@));
                }
                true
            },
        }
    }

    /// Gives `name` up. Where nobody holds it, nothing changes.
    pub fn leave(&mut self, name: &str)
        ensures
            final(self)@ == old(self)@.remove(name@),
    {
        let owned = name.to_owned();
        match self.position(&owned) {
            Some(at) => {
                proof {
                    use_type_invariant(&*self);
                }
                let ghost before = self.names@;
                let mut names: Vec<String> = Vec::new();
                core::mem::swap(&mut self.names, &mut names);
                names.remove(at);
                self.names = names;
                proof {
                    assert forall|n: Seq<char>| #[trigger]
                        final(self)@.contains(n) == old(self)@.remove(name@).contains(n) by {
                        if self.holds(n) {
                            let i = choose|i: int|
                                0 <= i < self.names@.len() && #[trigger] self.names@[i]@ == n;
                            let k = if i < at { i } else { i + 1 };
                            assert(before[k]@ == n);
                            assert(n != name@);
                        } else if n != name@ && old(self).holds(n) {
                            let k = choose|k: int|
                                0 <= k < before.len() && #[trigger] before[k]@ == n;
                            let i = if k < at { k } else { k - 1 };
                            assert(self.names@[i]@ == n);
                        }
                    }
                    assert(final(self)@ =~= old(self)@.remove(name@));
                }
            },
            None => {
                assert(final(self)@ =~= old(self)@.remove(name@));
            },
        }
    }
}

} // verus!
