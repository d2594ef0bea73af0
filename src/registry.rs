use vstd::prelude::*;

use crate::handshake::registration_result;
use crate::error::StartupError;
use crate::process::ProcessRef;

verus! {

/// Whether two names are the same sequence of characters.
fn same_name(a: &str, b: &str) -> (r: bool)
    ensures
        r == (a@ == b@),
{
    let n = a.unicode_len();
    if n != b.unicode_len() {
        return false;
    }
    let mut i: usize = 0;
    while i < n
        invariant
            n == a@.len(),
            n == b@.len(),
            i <= n,
            forall|j: int| 0 <= j < i ==> a@[j] == b@[j],
        decreases n - i,
    {
        if a.get_char(i) != b.get_char(i) {
            return false;
        }
        i = i + 1;
    }
    assert(a@ =~= b@);
    true
}

/// The node-local table of unit names. Registration is a single
/// check-and-insert on exclusive access, so of two registrations of one
/// name only the first succeeds.
#[derive(Debug)]
pub struct NameRegistry {
    entries: Vec<(String, ProcessRef)>,
}

impl NameRegistry {
    /// No name is entered twice.
    pub closed spec fn wf(&self) -> bool {
        forall|i: int, j: int|
            0 <= i < j < self.entries@.len() ==> self.entries@[i].0@ != self.entries@[j].0@
    }

    /// Whether `h` is registered under `name`.
    pub closed spec fn holds(&self, name: Seq<char>, h: ProcessRef) -> bool {
        exists|i: int|
            0 <= i < self.entries@.len() && self.entries@[i].0@ == name && self.entries@[i].1 == h
    }

    /// Whether some unit is registered under `name`.
    pub open spec fn is_registered(&self, name: Seq<char>) -> bool {
        exists|h: ProcessRef| self.holds(name, h)
    }

    /// A name has at most one holder.
    pub proof fn lemma_holder_unique(&self, name: Seq<char>, h1: ProcessRef, h2: ProcessRef)
        requires
            self.wf(),
            self.holds(name, h1),
            self.holds(name, h2),
        ensures
            h1 == h2,
    {
    }

    pub fn new() -> (r: NameRegistry)
        ensures
            r.wf(),
            forall|n: Seq<char>| !r.is_registered(n),
    {
        NameRegistry { entries: Vec::new() }
    }

    /// The unit registered under `name`, if any.
    pub fn lookup(&self, name: &str) -> (r: Option<ProcessRef>)
        requires
            self.wf(),
        ensures
            match r {
                Some(h) => self.holds(name@, h),
                None => !self.is_registered(name@),
            },
    {
        let mut i: usize = 0;
        while i < self.entries.len()
            invariant
                i <= self.entries@.len(),
                forall|j: int| 0 <= j < i ==> self.entries@[j].0@ != name@,
            decreases self.entries@.len() - i,
        {
            if same_name(self.entries[i].0.as_str(), name) {
                return Some(self.entries[i].1);
            }
            i = i + 1;
        }
        None
    }

    /// Registers `candidate` under `name` unless some unit already holds the
    /// name, in which case the holder is returned and nothing changes.
    pub fn register(&mut self, name: &str, candidate: ProcessRef) -> (r: Result<ProcessRef, ProcessRef>)
        requires
            old(self).wf(),
        ensures
            registered(*old(self), *final(self), name@, candidate, r),
    {
        match self.lookup(name) {
            Some(holder) => Err(holder),
            None => {
                let ghost before = *self;
                assert forall|i: int| 0 <= i < before.entries@.len() implies before.entries@[i].0@
                    != name@ by {
                    if before.entries@[i].0@ == name@ {
                        assert(before.holds(name@, before.entries@[i].1));
                    }
                }
                let owned = String::from_str(name);
                self.entries.push((owned, candidate));
                assert forall|n: Seq<char>, h: ProcessRef| self.holds(n, h) <==> (before.holds(n, h) || (
                n == name@ && h == candidate)) by {
                    if self.holds(n, h) {
                        let i = choose|i: int|
                            0 <= i < self.entries@.len() && self.entries@[i].0@ == n
                                && self.entries@[i].1 == h;
                        if i < before.entries@.len() {
                            assert(before.entries@[i] == self.entries@[i]);
                        }
                    }
                    if before.holds(n, h) {
                        let i = choose|i: int|
                            0 <= i < before.entries@.len() && before.entries@[i].0@ == n
                                && before.entries@[i].1 == h;
                        assert(self.entries@[i] == before.entries@[i]);
                    }
                    if n == name@ && h == candidate {
                        let k = before.entries@.len() as int;
                        assert(self.entries@[k].0@ == n && self.entries@[k].1 == h);
                    }
                }
                assert(self.wf());
                Ok(candidate)
            },
        }
    }
}

/// Whether `r` and `after` are what registering `candidate` under `name` in
/// `before` gives: the holder and no change when the name is taken, else the
/// candidate, now holding the name, with every other entry kept.
pub open spec fn registered(
    before: NameRegistry,
    after: NameRegistry,
    name: Seq<char>,
    candidate: ProcessRef,
    r: Result<ProcessRef, ProcessRef>,
) -> bool {
    &&& after.wf()
    &&& if before.is_registered(name) {
        &&& r matches Err(h) && before.holds(name, h)
        &&& forall|n: Seq<char>, h: ProcessRef| after.holds(n, h) <==> before.holds(n, h)
    } else {
        &&& r == Ok::<ProcessRef, ProcessRef>(candidate)
        &&& forall|n: Seq<char>, h: ProcessRef|
            after.holds(n, h) <==> (before.holds(n, h) || (n == name && h == candidate))
    }
}

/// Of two registrations of one free name, one after the other, the first
/// succeeds and the second fails, handing back the first one's unit.
pub proof fn lemma_name_race<E>(
    r0: NameRegistry,
    r1: NameRegistry,
    r2: NameRegistry,
    name: Seq<char>,
    a: ProcessRef,
    b: ProcessRef,
    ra: Result<ProcessRef, ProcessRef>,
    rb: Result<ProcessRef, ProcessRef>,
)
    requires
        r0.wf(),
        !r0.is_registered(name),
        registered(r0, r1, name, a, ra),
        registered(r1, r2, name, b, rb),
    ensures
        registration_result::<E>(ra) == Ok::<ProcessRef, StartupError<E>>(a),
        registration_result::<E>(rb) == Err::<ProcessRef, StartupError<E>>(
            StartupError::NameAlreadyRegistered(a),
        ),
        r2.holds(name, a),
{
    assert(r1.holds(name, a));
    let h = choose|h: ProcessRef| rb == Err::<ProcessRef, ProcessRef>(h) && r1.holds(name, h);
    r1.lemma_holder_unique(name, a, h);
}

} // verus!
