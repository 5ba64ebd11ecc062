//! The source registry: named upstreams with their base address and the
//! minimum interval between two requests sent to them.
use vstd::prelude::*;

verus! {

/// What the registry knows of one source: its base address and its minimum
/// interval between dispatches, in milliseconds.
pub type SourceEntry = (Seq<char>, u64);

/// A named upstream.
#[derive(Debug, Clone)]
pub struct Source {
    pub name: String,
    pub base_url: String,
    /// Minimum time between two dispatches to this source, in milliseconds.
    pub min_interval: u64,
}

impl Source {
    pub open spec fn entry(&self) -> SourceEntry {
        (self.base_url@, self.min_interval)
    }
}

/// The position of `name` in `s`, if any entry has that name.
pub open spec fn position_of(s: Seq<Source>, name: Seq<char>) -> Option<int> {
    if exists|i: int| 0 <= i < s.len() && #[trigger] s[i].name@ == name {
        Some(choose|i: int| 0 <= i < s.len() && #[trigger] s[i].name@ == name)
    } else {
        None
    }
}

/// No two entries of `s` share a name.
pub open spec fn names_unique(s: Seq<Source>) -> bool {
    forall|i: int, j: int|
        0 <= i < s.len() && 0 <= j < s.len() && #[trigger] s[i].name@ == #[trigger] s[j].name@
            ==> i == j
}

/// The registry `m` after registering `name`: an existing entry of that name
/// wins over the new one.
pub open spec fn registered(
    m: Map<Seq<char>, SourceEntry>,
    name: Seq<char>,
    base_url: Seq<char>,
    min_interval: u64,
) -> Map<Seq<char>, SourceEntry> {
    if m.contains_key(name) {
        m
    } else {
        m.insert(name, (base_url, min_interval))
    }
}

/// What looking `name` up in the registry `m` yields.
pub open spec fn resolved(m: Map<Seq<char>, SourceEntry>, name: Seq<char>) -> Option<SourceEntry> {
    if m.contains_key(name) {
        Some(m[name])
    } else {
        None
    }
}

/// The sources registered so far, in order of registration.
pub struct Registry {
    sources: Vec<Source>,
}

impl Registry {
    /// The registered sources, in order of registration.
    pub closed spec fn entries(&self) -> Seq<Source> {
        self.sources@
    }

    pub open spec fn wf(&self) -> bool {
        names_unique(self.entries())
    }

    /// The registry as a map from source name to its entry.
    pub open spec fn view(&self) -> Map<Seq<char>, SourceEntry> {
        Map::new(
            |n: Seq<char>| position_of(self.entries(), n) is Some,
            |n: Seq<char>| self.entries()[position_of(self.entries(), n)->Some_0].entry(),
        )
    }

    pub fn new() -> (r: Registry)
        ensures
            r.wf(),
            r.entries().len() == 0,
            r@ == Map::<Seq<char>, SourceEntry>::empty(),
    {
        let r = Registry { sources: Vec::new() };
        assert(r@ =~= Map::<Seq<char>, SourceEntry>::empty());
        r
    }

    pub fn len(&self) -> (r: usize)
        ensures
            r == self.entries().len(),
    {
        self.sources.len()
    }

    /// The source registered at position `i`.
    pub fn get(&self, i: usize) -> (r: &Source)
        requires
            i < self.entries().len(),
        ensures
            *r == self.entries()[i as int],
    {
        &self.sources[i]
    }

    /// The position of the source called `name`, or `None` if no source has
    /// that name.
    pub fn find(&self, name: &str) -> (r: Option<usize>)
        requires
            self.wf(),
        ensures
            r matches Some(i) ==> i < self.entries().len() && self.entries()[i as int].name@ == name@
                && position_of(self.entries(), name@) == Some(i as int),
            r is None <==> position_of(self.entries(), name@) is None,
    {
        let wanted = String::from_str(name);
        let mut i: usize = 0;
        while i < self.sources.len()
            invariant
                i <= self.sources@.len(),
                wanted@ == name@,
                self.wf(),
                forall|k: int| 0 <= k < i ==> #[trigger] self.sources@[k].name@ != name@,
            decreases self.sources@.len() - i,
        {
            if self.sources[i].name == wanted {
                assert(self.entries()[i as int].name@ == name@);
                let ghost p = position_of(self.entries(), name@);
                assert(p is Some);
                assert(self.entries()[p->Some_0].name@ == name@);
                assert(p->Some_0 == i as int);
                return Some(i);
            }
            i = i + 1;
        }
        assert(position_of(self.entries(), name@) is None);
        None
    }

    /// Adds a source called `name` unless one of that name exists already, in
    /// which case nothing changes. Returns whether the source was added.
    pub fn register(&mut self, name: &str, base_url: &str, min_interval: u64) -> (added: bool)
        requires
            old(self).wf(),
        ensures
            final(self).wf(),
            added == !old(self)@.contains_key(name@),
            added ==> final(self).entries().len() == old(self).entries().len() + 1
                && final(self).entries().drop_last() == old(self).entries()
                && final(self).entries().last().name@ == name@
                && final(self).entries().last().entry() == (base_url@, min_interval),
            !added ==> final(self).entries() == old(self).entries(),
            forall|n: Seq<char>|
                n != name@ ==> position_of(final(self).entries(), n) == position_of(
                    old(self).entries(),
                    n,
                ),
            added ==> position_of(final(self).entries(), name@) == Some(
                old(self).entries().len() as int,
            ),
            final(self)@ == registered(old(self)@, name@, base_url@, min_interval),
    {
        if self.find(name).is_some() {
            return false;
        }
        let s = Source {
            name: String::from_str(name),
            base_url: String::from_str(base_url),
            min_interval,
        };
        let ghost before = self.entries();
        self.sources.push(s);
        proof {
            let after = self.entries();
            assert(after.len() == before.len() + 1);
            assert forall|i: int, j: int|
                0 <= i < after.len() && 0 <= j < after.len() && #[trigger] after[i].name@
                    == #[trigger] after[j].name@ implies i == j by {
                if i < before.len() && j < before.len() {
                    assert(before[i] == after[i] && before[j] == after[j]);
                } else if i < before.len() {
                    assert(before[i] == after[i]);
                } else if j < before.len() {
                    assert(before[j] == after[j]);
                }
            }
            lemma_position_after_push(before, s);
            assert(self@ =~= registered(old(self)@, name@, base_url@, min_interval));
        }
        true
    }
}

proof fn lemma_position_after_push(before: Seq<Source>, s: Source)
    requires
        names_unique(before),
        names_unique(before.push(s)),
        position_of(before, s.name@) is None,
    ensures
        forall|n: Seq<char>| n != s.name@ ==> position_of(before.push(s), n) == position_of(before, n),
        position_of(before.push(s), s.name@) == Some(before.len() as int),
{
    let after = before.push(s);
    assert(after[before.len() as int] == s);
    assert forall|n: Seq<char>| n != s.name@ implies position_of(after, n) == position_of(before, n) by {
        if position_of(before, n) is Some {
            let i = position_of(before, n)->Some_0;
            assert(after[i] == before[i]);
            let j = position_of(after, n)->Some_0;
            assert(after[j].name@ == n);
        } else {
            if position_of(after, n) is Some {
                let j = position_of(after, n)->Some_0;
                assert(after[j] == before[j]);
            }
        }
    }
}

} // verus!
