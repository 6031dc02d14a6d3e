//! Active links by connection identifier.
//!
//! The registry only keeps entries: putting an identifier that is already
//! there hands the displaced link back to the caller, and removing one hands
//! it back too; closing a link is up to whoever holds it last.
use vstd::prelude::*;

verus! {

pub open spec fn keys_unique<C>(s: Seq<(String, C)>) -> bool {
    forall|i: int, j: int| 0 <= i < j < s.len() ==> (#[trigger] s[i]).0@ != (#[trigger] s[j]).0@
}

pub open spec fn has_key<C>(s: Seq<(String, C)>, k: Seq<char>) -> bool {
    exists|i: int| 0 <= i < s.len() && (#[trigger] s[i]).0@ == k
}

/// The map that a list of entries with distinct identifiers stands for.
pub open spec fn entries_map<C>(s: Seq<(String, C)>) -> Map<Seq<char>, C> {
    Map::new(
        |k: Seq<char>| has_key(s, k),
        |k: Seq<char>| s[choose|i: int| 0 <= i < s.len() && (#[trigger] s[i]).0@ == k].1,
    )
}

proof fn lemma_entry_in_map<C>(s: Seq<(String, C)>, i: int)
    requires
        keys_unique(s),
        0 <= i < s.len(),
    ensures
        entries_map(s).contains_key(s[i].0@),
        entries_map(s)[s[i].0@] == s[i].1,
{
    let k = s[i].0@;
    assert(has_key(s, k));
    let j = choose|j: int| 0 <= j < s.len() && (#[trigger] s[j]).0@ == k;
    if j != i {
        if j < i {
            assert(s[j].0@ != s[i].0@);
        } else {
            assert(s[i].0@ != s[j].0@);
        }
    }
}

proof fn lemma_map_after_remove<C>(s: Seq<(String, C)>, i: int)
    requires
        keys_unique(s),
        0 <= i < s.len(),
    ensures
        keys_unique(s.remove(i)),
        entries_map(s.remove(i)) == entries_map(s).remove(s[i].0@),
{
    let t = s.remove(i);
    let k = s[i].0@;
    assert forall|a: int, b: int| 0 <= a < b < t.len() implies (#[trigger] t[a]).0@ != (
    #[trigger] t[b]).0@ by {
        let a0 = if a < i { a } else { a + 1 };
        let b0 = if b < i { b } else { b + 1 };
        assert(t[a] == s[a0]);
        assert(t[b] == s[b0]);
    }
    assert forall|x: Seq<char>| #[trigger] has_key(t, x) <==> has_key(s, x) && x != k by {
        if has_key(t, x) {
            let a = choose|a: int| 0 <= a < t.len() && (#[trigger] t[a]).0@ == x;
            let a0 = if a < i { a } else { a + 1 };
            assert(t[a] == s[a0]);
            assert(s[a0].0@ == x);
            if a0 < i {
                assert(s[a0].0@ != s[i].0@);
            } else {
                assert(s[i].0@ != s[a0].0@);
            }
        }
        if has_key(s, x) && x != k {
            let a0 = choose|a: int| 0 <= a < s.len() && (#[trigger] s[a]).0@ == x;
            let a = if a0 < i { a0 } else { a0 - 1 };
            assert(a0 != i);
            assert(t[a] == s[a0]);
        }
    }
    assert forall|x: Seq<char>| #[trigger] entries_map(t).contains_key(x) implies entries_map(
        t,
    )[x] == entries_map(s)[x] by {
        let a = choose|a: int| 0 <= a < t.len() && (#[trigger] t[a]).0@ == x;
        let a0 = if a < i { a } else { a + 1 };
        assert(t[a] == s[a0]);
        lemma_entry_in_map(t, a);
        lemma_entry_in_map(s, a0);
    }
    assert(entries_map(t) =~= entries_map(s).remove(k));
}

proof fn lemma_map_after_push<C>(s: Seq<(String, C)>, e: (String, C))
    requires
        keys_unique(s),
        !has_key(s, e.0@),
    ensures
        keys_unique(s.push(e)),
        entries_map(s.push(e)) == entries_map(s).insert(e.0@, e.1),
{
    let t = s.push(e);
    assert forall|a: int, b: int| 0 <= a < b < t.len() implies (#[trigger] t[a]).0@ != (
    #[trigger] t[b]).0@ by {
        assert(t[a] == s[a]);
        if b < s.len() {
            assert(t[b] == s[b]);
        }
    }
    assert forall|x: Seq<char>| #[trigger] has_key(t, x) <==> has_key(s, x) || x == e.0@ by {
        if has_key(t, x) {
            let a = choose|a: int| 0 <= a < t.len() && (#[trigger] t[a]).0@ == x;
            if a < s.len() {
                assert(t[a] == s[a]);
            }
        }
        if has_key(s, x) {
            let a = choose|a: int| 0 <= a < s.len() && (#[trigger] s[a]).0@ == x;
            assert(t[a] == s[a]);
        }
        if x == e.0@ {
            assert(t[s.len() as int] == e);
        }
    }
    assert forall|x: Seq<char>| #[trigger] entries_map(t).contains_key(x) implies entries_map(
        t,
    )[x] == entries_map(s).insert(e.0@, e.1)[x] by {
        let a = choose|a: int| 0 <= a < t.len() && (#[trigger] t[a]).0@ == x;
        lemma_entry_in_map(t, a);
        if a < s.len() {
            assert(t[a] == s[a]);
            lemma_entry_in_map(s, a);
        }
    }
    assert(entries_map(t) =~= entries_map(s).insert(e.0@, e.1));
}

/// Links by connection identifier; an identifier holds at most one link.
///
/// The entries are a list with distinct identifiers rather than a
/// `HashMap<String, _>`: vstd specifies a hash map's contents only for key
/// types it declares to obey its key model (the integer types, `bool`, ...),
/// and `String` is not one of them, so nothing about an insert or a remove on
/// such a map could be proved without assuming it. The list with its
/// invariant has the same map view, and each operation is proved on it.
pub struct LinkRegistry<C> {
    entries: Vec<(String, C)>,
}

impl<C> View for LinkRegistry<C> {
    type V = Map<Seq<char>, C>;

    closed spec fn view(&self) -> Map<Seq<char>, C> {
        entries_map(self.entries@)
    }
}

impl<C> LinkRegistry<C> {
    pub closed spec fn wf(&self) -> bool {
        keys_unique(self.entries@)
    }

    /// An empty registry.
    pub fn new() -> (r: LinkRegistry<C>)
        ensures
            r.wf(),
            r@ == Map::<Seq<char>, C>::empty(),
    {
        let r = LinkRegistry { entries: Vec::new() };
        assert(r@ =~= Map::<Seq<char>, C>::empty());
        r
    }

    fn find(&self, id: &String) -> (r: Option<usize>)
        requires
            self.wf(),
        ensures
            r matches Some(i) ==> i < self.entries@.len() && self.entries@[i as int].0@ == id@,
            r is None ==> !has_key(self.entries@, id@),
    {
        let mut i: usize = 0;
        while i < self.entries.len()
            invariant
                i <= self.entries@.len(),
                forall|j: int| 0 <= j < i ==> (#[trigger] self.entries@[j]).0@ != id@,
            decreases self.entries@.len() - i,
        {
            if self.entries[i].0 == *id {
                return Some(i);
            }
            i = i + 1;
        }
        None
    }

    /// Whether a link is registered under `id`.
    pub fn contains(&self, id: &String) -> (r: bool)
        requires
            self.wf(),
        ensures
            r == self@.contains_key(id@),
    {
        self.find(id).is_some()
    }

    /// The link registered under `id`.
    pub fn get(&self, id: &String) -> (r: Option<&C>)
        requires
            self.wf(),
        ensures
            r is Some <==> self@.contains_key(id@),
            r matches Some(c) ==> *c == self@[id@],
    {
        match self.find(id) {
            Some(i) => {
                proof {
                    lemma_entry_in_map(self.entries@, i as int);
                }
                Some(&self.entries[i].1)
            },
            None => None,
        }
    }

    /// Removes the link under `id` and hands it back.
    pub fn remove(&mut self, id: &String) -> (r: Option<C>)
        requires
            old(self).wf(),
        ensures
            final(self).wf(),
            final(self)@ == old(self)@.remove(id@),
            r is Some <==> old(self)@.contains_key(id@),
            r matches Some(c) ==> c == old(self)@[id@],
    {
        match self.find(id) {
            Some(i) => {
                proof {
                    lemma_entry_in_map(self.entries@, i as int);
                    lemma_map_after_remove(self.entries@, i as int);
                }
                let (_, c) = self.entries.remove(i);
                Some(c)
            },
            None => {
                assert(self@.remove(id@) =~= self@);
                None
            },
        }
    }

    /// Registers `client` under `id`. A link already there is replaced, not
    /// closed: it is handed back.
    pub fn put(&mut self, id: String, client: C) -> (r: Option<C>)
        requires
            old(self).wf(),
        ensures
            final(self).wf(),
            final(self)@ == old(self)@.insert(id@, client),
            r is Some <==> old(self)@.contains_key(id@),
            r matches Some(c) ==> c == old(self)@[id@],
    {
        let previous = self.remove(&id);
        proof {
            assert(!self@.contains_key(id@));
            assert(!has_key(self.entries@, id@));
            lemma_map_after_push(self.entries@, (id, client));
            assert(old(self)@.remove(id@).insert(id@, client) =~= old(self)@.insert(id@, client));
        }
        self.entries.push((id, client));
        previous
    }
}

/// Putting `b` over `a` under one identifier and then removing it leaves
/// nothing under that identifier; the second put hands `a` back, so a holder
/// of `a` keeps it.
pub proof fn lemma_replace_then_remove<C>(m: Map<Seq<char>, C>, id: Seq<char>, a: C, b: C)
    ensures
        m.insert(id, a).contains_key(id) && m.insert(id, a)[id] == a,
        m.insert(id, a).insert(id, b)[id] == b,
        !m.insert(id, a).insert(id, b).remove(id).contains_key(id),
        m.insert(id, a).insert(id, b).remove(id) == m.remove(id),
{
    assert(m.insert(id, a).insert(id, b).remove(id) =~= m.remove(id));
}

} // verus!
