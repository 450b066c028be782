use vstd::prelude::*;

verus! {

/// One attribute as text: its name and its value.
pub type AttrView = (Seq<char>, Seq<char>);

/// No attribute name occurs twice in `s`.
pub open spec fn keys_unique(s: Seq<AttrView>) -> bool {
    forall|i: int, j: int| 0 <= i < s.len() && 0 <= j < s.len() && i != j ==> #[trigger] s[i].0 != #[trigger] s[j].0
}

/// The position of the entry named `k` in `s`, or -1 where there is none.
/// (With unique names there is at most one such position.)
pub open spec fn key_index(s: Seq<AttrView>, k: Seq<char>) -> int
    decreases s.len(),
{
    if s.len() == 0 {
        -1
    } else if s.last().0 == k {
        s.len() - 1
    } else {
        key_index(s.drop_last(), k)
    }
}

/// The value stored under `k`, if any.
pub open spec fn lookup(s: Seq<AttrView>, k: Seq<char>) -> Option<Seq<char>> {
    let i = key_index(s, k);
    if 0 <= i { Some(s[i].1) } else { None }
}

/// `s` after storing `v` under `k`: an existing entry keeps its place and
/// takes the new value, a new name goes to the end.
pub open spec fn store(s: Seq<AttrView>, k: Seq<char>, v: Seq<char>) -> Seq<AttrView> {
    let i = key_index(s, k);
    if 0 <= i { s.update(i, (k, v)) } else { s.push((k, v)) }
}

/// The entries as a map from name to value, stored one after the other
/// (a later entry of the same name replacing an earlier one).
pub open spec fn as_map(s: Seq<AttrView>) -> Map<Seq<char>, Seq<char>>
    decreases s.len(),
{
    if s.len() == 0 {
        Map::empty()
    } else {
        as_map(s.drop_last()).insert(s.last().0, s.last().1)
    }
}

/// The position found for a name is in range and holds that name; there is
/// none exactly where no entry has that name.
pub proof fn lemma_key_index(s: Seq<AttrView>, k: Seq<char>)
    ensures
        -1 <= key_index(s, k) < s.len(),
        key_index(s, k) >= 0 ==> s[key_index(s, k)].0 == k,
        key_index(s, k) == -1 <==> (forall|i: int| 0 <= i < s.len() ==> #[trigger] s[i].0 != k),
    decreases s.len(),
{
    if s.len() > 0 {
        lemma_key_index(s.drop_last(), k);
        if s.last().0 != k {
            assert forall|i: int| 0 <= i < s.len() - 1 implies #[trigger] s[i].0 == s.drop_last()[i].0 by {}
        }
    }
}

/// Storing under a name that does not occur appends the entry.
pub proof fn lemma_store_new(s: Seq<AttrView>, k: Seq<char>, v: Seq<char>)
    requires
        forall|i: int| 0 <= i < s.len() ==> #[trigger] s[i].0 != k,
    ensures
        store(s, k, v) == s.push((k, v)),
{
    lemma_key_index(s, k);
}

/// With unique names, the entry found for `k` is the only one named `k`.
pub proof fn lemma_key_index_unique(s: Seq<AttrView>, k: Seq<char>, j: int)
    requires
        keys_unique(s),
        0 <= j < s.len(),
        s[j].0 == k,
    ensures
        key_index(s, k) == j,
{
    lemma_key_index(s, k);
}

/// Storing `v` under `k` keeps the names unique; afterwards `k` gives `v`,
/// every other name gives what it gave before, and the number of entries
/// grows by one exactly where `k` was new.
pub proof fn lemma_store(s: Seq<AttrView>, k: Seq<char>, v: Seq<char>)
    requires
        keys_unique(s),
    ensures
        keys_unique(store(s, k, v)),
        lookup(store(s, k, v), k) == Some(v),
        forall|k2: Seq<char>| k2 != k ==> #[trigger] lookup(store(s, k, v), k2) == lookup(s, k2),
        store(s, k, v).len() == if lookup(s, k) is Some { s.len() } else { s.len() + 1 },
{
    lemma_key_index(s, k);
    let t = store(s, k, v);
    assert forall|i: int, j: int| 0 <= i < t.len() && 0 <= j < t.len() && i != j implies #[trigger] t[i].0 != #[trigger] t[j].0 by {}
    lemma_key_index(t, k);
    if key_index(s, k) >= 0 {
        lemma_key_index_unique(t, k, key_index(s, k));
    } else {
        lemma_key_index_unique(t, k, s.len() as int);
    }
    assert forall|k2: Seq<char>| k2 != k implies #[trigger] lookup(t, k2) == lookup(s, k2) by {
        lemma_key_index(s, k2);
        lemma_key_index(t, k2);
        if key_index(s, k2) >= 0 {
            lemma_key_index_unique(t, k2, key_index(s, k2));
        } else {
            if key_index(t, k2) >= 0 {
                let j = key_index(t, k2);
                assert(s[j].0 == k2);
            }
        }
    }
}

/// An ordered set of attributes (name and value, both text) in which no name
/// occurs twice: storing under a name that is present replaces its value.
#[derive(Clone, Debug)]
pub struct Attributes {
    entries: Vec<(String, String)>,
}

impl View for Attributes {
    type V = Seq<AttrView>;

    closed spec fn view(&self) -> Seq<AttrView> {
        self.entries@.map_values(|e: (String, String)| (e.0@, e.1@))
    }
}

impl Attributes {
    /// Well-formed: no name occurs twice.
    pub open spec fn wf(&self) -> bool {
        keys_unique(self@)
    }

    /// No attributes at all.
    pub fn new() -> (r: Attributes)
        ensures
            r.wf(),
            r@ == Seq::<AttrView>::empty(),
    {
        let r = Attributes { entries: Vec::new() };
        assert(r@ =~= Seq::<AttrView>::empty());
        r
    }

    /// The number of attributes.
    pub fn len(&self) -> (n: usize)
        ensures
            n == self@.len(),
    {
        self.entries.len()
    }

    /// Whether there are no attributes.
    pub fn is_empty(&self) -> (b: bool)
        ensures
            b == (self@.len() == 0),
    {
        self.entries.len() == 0
    }

    /// The name of the entry at position `i`.
    pub fn key_at(&self, i: usize) -> (k: &String)
        requires
            i < self@.len(),
        ensures
            k@ == self@[i as int].0,
    {
        &self.entries[i].0
    }

    /// The value of the entry at position `i`.
    pub fn value_at(&self, i: usize) -> (v: &String)
        requires
            i < self@.len(),
        ensures
            v@ == self@[i as int].1,
    {
        &self.entries[i].1
    }

    /// The position of the entry named `key`, if any.
    fn position(&self, key: &String) -> (r: Option<usize>)
        requires
            self.wf(),
        ensures
            r is Some <==> key_index(self@, key@) >= 0,
            r is Some ==> r->0 == key_index(self@, key@) && r->0 < self@.len(),
    {
        proof {
            lemma_key_index(self@, key@);
        }
        let mut i: usize = 0;
        while i < self.entries.len()
            invariant
                i <= self.entries@.len(),
                keys_unique(self@),
                self@.len() == self.entries@.len(),
                forall|j: int| 0 <= j < i ==> #[trigger] self@[j].0 != key@,
            decreases self.entries@.len() - i,
        {
            if self.entries[i].0 == *key {
                proof {
                    lemma_key_index_unique(self@, key@, i as int);
                }
                return Some(i);
            }
            i = i + 1;
        }
        proof {
            lemma_key_index(self@, key@);
        }
        None
    }

    /// The value stored under `key`, if any.
    pub fn get(&self, key: &String) -> (r: Option<&String>)
        requires
            self.wf(),
        ensures
            r is Some <==> lookup(self@, key@) is Some,
            r is Some ==> r->0@ == lookup(self@, key@)->0,
    {
        proof {
            lemma_key_index(self@, key@);
        }
        match self.position(key) {
            Some(i) => {
                assert(self@[i as int].1 == self.entries@[i as int].1@);
                Some(&self.entries[i].1)
            },
            None => None,
        }
    }

    /// Stores `value` under `key`: a present name keeps its place and takes the
    /// new value, a new name is added at the end.
    pub fn insert(&mut self, key: String, value: String)
        requires
            old(self).wf(),
        ensures
            final(self).wf(),
            final(self)@ == store(old(self)@, key@, value@),
    {
        proof {
            lemma_store(self@, key@, value@);
            lemma_key_index(self@, key@);
        }
        let ghost k = key@;
        let ghost v = value@;
        let ghost before = self@;
        match self.position(&key) {
            Some(i) => {
                let mut entries: Vec<(String, String)> = Vec::new();
                std::mem::swap(&mut entries, &mut self.entries);
                entries.set(i, (key, value));
                proof {
                    assert(entries@.map_values(|e: (String, String)| (e.0@, e.1@)) =~= store(before, k, v));
                }
                self.entries = entries;
            },
            None => {
                let mut entries: Vec<(String, String)> = Vec::new();
                std::mem::swap(&mut entries, &mut self.entries);
                entries.push((key, value));
                proof {
                    assert(entries@.map_values(|e: (String, String)| (e.0@, e.1@)) =~= store(before, k, v));
                }
                self.entries = entries;
            },
        }
    }
}

} // verus!
