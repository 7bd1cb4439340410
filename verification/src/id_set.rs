use vstd::prelude::*;

verus! {

/// The ids that a list of strings spells.
pub open spec fn spelled(ids: Seq<String>) -> Set<Seq<char>> {
    Set::new(|s: Seq<char>| exists|i: int| 0 <= i < ids.len() && #[trigger] ids[i]@ == s)
}

proof fn lemma_spelled_push(ids: Seq<String>, x: String)
    ensures
        spelled(ids.push(x)) == spelled(ids).insert(x@),
{
    let pushed = ids.push(x);
    assert forall|s: Seq<char>| #[trigger] spelled(pushed).contains(s) == spelled(ids).insert(x@).contains(s) by {
        if spelled(ids).contains(s) {
            let i: int = choose|i: int| 0 <= i < ids.len() && #[trigger] ids[i]@ == s;
            assert(pushed[i]@ == s);
        }
        if s == x@ {
            assert(pushed[ids.len() as int]@ == s);
        }
        if spelled(pushed).contains(s) {
            let i: int = choose|i: int| 0 <= i < pushed.len() && #[trigger] pushed[i]@ == s;
            if i < ids.len() {
                assert(ids[i]@ == s);
            }
        }
    }
    assert(spelled(pushed) =~= spelled(ids).insert(x@));
}

proof fn lemma_spelled_empty(ids: Seq<String>)
    requires
        ids.len() == 0,
    ensures
        spelled(ids) == Set::<Seq<char>>::empty(),
{
    assert(spelled(ids) =~= Set::<Seq<char>>::empty());
}

/// A set of item ids, kept as a list of owned strings.
///
/// The set is what the list spells: an id is a member when some entry of the
/// list equals it.  Membership tests compare whole strings.  A list is used
/// rather than `std::collections::HashSet<String>`: vstd specifies a hash
/// set's operations only for keys that obey its key model, which it
/// establishes for integers and `bool` but not for `String`.
pub struct IdSet {
    ids: Vec<String>,
}

impl View for IdSet {
    type V = Set<Seq<char>>;

    closed spec fn view(&self) -> Set<Seq<char>> {
        spelled(self.ids@)
    }
}

impl IdSet {
    /// The empty set.
    pub fn new() -> (set: IdSet)
        ensures
            set@ == Set::<Seq<char>>::empty(),
    {
        let set = IdSet { ids: Vec::new() };
        proof {
            lemma_spelled_empty(set.ids@);
        }
        set
    }

    /// Whether `id` is a member.
    pub fn contains(&self, id: &str) -> (found: bool)
        ensures
            found == self@.contains(id@),
    {
        let key = id.to_owned();
        let n = self.ids.len();
        for i in 0..n
            invariant
                n == self.ids@.len(),
                key@ == id@,
                forall|j: int| 0 <= j < i ==> #[trigger] self.ids@[j]@ != id@,
        {
            if self.ids[i] == key {
                assert(self.ids@[i as int]@ == id@);
                return true;
            }
        }
        false
    }

    /// Adds `id`; a member that is there already stays once.
    pub fn insert(&mut self, id: &str)
        ensures
            final(self)@ == old(self)@.insert(id@),
    {
        if !self.contains(id) {
            let owned = id.to_owned();
            proof {
                lemma_spelled_push(self.ids@, owned);
            }
            self.ids.push(owned);
        } else {
            assert(old(self)@.insert(id@) =~= old(self)@);
        }
    }

    /// Removes `id`, wherever the list spells it.
    pub fn remove(&mut self, id: &str)
        ensures
            final(self)@ == old(self)@.remove(id@),
    {
        let key = id.to_owned();
        let mut kept: Vec<String> = Vec::new();
        let n = self.ids.len();
        proof {
            lemma_spelled_empty(kept@);
            lemma_spelled_empty(self.ids@.take(0));
            assert(spelled(kept@) =~= spelled(self.ids@.take(0)).remove(id@));
        }
        for i in 0..n
            invariant
                n == self.ids@.len(),
                key@ == id@,
                spelled(kept@) == spelled(self.ids@.take(i as int)).remove(id@),
        {
            let entry = &self.ids[i];
            proof {
                assert(self.ids@.take(i + 1) == self.ids@.take(i as int).push(*entry));
                lemma_spelled_push(self.ids@.take(i as int), *entry);
            }
            if !(*entry == key) {
                let copy = entry.clone();
                proof {
                    lemma_spelled_push(kept@, copy);
                }
                kept.push(copy);
                assert(spelled(kept@) =~= spelled(self.ids@.take(i + 1)).remove(id@));
            } else {
                assert(spelled(kept@) =~= spelled(self.ids@.take(i + 1)).remove(id@));
            }
        }
        assert(self.ids@.take(n as int) == self.ids@);
        self.ids = kept;
    }

    /// Empties the set.
    pub fn clear(&mut self)
        ensures
            final(self)@ == Set::<Seq<char>>::empty(),
    {
        self.ids = Vec::new();
        proof {
            lemma_spelled_empty(self.ids@);
        }
    }
}

} // verus!
