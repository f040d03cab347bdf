//! The set of type names that were referred to and not yet declared.
use vstd::prelude::*;

verus! {

/// A set of type names. The names are kept in the order in which they were
/// first inserted, each once.
#[derive(Debug)]
pub struct UnresolvedSet {
    names: Vec<String>,
}

impl View for UnresolvedSet {
    type V = Set<Seq<char>>;

    closed spec fn view(&self) -> Set<Seq<char>> {
        self.texts().to_set()
    }
}

impl UnresolvedSet {
    /// The names held, in insertion order.
    pub closed spec fn texts(&self) -> Seq<Seq<char>> {
        self.names@.map_values(|name: String| name@)
    }

    /// No name is held twice.
    pub closed spec fn wf(&self) -> bool {
        self.texts().no_duplicates()
    }

    /// The empty set.
    pub fn new() -> (set: Self)
        ensures
            set.wf(),
            set@ == Set::<Seq<char>>::empty(),
            set.texts() == Seq::<Seq<char>>::empty(),
    {
        let set = UnresolvedSet { names: Vec::new() };
        assert(set.texts() =~= Seq::<Seq<char>>::empty());
        assert(set@ =~= Set::<Seq<char>>::empty());
        set
    }

    fn position(&self, name: &String) -> (found: Option<usize>)
        ensures
            match found {
                Some(i) => i < self.texts().len() && self.texts()[i as int] == name@,
                None => !self@.contains(name@),
            },
    {
        let mut i: usize = 0;
        while i < self.names.len()
            invariant
                i <= self.names@.len(),
                self.texts().len() == self.names@.len(),
                forall|j: int| 0 <= j < i ==> self.texts()[j] != name@,
            decreases self.names@.len() - i,
        {
            if self.names[i] == *name {
                return Some(i);
            }
            i += 1;
        }
        None
    }

    /// Whether `name` is in the set.
    pub fn contains(&self, name: &String) -> (found: bool)
        ensures
            found == self@.contains(name@),
    {
        self.position(name).is_some()
    }

    /// Adds `name` to the set; says whether it was new.
    pub fn insert(&mut self, name: String) -> (added: bool)
        requires
            old(self).wf(),
        ensures
            final(self).wf(),
            final(self)@ == old(self)@.insert(name@),
            added == !old(self)@.contains(name@),
            final(self).texts() == if added {
                old(self).texts().push(name@)
            } else {
                old(self).texts()
            },
    {
        match self.position(&name) {
            Some(_) => {
                assert(self@.insert(name@) =~= self@);
                false
            },
            None => {
                let ghost before = self.texts();
                self.names.push(name);
                proof {
                    assert(self.texts() =~= before.push(name@));
                    before.lemma_push_to_set_commute(name@);
                }
                true
            },
        }
    }

    /// Takes `name` out of the set; says whether it was there.
    pub fn remove(&mut self, name: &String) -> (removed: bool)
        requires
            old(self).wf(),
        ensures
            final(self).wf(),
            final(self)@ == old(self)@.remove(name@),
            removed == old(self)@.contains(name@),
    {
        match self.position(name) {
            Some(i) => {
                let ghost before = self.texts();
                self.names.remove(i);
                proof {
                    assert(self.texts() =~= before.remove(i as int));
                    assert forall|n: Seq<char>|
                        self@.contains(n) <==> before.to_set().remove(name@).contains(n) by {
                        if self@.contains(n) {
                            let j = choose|j: int| 0 <= j < self.texts().len() && self.texts()[j] == n;
                            let k = if j < i { j } else { j + 1 };
                            assert(before[k] == n);
                        }
                        if before.to_set().remove(name@).contains(n) {
                            let k = choose|k: int| 0 <= k < before.len() && before[k] == n;
                            let j = if k < i { k } else { k - 1 };
                            assert(self.texts()[j] == n);
                        }
                    }
                    assert(self@ =~= before.to_set().remove(name@));
                }
                true
            },
            None => {
                assert(self@.remove(name@) =~= self@);
                false
            },
        }
    }

    /// How many names are in the set.
    pub fn len(&self) -> (count: usize)
        requires
            self.wf(),
        ensures
            count == self@.len(),
    {
        proof {
            self.texts().unique_seq_to_set();
        }
        self.names.len()
    }

    /// Whether the set is empty.
    pub fn is_empty(&self) -> (empty: bool)
        ensures
            empty == (self@ == Set::<Seq<char>>::empty()),
    {
        let empty = self.names.len() == 0;
        proof {
            if empty {
                assert(self@ =~= Set::<Seq<char>>::empty());
            } else {
                assert(self.texts()[0] == self.names@[0]@);
                assert(self@.contains(self.texts()[0]));
            }
        }
        empty
    }

    /// The names of the set, each once, in the order of their insertion.
    pub fn names(&self) -> (list: Vec<String>)
        ensures
            list@.map_values(|name: String| name@) == self.texts(),
            list@.map_values(|name: String| name@).to_set() == self@,
    {
        let mut list: Vec<String> = Vec::new();
        let mut i: usize = 0;
        while i < self.names.len()
            invariant
                i <= self.names@.len(),
                list@ == self.names@.take(i as int),
            decreases self.names@.len() - i,
        {
            list.push(self.names[i].clone());
            assert(list@ =~= self.names@.take(i + 1));
            i += 1;
        }
        assert(list@ =~= self.names@);
        list
    }
}

} // verus!
