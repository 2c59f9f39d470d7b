//! A finite set of strings.
use vstd::prelude::*;

verus! {

/// The texts of a list of strings, in order.
pub open spec fn texts(items: Seq<String>) -> Seq<Seq<char>> {
    items.map_values(|item: String| item@)
}

/// A finite set of strings, kept as a list. Its view is the set of the texts
/// it holds.
#[derive(Debug)]
pub struct StringSet {
    items: Vec<String>,
}

impl View for StringSet {
    type V = Set<Seq<char>>;

    closed spec fn view(&self) -> Set<Seq<char>> {
        texts(self.items@).to_set()
    }
}

impl StringSet {
    /// The empty set.
    pub fn new() -> (set: StringSet)
        ensures
            set@ == Set::<Seq<char>>::empty(),
    {
        let set = StringSet { items: Vec::new() };
        set
    }

    /// Whether `text` is in the set.
    pub fn contains(&self, text: &String) -> (found: bool)
        ensures
            found == self@.contains(text@),
    {
        let mut i: usize = 0;
        while i < self.items.len()
            invariant
                i <= self.items.len(),
                forall|j: int| 0 <= j < i ==> texts(self.items@)[j] != text@,
            decreases self.items.len() - i,
        {
            if self.items[i] == *text {
                assert(texts(self.items@)[i as int] == text@);
                return true;
            }
            i = i + 1;
        }
        false
    }

    /// Adds `text` to the set; says whether it was new.
    pub fn insert(&mut self, text: String) -> (added: bool)
        ensures
            final(self)@ == old(self)@.insert(text@),
            added == !old(self)@.contains(text@),
    {
        if self.contains(&text) {
            false
        } else {
            let ghost before = texts(self.items@);
            self.items.push(text);
            proof {
                assert(texts(self.items@) =~= before.push(text@));
                assert(texts(self.items@).to_set() =~= before.to_set().insert(text@)) by {
                    assert forall|t: Seq<char>| texts(self.items@).to_set().contains(t)
                        <==> before.to_set().insert(text@).contains(t) by {
                        if before.to_set().insert(text@).contains(t) {
                            if t == text@ {
                                assert(texts(self.items@)[before.len() as int] == t);
                            } else {
                                let j = choose|j: int| 0 <= j < before.len() && before[j] == t;
                                assert(texts(self.items@)[j] == t);
                            }
                        }
                    }
                }
            }
            true
        }
    }
}

} // verus!
