//! The set of flags that are enabled in one namespace.

use crate::unstr::text_bytes;
use vstd::prelude::*;
use vstd::utf8::*;

verus! {

/// The texts of a list of strings, in the order of the list.
pub open spec fn texts(items: Seq<String>) -> Seq<Seq<char>> {
    items.map_values(|item: String| item@)
}

/// Whether two strings hold the same text.
pub fn same_text(a: &str, b: &str) -> (same: bool)
    ensures
        same == (a@ == b@),
{
    let x = a.as_bytes();
    let y = b.as_bytes();
    proof {
        encode_utf8_decode_utf8(a@);
        encode_utf8_decode_utf8(b@);
    }
    if x.len() != y.len() {
        return false;
    }
    let mut i: usize = 0;
    while i < x.len()
        invariant
            i <= x.len(),
            x.len() == y.len(),
            x@ == text_bytes(a@),
            y@ == text_bytes(b@),
            forall|k: int| 0 <= k < i ==> x@[k] == y@[k],
        decreases x.len() - i,
    {
        if x[i] != y[i] {
            return false;
        }
        i += 1;
    }
    proof {
        assert(x@ =~= y@);
    }
    true
}

/// A set of flags. Membership means that the flag is enabled; a flag that
/// is not a member is disabled, and nothing else is recorded of it.
pub struct FlagSet {
    items: Vec<String>,
}

impl View for FlagSet {
    type V = Set<Seq<char>>;

    closed spec fn view(&self) -> Set<Seq<char>> {
        texts(self.items@).to_set()
    }
}

impl FlagSet {
    #[verifier::type_invariant]
    closed spec fn distinct(&self) -> bool {
        texts(self.items@).no_duplicates()
    }

    /// The empty set.
    pub fn new() -> (set: FlagSet)
        ensures
            set@ == Set::<Seq<char>>::empty(),
    {
        let set = FlagSet { items: Vec::new() };
        proof {
            assert(texts(set.items@) =~= Seq::<Seq<char>>::empty());
            assert(set@ =~= Set::<Seq<char>>::empty());
        }
        set
    }

    /// Where `flag` stands among the items, if it is a member.
    fn position(&self, flag: &str) -> (at: Option<usize>)
        ensures
            match at {
                Some(i) => i < self.items.len() && self.items[i as int]@ == flag@,
                None => !self@.contains(flag@),
            },
            at is Some <==> self@.contains(flag@),
    {
        let mut i: usize = 0;
        while i < self.items.len()
            invariant
                i <= self.items.len(),
                forall|k: int| 0 <= k < i ==> self.items[k]@ != flag@,
            decreases self.items.len() - i,
        {
            if same_text(self.items[i].as_str(), flag) {
                proof {
                    assert(texts(self.items@)[i as int] == flag@);
                }
                return Some(i);
            }
            i += 1;
        }
        proof {
            if self@.contains(flag@) {
                let k = choose|k: int|
                    0 <= k < texts(self.items@).len() && texts(self.items@)[k] == flag@;
                assert(self.items[k]@ == flag@);
            }
        }
        None
    }

    /// Whether `flag` is a member.
    pub fn contains(&self, flag: &str) -> (member: bool)
        ensures
            member == self@.contains(flag@),
    {
        self.position(flag).is_some()
    }

    /// The number of members.
    pub fn len(&self) -> (n: usize)
        ensures
            n == self@.len(),
            self@.finite(),
    {
        proof {
            use_type_invariant(self);
            texts(self.items@).unique_seq_to_set();
        }
        self.items.len()
    }

    /// Whether the set has no member.
    pub fn is_empty(&self) -> (empty: bool)
        ensures
            empty == (self@ == Set::<Seq<char>>::empty()),
    {
        proof {
            use_type_invariant(self);
            texts(self.items@).unique_seq_to_set();
            if self.items.len() == 0 {
                assert(self@ =~= Set::<Seq<char>>::empty());
            }
        }
        self.items.len() == 0
    }

    /// Makes `flag` a member. Returns whether it was none before.
    pub fn insert(&mut self, flag: String) -> (added: bool)
        ensures
            final(self)@ == old(self)@.insert(flag@),
            added == !old(self)@.contains(flag@),
    {
        proof {
            use_type_invariant(&*self);
        }
        match self.position(flag.as_str()) {
            Some(_) => {
                proof {
                    assert(self@.insert(flag@) =~= self@);
                }
                false
            },
            None => {
                let ghost before = self.items@;
                let mut items: Vec<String> = Vec::new();
                proof {
                    assert(texts(items@) =~= Seq::<Seq<char>>::empty());
                }
                std::mem::swap(&mut items, &mut self.items);
                items.push(flag);
                proof {
                    assert(texts(items@) =~= texts(before).push(flag@));
                    lemma_push_to_set(texts(before), flag@);
                }
                self.items = items;
                true
            },
        }
    }

    /// Makes `flag` no member. Returns whether it was one before.
    pub fn remove(&mut self, flag: &str) -> (removed: bool)
        ensures
            final(self)@ == old(self)@.remove(flag@),
            removed == old(self)@.contains(flag@),
    {
        proof {
            use_type_invariant(&*self);
        }
        match self.position(flag) {
            Some(i) => {
                let ghost before = self.items@;
                let mut items: Vec<String> = Vec::new();
                proof {
                    assert(texts(items@) =~= Seq::<Seq<char>>::empty());
                }
                std::mem::swap(&mut items, &mut self.items);
                items.remove(i);
                proof {
                    assert(texts(items@) =~= texts(before).remove(i as int));
                    lemma_remove_to_set(texts(before), i as int);
                }
                self.items = items;
                true
            },
            None => {
                proof {
                    assert(self@.remove(flag@) =~= self@);
                }
                false
            },
        }
    }

    /// The members as a list, each once, in no order that a caller may rely
    /// on.
    pub fn to_vec(&self) -> (list: Vec<String>)
        ensures
            texts(list@).no_duplicates(),
            texts(list@).to_set() == self@,
            list@.len() == self@.len(),
    {
        proof {
            use_type_invariant(self);
            texts(self.items@).unique_seq_to_set();
        }
        let mut list: Vec<String> = Vec::new();
        let mut i: usize = 0;
        while i < self.items.len()
            invariant
                i <= self.items.len(),
                list@.len() == i,
                forall|k: int| 0 <= k < i ==> list@[k]@ == self.items@[k]@,
            decreases self.items.len() - i,
        {
            list.push(self.items[i].clone());
            i += 1;
        }
        proof {
            assert(texts(list@) =~= texts(self.items@));
        }
        list
    }

    /// A copy of the set, which later changes of this one do not reach.
    pub fn snapshot(&self) -> (copy: FlagSet)
        ensures
            copy@ == self@,
    {
        let list = self.to_vec();
        FlagSet { items: list }
    }

    /// The set of the strings in `list`, however often each occurs there.
    pub fn from_vec(list: Vec<String>) -> (set: FlagSet)
        ensures
            set@ == texts(list@).to_set(),
    {
        let mut set = FlagSet::new();
        let mut i: usize = 0;
        while i < list.len()
            invariant
                i <= list.len(),
                set@ == texts(list@).take(i as int).to_set(),
            decreases list.len() - i,
        {
            let ghost before = set@;
            set.insert(list[i].clone());
            proof {
                assert(texts(list@).take(i + 1) =~= texts(list@).take(i as int).push(list@[i as int]@));
                lemma_push_to_set(texts(list@).take(i as int), list@[i as int]@);
            }
            i += 1;
        }
        proof {
            assert(texts(list@).take(list.len() as int) =~= texts(list@));
        }
        set
    }
}

/// The set of a sequence with one more item is the set of the sequence with
/// that item added.
pub proof fn lemma_push_to_set<A>(s: Seq<A>, a: A)
    ensures
        s.push(a).to_set() == s.to_set().insert(a),
{
    assert forall|x: A| s.push(a).to_set().contains(x) <==> s.to_set().insert(a).contains(x) by {
        if s.push(a).contains(x) {
            let k = choose|k: int| 0 <= k < s.push(a).len() && s.push(a)[k] == x;
            if k < s.len() {
                assert(s[k] == x);
            }
        }
        if s.to_set().insert(a).contains(x) {
            if x == a {
                assert(s.push(a)[s.len() as int] == a);
            } else {
                let k = choose|k: int| 0 <= k < s.len() && s[k] == x;
                assert(s.push(a)[k] == x);
            }
        }
    }
    assert(s.push(a).to_set() =~= s.to_set().insert(a));
}

/// Taking one item out of a sequence that holds nothing twice takes it out
/// of the sequence's set, and what is left holds nothing twice.
pub proof fn lemma_remove_to_set<A>(s: Seq<A>, i: int)
    requires
        s.no_duplicates(),
        0 <= i < s.len(),
    ensures
        s.remove(i).no_duplicates(),
        s.remove(i).to_set() == s.to_set().remove(s[i]),
{
    let r = s.remove(i);
    assert forall|j: int, k: int| 0 <= j < r.len() && 0 <= k < r.len() && j != k implies r[j]
        != r[k] by {
        let j0 = if j < i { j } else { j + 1 };
        let k0 = if k < i { k } else { k + 1 };
        assert(r[j] == s[j0] && r[k] == s[k0]);
    }
    assert forall|x: A| r.to_set().contains(x) <==> s.to_set().remove(s[i]).contains(x) by {
        if r.contains(x) {
            let k = choose|k: int| 0 <= k < r.len() && r[k] == x;
            let k0 = if k < i { k } else { k + 1 };
            assert(s[k0] == x);
        }
        if s.to_set().remove(s[i]).contains(x) {
            let k = choose|k: int| 0 <= k < s.len() && s[k] == x;
            let k1 = if k < i { k } else { k - 1 };
            assert(r[k1] == x);
        }
    }
    assert(r.to_set() =~= s.to_set().remove(s[i]));
}

} // verus!
