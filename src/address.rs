use vstd::prelude::*;

verus! {

/// An IP address, held as its numeric value.
#[derive(PartialEq, Eq, Structural, Clone, Copy, Debug, Hash)]
pub enum Address {
    V4(u32),
    V6(u128),
}

impl Address {
    pub fn is_ipv6(&self) -> (r: bool)
        ensures
            r == (*self is V6),
    {
        match self {
            Address::V4(_) => false,
            Address::V6(_) => true,
        }
    }
}

/// The addresses tied to a domain at one point in time: no address occurs twice.
#[derive(Debug)]
pub struct AddressSet {
    items: Vec<Address>,
}

impl View for AddressSet {
    type V = Set<Address>;

    closed spec fn view(&self) -> Set<Address> {
        self.items@.to_set()
    }
}

impl AddressSet {
    /// The addresses in the order they were first inserted.
    pub closed spec fn elements(&self) -> Seq<Address> {
        self.items@
    }

    pub closed spec fn wf(&self) -> bool {
        self.items@.no_duplicates()
    }

    pub proof fn lemma_wf(&self)
        requires
            self.wf(),
        ensures
            self.elements().no_duplicates(),
            self.elements().to_set() == self@,
            self.elements().len() == self@.len(),
            self@.finite(),
    {
        self.items@.unique_seq_to_set();
    }

    pub fn new() -> (r: AddressSet)
        ensures
            r.wf(),
            r@ == Set::<Address>::empty(),
            r.elements() == Seq::<Address>::empty(),
    {
        let r = AddressSet { items: Vec::new() };
        assert(r@ =~= Set::<Address>::empty());
        r
    }

    pub fn contains(&self, a: &Address) -> (r: bool)
        requires
            self.wf(),
        ensures
            r == self@.contains(*a),
    {
        let mut i: usize = 0;
        while i < self.items.len()
            invariant
                0 <= i <= self.items@.len(),
                forall|j: int| 0 <= j < i ==> self.items@[j] != *a,
            decreases self.items@.len() - i,
        {
            if self.items[i] == *a {
                assert(self.items@.to_set().contains(*a)) by {
                    assert(self.items@.contains(*a));
                }
                return true;
            }
            i = i + 1;
        }
        assert(!self.items@.contains(*a));
        false
    }

    /// Adds `a`; returns whether it was new.
    pub fn insert(&mut self, a: Address) -> (r: bool)
        requires
            old(self).wf(),
        ensures
            final(self).wf(),
            final(self)@ == old(self)@.insert(a),
            r == !old(self)@.contains(a),
            r ==> final(self).elements() == old(self).elements().push(a),
            !r ==> final(self).elements() == old(self).elements(),
    {
        if self.contains(&a) {
            assert(self@.insert(a) =~= self@);
            false
        } else {
            let ghost before = self.items@;
            self.items.push(a);
            assert(!before.contains(a));
            assert(self.items@ == before.push(a));
            assert(self.items@.no_duplicates()) by {
                assert forall|i: int, j: int|
                    0 <= i < self.items@.len() && 0 <= j < self.items@.len() && i != j
                    implies self.items@[i] != self.items@[j] by {
                    if i < before.len() && j < before.len() {
                    } else if i == before.len() {
                        assert(before[j] == self.items@[j]);
                    } else {
                        assert(before[i] == self.items@[i]);
                    }
                }
            }
            assert(self.items@.to_set() =~= before.to_set().insert(a)) by {
                assert forall|x: Address| self.items@.contains(x) <==> (before.contains(x) || x == a) by {
                    if self.items@.contains(x) {
                        let k = choose|k: int| 0 <= k < self.items@.len() && self.items@[k] == x;
                        if k < before.len() {
                            assert(before[k] == x);
                        }
                    }
                    if before.contains(x) {
                        let k = choose|k: int| 0 <= k < before.len() && before[k] == x;
                        assert(self.items@[k] == x);
                    }
                    if x == a {
                        assert(self.items@[before.len() as int] == a);
                    }
                }
            }
            true
        }
    }

    /// The set of the given addresses; repeated ones are kept once.
    pub fn from_vec(v: &Vec<Address>) -> (r: AddressSet)
        ensures
            r.wf(),
            r@ == v@.to_set(),
    {
        let mut r = AddressSet::new();
        let mut i: usize = 0;
        while i < v.len()
            invariant
                0 <= i <= v@.len(),
                r.wf(),
                r@ == v@.subrange(0, i as int).to_set(),
            decreases v@.len() - i,
        {
            r.insert(v[i]);
            assert(v@.subrange(0, i + 1) == v@.subrange(0, i as int).push(v@[i as int]));
            proof {
                v@.subrange(0, i as int).lemma_push_to_set_commute(v@[i as int]);
            }
            i = i + 1;
        }
        assert(v@.subrange(0, v@.len() as int) == v@);
        r
    }

    pub fn len(&self) -> (r: usize)
        requires
            self.wf(),
        ensures
            r == self@.len(),
    {
        proof {
            self.lemma_wf();
        }
        self.items.len()
    }

    pub fn is_empty(&self) -> (r: bool)
        requires
            self.wf(),
        ensures
            r == (self@ == Set::<Address>::empty()),
    {
        proof {
            self.lemma_wf();
        }
        if self.items.len() == 0 {
            assert(self@ =~= Set::<Address>::empty());
            true
        } else {
            assert(self@.contains(self.items@[0]));
            false
        }
    }

    /// The addresses in the order they were first inserted.
    pub fn to_vec(&self) -> (r: Vec<Address>)
        ensures
            r@ == self.elements(),
    {
        self.items.clone()
    }
}

} // verus!
