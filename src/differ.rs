use vstd::prelude::*;

use crate::address::{Address, AddressSet};

verus! {

/// The addresses present in `new` and absent from `old`.
pub open spec fn added_between(old: Set<Address>, new: Set<Address>) -> Set<Address> {
    new.difference(old)
}

/// The addresses present in `old` and absent from `new`.
pub open spec fn removed_between(old: Set<Address>, new: Set<Address>) -> Set<Address> {
    old.difference(new)
}

/// The change between two snapshots of a domain's addresses.
#[derive(Debug)]
pub struct Diff {
    pub added: Vec<Address>,
    pub removed: Vec<Address>,
}

impl Diff {
    /// The difference between two snapshots, exactly as a pair of sets.
    pub open spec fn describes(&self, old: Set<Address>, new: Set<Address>) -> bool {
        &&& self.added@.no_duplicates()
        &&& self.removed@.no_duplicates()
        &&& self.added@.to_set() == added_between(old, new)
        &&& self.removed@.to_set() == removed_between(old, new)
    }

    pub open spec fn has_change(&self) -> bool {
        self.added@.len() > 0 || self.removed@.len() > 0
    }

    /// Whether anything was added or removed.
    pub fn is_change(&self) -> (r: bool)
        ensures
            r == self.has_change(),
    {
        self.added.len() > 0 || self.removed.len() > 0
    }
}

/// The addresses of `src` that `other` lacks, each once.
fn missing_from(src: &AddressSet, other: &AddressSet) -> (r: Vec<Address>)
    requires
        src.wf(),
        other.wf(),
    ensures
        r@.no_duplicates(),
        r@.to_set() == src@.difference(other@),
{
    proof {
        src.lemma_wf();
    }
    let items = src.to_vec();
    let mut r: Vec<Address> = Vec::new();
    let mut i: usize = 0;
    while i < items.len()
        invariant
            0 <= i <= items@.len(),
            items@ == src.elements(),
            items@.no_duplicates(),
            other.wf(),
            r@.no_duplicates(),
            forall|x: Address|
                r@.contains(x) <==> (items@.subrange(0, i as int).contains(x) && !other@.contains(x)),
        decreases items@.len() - i,
    {
        let a = items[i];
        let ghost before = r@;
        let ghost prefix = items@.subrange(0, i as int);
        assert(!prefix.contains(a)) by {
            if prefix.contains(a) {
                let k = choose|k: int| 0 <= k < prefix.len() && prefix[k] == a;
                assert(items@[k] == items@[i as int]);
            }
        }
        assert(items@.subrange(0, i + 1) == prefix.push(a));
        if !other.contains(&a) {
            r.push(a);
            assert(r@ == before.push(a));
            assert(r@.no_duplicates()) by {
                assert forall|p: int, q: int|
                    0 <= p < r@.len() && 0 <= q < r@.len() && p != q implies r@[p] != r@[q] by {
                    if p == before.len() {
                        assert(before.contains(r@[q]));
                    } else if q == before.len() {
                        assert(before.contains(r@[p]));
                    }
                }
            }
            assert forall|x: Address|
                r@.contains(x) <==> (prefix.push(a).contains(x) && !other@.contains(x)) by {
                if r@.contains(x) && x != a {
                    let k = choose|k: int| 0 <= k < r@.len() && r@[k] == x;
                    assert(before[k] == x);
                }
                if before.contains(x) {
                    let k = choose|k: int| 0 <= k < before.len() && before[k] == x;
                    assert(r@[k] == x);
                }
                if prefix.contains(x) {
                    let k = choose|k: int| 0 <= k < prefix.len() && prefix[k] == x;
                    assert(prefix.push(a)[k] == x);
                }
                if prefix.push(a).contains(x) && x != a {
                    let k = choose|k: int| 0 <= k < prefix.len() + 1 && prefix.push(a)[k] == x;
                    assert(prefix[k] == x);
                }
                assert(r@[before.len() as int] == a);
                assert(prefix.push(a)[prefix.len() as int] == a);
            }
        } else {
            assert forall|x: Address|
                r@.contains(x) <==> (prefix.push(a).contains(x) && !other@.contains(x)) by {
                if prefix.contains(x) {
                    let k = choose|k: int| 0 <= k < prefix.len() && prefix[k] == x;
                    assert(prefix.push(a)[k] == x);
                }
                if prefix.push(a).contains(x) && x != a {
                    let k = choose|k: int| 0 <= k < prefix.len() + 1 && prefix.push(a)[k] == x;
                    assert(prefix[k] == x);
                }
            }
        }
        i = i + 1;
    }
    assert(items@.subrange(0, items@.len() as int) == items@);
    assert(r@.to_set() =~= src@.difference(other@));
    r
}

/// Compares a baseline snapshot with a candidate: what the candidate gained and lost.
pub fn diff(old: &AddressSet, new: &AddressSet) -> (r: Diff)
    requires
        old.wf(),
        new.wf(),
    ensures
        r.describes(old@, new@),
        r.has_change() <==> old@ != new@,
{
    let added = missing_from(new, old);
    let removed = missing_from(old, new);
    let r = Diff { added, removed };
    proof {
        lemma_change_iff_unequal(old@, new@);
        r.added@.unique_seq_to_set();
        r.removed@.unique_seq_to_set();
        if r.added@.len() == 0 {
            assert(r.added@.to_set() =~= Set::<Address>::empty());
        } else {
            assert(r.added@.to_set().contains(r.added@[0]));
        }
        if r.removed@.len() == 0 {
            assert(r.removed@.to_set() =~= Set::<Address>::empty());
        } else {
            assert(r.removed@.to_set().contains(r.removed@[0]));
        }
    }
    r
}

/// Two snapshots differ exactly when something was added or something was removed.
pub proof fn lemma_change_iff_unequal(a: Set<Address>, b: Set<Address>)
    ensures
        (added_between(a, b) == Set::<Address>::empty() && removed_between(a, b) == Set::<Address>::empty())
            <==> a == b,
{
    if a == b {
        assert(added_between(a, b) =~= Set::<Address>::empty());
        assert(removed_between(a, b) =~= Set::<Address>::empty());
    }
    if added_between(a, b) =~= Set::<Address>::empty() && removed_between(a, b) =~= Set::<Address>::empty() {
        assert(a =~= b) by {
            assert forall|x: Address| a.contains(x) <==> b.contains(x) by {
                if a.contains(x) && !b.contains(x) {
                    assert(removed_between(a, b).contains(x));
                }
                if b.contains(x) && !a.contains(x) {
                    assert(added_between(a, b).contains(x));
                }
            }
        }
    }
}

/// What was added and what was removed never share an address, and taking the
/// removed addresses from the old snapshot leaves what remains of the new one
/// once the added addresses are taken out: the addresses common to both.
pub proof fn lemma_diff_partition(a: Set<Address>, b: Set<Address>)
    ensures
        added_between(a, b).disjoint(removed_between(a, b)),
        a.difference(removed_between(a, b)) == b.difference(added_between(a, b)),
        a.difference(removed_between(a, b)) == a.intersect(b),
{
    assert(a.difference(removed_between(a, b)) =~= a.intersect(b));
    assert(b.difference(added_between(a, b)) =~= a.intersect(b));
}

/// A snapshot compared with itself shows nothing added and nothing removed.
pub proof fn lemma_diff_same(a: Set<Address>)
    ensures
        added_between(a, a) == Set::<Address>::empty(),
        removed_between(a, a) == Set::<Address>::empty(),
{
    assert(added_between(a, a) =~= Set::<Address>::empty());
    assert(removed_between(a, a) =~= Set::<Address>::empty());
}

} // verus!
