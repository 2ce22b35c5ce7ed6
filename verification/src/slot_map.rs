//! Inventory slot identifiers and a small map keyed by them.
//!
//! A trade offer maps inventory slots to the quantity offered from each, and an
//! inventory maps slots to the items they hold. Both are kept here as a vector
//! of entries in which no slot occurs twice; its view is the map they stand for.
use vstd::prelude::*;

verus! {

/// Identifies one slot of an inventory: the loadout item that provides the slot
/// (0 for the built-in slots) and the index of the slot within that container.
#[derive(Clone, Copy, Debug, PartialEq, Eq, Structural)]
pub struct InvSlotId {
    pub loadout_idx: usize,
    pub slot_idx: usize,
}

impl InvSlotId {
    pub fn new(loadout_idx: usize, slot_idx: usize) -> (id: InvSlotId)
        ensures
            id.loadout_idx == loadout_idx,
            id.slot_idx == slot_idx,
    {
        InvSlotId { loadout_idx, slot_idx }
    }
}

/// The map that a sequence of entries stands for: later entries win, though in a
/// well-formed sequence no key occurs twice.
pub open spec fn entries_map<V>(s: Seq<(InvSlotId, V)>) -> Map<InvSlotId, V>
    decreases s.len(),
{
    if s.len() == 0 {
        Map::empty()
    } else {
        entries_map(s.drop_last()).insert(s.last().0, s.last().1)
    }
}

/// No slot occurs twice among the entries.
pub open spec fn keys_distinct<V>(s: Seq<(InvSlotId, V)>) -> bool {
    forall|i: int, j: int| 0 <= i < j < s.len() ==> s[i].0 != s[j].0
}

/// The map of a sequence of entries holds a key exactly when some entry has it,
/// and, where keys are distinct, maps it to that entry's value.
pub proof fn lemma_entries_map<V>(s: Seq<(InvSlotId, V)>)
    requires
        keys_distinct(s),
    ensures
        forall|k: InvSlotId|
            #[trigger] entries_map(s).contains_key(k) <==> exists|i: int|
                0 <= i < s.len() && s[i].0 == k,
        forall|i: int|
            0 <= i < s.len() ==> #[trigger] entries_map(s)[s[i].0] == s[i].1
                && entries_map(s).contains_key(s[i].0),
    decreases s.len(),
{
    if s.len() > 0 {
        let t = s.drop_last();
        assert(keys_distinct(t));
        lemma_entries_map(t);
        assert forall|k: InvSlotId|
            #[trigger] entries_map(s).contains_key(k) <==> exists|i: int|
                0 <= i < s.len() && s[i].0 == k by {
            assert(entries_map(s) == entries_map(t).insert(s.last().0, s.last().1));
            if entries_map(s).contains_key(k) && k != s.last().0 {
                assert(entries_map(t).contains_key(k));
                let i = choose|i: int| 0 <= i < t.len() && t[i].0 == k;
                assert(s[i].0 == k);
            }
            if exists|i: int| 0 <= i < s.len() && s[i].0 == k {
                let i = choose|i: int| 0 <= i < s.len() && s[i].0 == k;
                if i < s.len() - 1 {
                    assert(t[i].0 == k);
                }
            }
        }
        assert forall|i: int| 0 <= i < s.len() implies #[trigger] entries_map(s)[s[i].0] == s[i].1
            && entries_map(s).contains_key(s[i].0) by {
            assert(entries_map(s) == entries_map(t).insert(s.last().0, s.last().1));
            if i < s.len() - 1 {
                assert(t[i] == s[i]);
                assert(s[i].0 != s.last().0);
            }
        }
    }
}

/// Two entry sequences without repeated keys that stand for the same map hold the
/// same entries, each once.
pub proof fn lemma_same_map_same_entries<V>(a: Seq<(InvSlotId, V)>, b: Seq<(InvSlotId, V)>)
    requires
        keys_distinct(a),
        keys_distinct(b),
        entries_map(a) == entries_map(b),
    ensures
        a.to_multiset() == b.to_multiset(),
{
    broadcast use vstd::seq_lib::group_to_multiset_ensures;

    lemma_entries_map(a);
    lemma_entries_map(b);
    assert(a.no_duplicates()) by {
        assert forall|i: int, j: int| 0 <= i < a.len() && 0 <= j < a.len() && i != j implies a[i]
            != a[j] by {
            if i < j {
                assert(a[i].0 != a[j].0);
            } else {
                assert(a[j].0 != a[i].0);
            }
        }
    }
    assert(b.no_duplicates()) by {
        assert forall|i: int, j: int| 0 <= i < b.len() && 0 <= j < b.len() && i != j implies b[i]
            != b[j] by {
            if i < j {
                assert(b[i].0 != b[j].0);
            } else {
                assert(b[j].0 != b[i].0);
            }
        }
    }
    a.lemma_multiset_has_no_duplicates();
    b.lemma_multiset_has_no_duplicates();
    assert forall|e: (InvSlotId, V)| a.contains(e) implies b.contains(e) by {
        let i = choose|i: int| 0 <= i < a.len() && a[i] == e;
        assert(entries_map(a).contains_key(a[i].0));
        let j = choose|j: int| 0 <= j < b.len() && b[j].0 == e.0;
        assert(entries_map(b)[b[j].0] == b[j].1);
        assert(b[j] == e);
    }
    assert forall|e: (InvSlotId, V)| b.contains(e) implies a.contains(e) by {
        let i = choose|i: int| 0 <= i < b.len() && b[i] == e;
        assert(entries_map(b).contains_key(b[i].0));
        let j = choose|j: int| 0 <= j < a.len() && a[j].0 == e.0;
        assert(entries_map(a)[a[j].0] == a[j].1);
        assert(a[j] == e);
    }
    assert forall|e: (InvSlotId, V)| a.to_multiset().count(e) == b.to_multiset().count(e) by {
        if a.contains(e) {
            assert(b.contains(e));
        } else {
            assert(!b.contains(e));
        }
    }
    assert(a.to_multiset() =~= b.to_multiset());
}

/// A map from inventory slots to values, kept as entries in which no slot occurs twice.
pub struct SlotMap<V> {
    entries: Vec<(InvSlotId, V)>,
}

impl<V> View for SlotMap<V> {
    type V = Map<InvSlotId, V>;

    open spec fn view(&self) -> Map<InvSlotId, V> {
        entries_map(self.entry_seq())
    }
}

impl<V> SlotMap<V> {
    /// The entries in the order in which their slots were first inserted.
    pub closed spec fn entry_seq(&self) -> Seq<(InvSlotId, V)> {
        self.entries@
    }

    #[verifier::type_invariant]
    spec fn keys_are_distinct(&self) -> bool {
        keys_distinct(self.entries@)
    }

    /// An empty map.
    pub fn new() -> (m: SlotMap<V>)
        ensures
            m.entry_seq() == Seq::<(InvSlotId, V)>::empty(),
            m@ == Map::<InvSlotId, V>::empty(),
    {
        SlotMap { entries: Vec::new() }
    }

    /// The number of slots that have a value.
    pub fn len(&self) -> (n: usize)
        ensures
            n == self.entry_seq().len(),
            n == self@.dom().len(),
    {
        proof {
            use_type_invariant(self);
            lemma_dom_len(self.entries@);
        }
        self.entries.len()
    }

    /// The entries, in the order in which their slots were first inserted.
    pub fn entries(&self) -> (e: &Vec<(InvSlotId, V)>)
        ensures
            e@ == self.entry_seq(),
            keys_distinct(e@),
    {
        proof {
            use_type_invariant(self);
        }
        &self.entries
    }

    /// The position of the entry for `key`, if there is one.
    fn find(&self, key: InvSlotId) -> (pos: Option<usize>)
        ensures
            match pos {
                Some(i) => i < self.entries@.len() && self.entries@[i as int].0 == key,
                None => forall|i: int| 0 <= i < self.entries@.len() ==> self.entries@[i].0 != key,
            },
    {
        let mut i: usize = 0;
        while i < self.entries.len()
            invariant
                i <= self.entries@.len(),
                forall|j: int| 0 <= j < i ==> self.entries@[j].0 != key,
            decreases self.entries@.len() - i,
        {
            if self.entries[i].0 == key {
                return Some(i);
            }
            i = i + 1;
        }
        None
    }

    /// The value stored for `key`, if any.
    pub fn get(&self, key: InvSlotId) -> (v: Option<&V>)
        ensures
            v is Some <==> self@.contains_key(key),
            v matches Some(x) ==> *x == self@[key],
    {
        proof {
            use_type_invariant(self);
            lemma_entries_map(self.entries@);
        }
        match self.find(key) {
            Some(i) => Some(&self.entries[i].1),
            None => None,
        }
    }

    /// Stores `value` for `key`, replacing the value it had. A new slot goes after
    /// all others; a slot that was there keeps its place.
    pub fn insert(&mut self, key: InvSlotId, value: V)
        ensures
            final(self)@ == old(self)@.insert(key, value),
            old(self)@.contains_key(key) ==> final(self).entry_seq().len() == old(
                self,
            ).entry_seq().len(),
            !old(self)@.contains_key(key) ==> final(self).entry_seq() == old(
                self,
            ).entry_seq().push((key, value)),
    {
        proof {
            use_type_invariant(&*self);
            lemma_entries_map(self.entries@);
        }
        match self.find(key) {
            Some(i) => {
                let ghost before = self.entries@;
                let mut entries: Vec<(InvSlotId, V)> = Vec::new();
                std::mem::swap(&mut entries, &mut self.entries);
                entries.set(i, (key, value));
                proof {
                    let after = entries@;
                    assert(keys_distinct(after)) by {
                        assert forall|a: int, b: int| 0 <= a < b < after.len() implies after[a].0
                            != after[b].0 by {
                            assert(before[a].0 != before[b].0);
                        }
                    }
                    lemma_entries_map(after);
                    assert forall|k: InvSlotId| #[trigger]
                        entries_map(after).contains_key(k) == entries_map(before).insert(
                            key,
                            value,
                        ).contains_key(k) by {
                        if entries_map(after).contains_key(k) {
                            let j = choose|j: int| 0 <= j < after.len() && after[j].0 == k;
                            assert(before[j].0 == k);
                        }
                        if entries_map(before).contains_key(k) {
                            let j = choose|j: int| 0 <= j < before.len() && before[j].0 == k;
                            assert(after[j].0 == k);
                        }
                    }
                    assert forall|k: InvSlotId| #[trigger]
                        entries_map(after).contains_key(k) implies entries_map(after)[k]
                        == entries_map(before).insert(key, value)[k] by {
                        let j = choose|j: int| 0 <= j < after.len() && after[j].0 == k;
                        assert(entries_map(after)[after[j].0] == after[j].1);
                        if j != i {
                            assert(before[j] == after[j]);
                            assert(entries_map(before)[before[j].0] == before[j].1);
                        }
                    }
                    assert(entries_map(after) =~= entries_map(before).insert(key, value));
                }
                self.entries = entries;
            },
            None => {
                let ghost before = self.entries@;
                let mut entries: Vec<(InvSlotId, V)> = Vec::new();
                std::mem::swap(&mut entries, &mut self.entries);
                entries.push((key, value));
                proof {
                    assert(entries@.drop_last() =~= before);
                    assert(keys_distinct(entries@));
                }
                self.entries = entries;
            },
        }
    }
}

/// The number of distinct keys of an entry sequence without repeats is its length.
proof fn lemma_dom_len<V>(s: Seq<(InvSlotId, V)>)
    requires
        keys_distinct(s),
    ensures
        entries_map(s).dom().len() == s.len(),
        entries_map(s).dom().finite(),
    decreases s.len(),
{
    if s.len() > 0 {
        let t = s.drop_last();
        assert(keys_distinct(t));
        lemma_dom_len(t);
        lemma_entries_map(t);
        assert(!entries_map(t).contains_key(s.last().0)) by {
            if entries_map(t).contains_key(s.last().0) {
                let i = choose|i: int| 0 <= i < t.len() && t[i].0 == s.last().0;
                assert(s[i].0 == s[s.len() - 1].0);
            }
        }
    }
}

} // verus!
