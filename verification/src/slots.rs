//! The slots of a party's pane: the offered items in a fixed order, numbered by
//! their place in the pane, and the empty slots that fill the rest of the pane.
use crate::slot_map::{keys_distinct, entries_map, lemma_same_map_same_entries, InvSlotId, SlotMap};
use vstd::prelude::*;
use vstd::relations::{sorted_by, total_ordering};

verus! {

/// How many slots a pane shows.
pub const MAX_TRADE_SLOTS: usize = 16;

/// One slot of a pane: its place in the pane, the quantity offered and the
/// inventory slot the items come from (none for an empty slot).
#[derive(Clone, Copy, Debug, PartialEq, Eq, Structural)]
pub struct TradeSlot {
    pub index: usize,
    pub quantity: u32,
    pub invslot: Option<InvSlotId>,
}

/// An offered entry: an inventory slot and the quantity offered from it.
pub type OfferEntry = (InvSlotId, u32);

/// The order of offered entries: by loadout, then by slot, then by quantity.
pub open spec fn entry_le(a: OfferEntry, b: OfferEntry) -> bool {
    ||| a.0.loadout_idx < b.0.loadout_idx
    ||| a.0.loadout_idx == b.0.loadout_idx && a.0.slot_idx < b.0.slot_idx
    ||| a.0.loadout_idx == b.0.loadout_idx && a.0.slot_idx == b.0.slot_idx && a.1 <= b.1
}

/// `entry_le` as a relation.
pub open spec fn offer_order() -> spec_fn(OfferEntry, OfferEntry) -> bool {
    |a: OfferEntry, b: OfferEntry| entry_le(a, b)
}

/// The slots a pane shows for the given offered entries: the entries in the order
/// `offer_order`, each numbered by its place.
pub open spec fn spec_trade_slots(entries: Seq<OfferEntry>) -> Seq<TradeSlot> {
    entries.sort_by(offer_order()).map(
        |i: int, e: OfferEntry| TradeSlot { index: i as usize, quantity: e.1, invslot: Some(e.0) },
    )
}

/// The slot at place `i` of a pane: the `i`-th numbered slot where there is one,
/// else an empty slot numbered `i`.
pub open spec fn spec_slot_or_empty(slots: Seq<TradeSlot>, i: int) -> TradeSlot {
    if 0 <= i < slots.len() {
        slots[i]
    } else {
        TradeSlot { index: i as usize, quantity: 0, invslot: None }
    }
}

/// `offer_order` is a total order.
pub proof fn lemma_offer_order_total()
    ensures
        total_ordering(offer_order()),
{
    let r = offer_order();
    assert forall|a: OfferEntry, b: OfferEntry| #[trigger] r(a, b) && #[trigger] r(b, a) implies a
        == b by {
        assert(a.0 == b.0);
    }
}

fn entry_le_exec(a: &OfferEntry, b: &OfferEntry) -> (r: bool)
    ensures
        r == entry_le(*a, *b),
{
    a.0.loadout_idx < b.0.loadout_idx || (a.0.loadout_idx == b.0.loadout_idx && (a.0.slot_idx
        < b.0.slot_idx || (a.0.slot_idx == b.0.slot_idx && a.1 <= b.1)))
}

/// Inserting `e` at `p` into a sorted sequence whose elements before `p` are at most
/// `e` and whose elements from `p` on are above it keeps the sequence sorted.
proof fn lemma_insert_sorted(s: Seq<OfferEntry>, p: int, e: OfferEntry)
    requires
        sorted_by(s, offer_order()),
        0 <= p <= s.len(),
        forall|k: int| 0 <= k < p ==> entry_le(s[k], e),
        forall|k: int| p <= k < s.len() ==> entry_le(e, s[k]),
    ensures
        sorted_by(s.insert(p, e), offer_order()),
{
    let t = s.insert(p, e);
    assert forall|a: int, b: int| 0 <= a < b < t.len() implies #[trigger] offer_order()(
        t[a],
        t[b],
    ) by {
        if a < p && b < p {
            assert(offer_order()(s[a], s[b]));
        } else if a < p && b == p {
        } else if a < p && b > p {
            assert(offer_order()(s[a], s[b - 1]));
        } else if a == p {
        } else {
            assert(offer_order()(s[a - 1], s[b - 1]));
        }
    }
}

/// The entries of `entries` in the order `offer_order`.
pub fn sort_offer(entries: &Vec<OfferEntry>) -> (out: Vec<OfferEntry>)
    ensures
        out@ == entries@.sort_by(offer_order()),
{
    broadcast use vstd::seq_lib::group_to_multiset_ensures;

    let mut out: Vec<OfferEntry> = Vec::new();
    let mut i: usize = 0;
    while i < entries.len()
        invariant
            i <= entries@.len(),
            sorted_by(out@, offer_order()),
            out@.to_multiset() == entries@.take(i as int).to_multiset(),
        decreases entries@.len() - i,
    {
        let e = entries[i];
        let mut p: usize = 0;
        while p < out.len() && entry_le_exec(&out[p], &e)
            invariant
                p <= out@.len(),
                forall|k: int| 0 <= k < p ==> entry_le(out@[k], e),
            decreases out@.len() - p,
        {
            p = p + 1;
        }
        proof {
            assert forall|k: int| p <= k < out@.len() implies entry_le(e, out@[k]) by {
                assert(!entry_le(out@[p as int], e));
                if k > p {
                    assert(offer_order()(out@[p as int], out@[k]));
                }
            }
            lemma_insert_sorted(out@, p as int, e);
            let s = out@;
            let t = s.insert(p as int, e);
            assert(t.remove(p as int) =~= s);
            assert(t[p as int] == e);
            assert(t.contains(e));
            let m = t.to_multiset();
            t.to_multiset_ensures();
            assert(t.remove(p as int).to_multiset() =~= m.remove(t[p as int]));
            assert(m.count(e) > 0);
            assert(m =~= s.to_multiset().insert(e)) by {
                broadcast use vstd::multiset::group_multiset_axioms;
            }
            assert(entries@.take(i + 1) =~= entries@.take(i as int).push(e));
            entries@.take(i as int).to_multiset_ensures();
            assert(entries@.take(i as int).push(e).to_multiset() =~= entries@.take(
                i as int,
            ).to_multiset().insert(e));
        }
        out.insert(p, e);
        i = i + 1;
    }
    proof {
        assert(entries@.take(i as int) =~= entries@);
        lemma_offer_order_total();
        entries@.lemma_sort_by_ensures(offer_order());
        vstd::seq_lib::lemma_sorted_unique(out@, entries@.sort_by(offer_order()), offer_order());
    }
    out
}

/// The slots of a pane for an offer: the offered entries sorted, each numbered by
/// its place in the pane.
pub fn trade_slots(offer: &SlotMap<u32>) -> (slots: Vec<TradeSlot>)
    ensures
        slots@ == spec_trade_slots(offer.entry_seq()),
{
    let sorted = sort_offer(offer.entries());
    let mut slots: Vec<TradeSlot> = Vec::new();
    let mut i: usize = 0;
    while i < sorted.len()
        invariant
            i <= sorted@.len(),
            sorted@ == offer.entry_seq().sort_by(offer_order()),
            slots@ =~= spec_trade_slots(offer.entry_seq()).take(i as int),
        decreases sorted@.len() - i,
    {
        let (invslot, quantity) = sorted[i];
        slots.push(TradeSlot { index: i, quantity, invslot: Some(invslot) });
        i = i + 1;
    }
    slots
}

/// The slot at place `i` of a pane: the `i`-th of `slots` where there is one, else
/// an empty slot numbered `i`.
pub fn slot_or_empty(slots: &Vec<TradeSlot>, i: usize) -> (slot: TradeSlot)
    ensures
        slot == spec_slot_or_empty(slots@, i as int),
{
    if i < slots.len() {
        slots[i]
    } else {
        TradeSlot { index: i, quantity: 0, invslot: None }
    }
}

/// The slots a pane shows for an offer list every offered entry once, in the
/// order `offer_order`, each numbered by its place and naming its inventory slot.
pub proof fn lemma_trade_slots_list_the_offer(entries: Seq<OfferEntry>)
    requires
        entries.len() <= usize::MAX,
    ensures
        spec_trade_slots(entries).len() == entries.len(),
        forall|i: int|
            0 <= i < entries.len() ==> {
                let s = #[trigger] spec_trade_slots(entries)[i];
                &&& s.index == i
                &&& s.invslot is Some
                &&& s == TradeSlot {
                    index: i as usize,
                    quantity: entries.sort_by(offer_order())[i].1,
                    invslot: Some(entries.sort_by(offer_order())[i].0),
                }
            },
        sorted_by(entries.sort_by(offer_order()), offer_order()),
        entries.sort_by(offer_order()).to_multiset() == entries.to_multiset(),
{
    lemma_offer_order_total();
    entries.lemma_sort_by_ensures(offer_order());
    broadcast use vstd::seq_lib::group_to_multiset_ensures;

    assert(entries.sort_by(offer_order()).to_multiset().len() == entries.to_multiset().len());
    assert(entries.sort_by(offer_order()).len() == entries.len());
}

/// The slots a pane shows depend only on what is offered, not on the order in
/// which the items were put into the offer.
pub proof fn lemma_trade_slots_ignore_insertion_order(a: Seq<OfferEntry>, b: Seq<OfferEntry>)
    requires
        keys_distinct(a),
        keys_distinct(b),
        entries_map(a) == entries_map(b),
    ensures
        spec_trade_slots(a) == spec_trade_slots(b),
{
    lemma_same_map_same_entries(a, b);
    lemma_offer_order_total();
    a.lemma_sort_by_ensures(offer_order());
    b.lemma_sort_by_ensures(offer_order());
    vstd::seq_lib::lemma_sorted_unique(
        a.sort_by(offer_order()),
        b.sort_by(offer_order()),
        offer_order(),
    );
}

/// Whatever the offer, the slot at place `i` of a pane is numbered `i`.
pub proof fn lemma_slot_numbered_by_place(entries: Seq<OfferEntry>, i: int)
    requires
        0 <= i <= usize::MAX,
        entries.len() <= usize::MAX,
    ensures
        spec_slot_or_empty(spec_trade_slots(entries), i).index == i,
{
    lemma_trade_slots_list_the_offer(entries);
    if i < entries.len() {
        assert(spec_trade_slots(entries)[i].index == i);
    }
}

/// A pane lists the offered slots by loadout first and, within a loadout, by slot
/// index: a slot listed before another never belongs to a later loadout, nor, in
/// the same loadout, has a larger slot index. Where no slot is offered twice, the
/// later one is strictly later.
pub proof fn lemma_trade_slots_ordered_by_slot(entries: Seq<OfferEntry>, i: int, j: int)
    requires
        entries.len() <= usize::MAX,
        0 <= i < j < entries.len(),
    ensures
        ({
            let a = spec_trade_slots(entries)[i].invslot->0;
            let b = spec_trade_slots(entries)[j].invslot->0;
            &&& a.loadout_idx <= b.loadout_idx
            &&& a.loadout_idx == b.loadout_idx ==> a.slot_idx <= b.slot_idx
            &&& keys_distinct(entries) ==> (a.loadout_idx < b.loadout_idx || a.slot_idx
                < b.slot_idx)
        }),
{
    lemma_trade_slots_list_the_offer(entries);
    let s = entries.sort_by(offer_order());
    assert(offer_order()(s[i], s[j]));
    assert(spec_trade_slots(entries)[i].invslot->0 == s[i].0);
    assert(spec_trade_slots(entries)[j].invslot->0 == s[j].0);
    if keys_distinct(entries) && s[i].0 == s[j].0 {
        broadcast use vstd::seq_lib::group_to_multiset_ensures;

        assert(s.to_multiset().count(s[i]) > 0);
        assert(s.to_multiset().count(s[j]) > 0);
        assert(entries.contains(s[i]));
        assert(entries.contains(s[j]));
        let p = choose|p: int| 0 <= p < entries.len() && entries[p] == s[i];
        let q = choose|q: int| 0 <= q < entries.len() && entries[q] == s[j];
        assert(p == q) by {
            if p < q {
                assert(entries[p].0 != entries[q].0);
            } else if q < p {
                assert(entries[q].0 != entries[p].0);
            }
        }
        assert(s[i] == s[j]);
        assert(entries.no_duplicates()) by {
            assert forall|x: int, y: int|
                0 <= x < entries.len() && 0 <= y < entries.len() && x != y implies entries[x]
                != entries[y] by {
                if x < y {
                    assert(entries[x].0 != entries[y].0);
                } else {
                    assert(entries[y].0 != entries[x].0);
                }
            }
        }
        entries.lemma_multiset_has_no_duplicates();
        let s2 = s.remove(j);
        s.to_multiset_ensures();
        assert(s2.to_multiset() =~= s.to_multiset().remove(s[j]));
        assert(s2[i] == s[i]);
        assert(s2.contains(s[i]));
        assert(s2.to_multiset().count(s[i]) > 0);
        assert(s.to_multiset().count(s[i]) >= 2) by {
            broadcast use vstd::multiset::group_multiset_axioms;
        }
        assert(false);
    }
}

} // verus!
