use trade_hud::slot_map::{InvSlotId, SlotMap};
use trade_hud::slots::{slot_or_empty, sort_offer, trade_slots, TradeSlot, MAX_TRADE_SLOTS};
use trade_hud::text::{
    decimal_string, fill_player_name, player_name, push_decimal, replace_all, slot_label,
};
use trade_hud::trade::{
    accept_decline_event, close_event, has_accepted, or_event, Clicks, PendingTrade,
    TradeActionMsg, TradePhase,
};
use trade_hud::widget::{
    PaneAnchor, Party, PhaseText, SlotsLayout, State, Trade, TradeStrings, SLOT_WIDGETS,
};

fn slot(loadout_idx: usize, slot_idx: usize) -> InvSlotId {
    InvSlotId::new(loadout_idx, slot_idx)
}

fn offer(entries: &[(usize, usize, u32)]) -> SlotMap<u32> {
    let mut m = SlotMap::new();
    for &(l, s, q) in entries {
        m.insert(slot(l, s), q);
    }
    m
}

fn items(entries: &[(usize, usize, &str)]) -> SlotMap<String> {
    let mut m = SlotMap::new();
    for &(l, s, name) in entries {
        m.insert(slot(l, s), name.to_string());
    }
    m
}

fn pending(phase: TradePhase, o0: SlotMap<u32>, o1: SlotMap<u32>) -> PendingTrade {
    let (phase1, phase2) = match phase {
        TradePhase::Mutate => ([false, false], [false, false]),
        TradePhase::Review => ([true, true], [false, false]),
        TradePhase::Complete => ([true, true], [true, true]),
    };
    PendingTrade::new([o0, o1], phase1, phase2)
}

fn fresh() -> State {
    State { inv_alignment: 0, inv_slots: 0, inv_textslots: 0, offer_headers: 0, accept_indicators: 0 }
}

fn strings() -> TradeStrings {
    TradeStrings {
        persons_offer: "{playername}'s offer".to_string(),
        has_accepted: "{playername} has accepted".to_string(),
    }
}

fn party(alias: Option<&str>, names: Option<SlotMap<String>>) -> Party {
    Party { alias: alias.map(|a| a.to_string()), items: names }
}

fn no_clicks() -> Clicks {
    Clicks { accept: false, decline: false, close: false }
}

// ---- slot_map

#[test]
fn slot_map_insert_get_and_replace() {
    let mut m: SlotMap<u32> = SlotMap::new();
    assert_eq!(m.len(), 0);
    assert_eq!(m.get(slot(0, 1)), None);
    m.insert(slot(0, 1), 5);
    m.insert(slot(1, 0), 7);
    assert_eq!(m.len(), 2);
    assert_eq!(m.get(slot(0, 1)), Some(&5));
    assert_eq!(m.get(slot(1, 0)), Some(&7));
    m.insert(slot(0, 1), 9);
    assert_eq!(m.len(), 2);
    assert_eq!(m.get(slot(0, 1)), Some(&9));
    assert_eq!(m.entries(), &vec![(slot(0, 1), 9), (slot(1, 0), 7)]);
}

// ---- slots

#[test]
fn sort_offer_orders_by_loadout_then_slot_then_quantity() {
    let entries = vec![(slot(1, 0), 3), (slot(0, 5), 1), (slot(0, 2), 8), (slot(0, 2), 4)];
    assert_eq!(
        sort_offer(&entries),
        vec![(slot(0, 2), 4), (slot(0, 2), 8), (slot(0, 5), 1), (slot(1, 0), 3)]
    );
    assert_eq!(sort_offer(&vec![]), vec![]);
}

#[test]
fn trade_slots_number_the_sorted_offer() {
    let o = offer(&[(0, 9, 2), (0, 3, 1), (2, 0, 5)]);
    assert_eq!(
        trade_slots(&o),
        vec![
            TradeSlot { index: 0, quantity: 1, invslot: Some(slot(0, 3)) },
            TradeSlot { index: 1, quantity: 2, invslot: Some(slot(0, 9)) },
            TradeSlot { index: 2, quantity: 5, invslot: Some(slot(2, 0)) },
        ]
    );
}

#[test]
fn trade_slots_ignore_insertion_order() {
    let a = offer(&[(0, 9, 2), (0, 3, 1), (2, 0, 5)]);
    let b = offer(&[(2, 0, 5), (0, 9, 2), (0, 3, 1)]);
    assert_eq!(trade_slots(&a), trade_slots(&b));
}

#[test]
fn slot_or_empty_fills_with_empty_numbered_slots() {
    let slots = trade_slots(&offer(&[(0, 1, 4)]));
    assert_eq!(
        slot_or_empty(&slots, 0),
        TradeSlot { index: 0, quantity: 4, invslot: Some(slot(0, 1)) }
    );
    assert_eq!(slot_or_empty(&slots, 5), TradeSlot { index: 5, quantity: 0, invslot: None });
}

// ---- text

#[test]
fn decimal_string_writes_numbers() {
    assert_eq!(decimal_string(0), "0");
    assert_eq!(decimal_string(7), "7");
    assert_eq!(decimal_string(10), "10");
    assert_eq!(decimal_string(1234567890), "1234567890");
    assert_eq!(decimal_string(u64::MAX), u64::MAX.to_string());
    let mut s = String::from("n=");
    push_decimal(&mut s, 42);
    assert_eq!(s, "n=42");
}

#[test]
fn replace_all_agrees_with_str_replace() {
    let cases = [
        ("{playername}'s offer", "{playername}", "Bob"),
        ("no placeholder here", "{playername}", "Bob"),
        ("{playername} and {playername}", "{playername}", "Al"),
        ("aaaa", "aa", "b"),
        ("aaa", "aa", "xyz"),
        ("", "x", "y"),
        ("ünïcødé {playername}!", "{playername}", "Zoë"),
    ];
    for (s, from, to) in cases {
        assert_eq!(replace_all(s, from, to), s.replace(from, to), "{s:?} {from:?} {to:?}");
    }
}

#[test]
fn player_name_prefers_alias() {
    assert_eq!(player_name(&Some("Alice".to_string()), 1), "Alice");
    assert_eq!(player_name(&None, 0), "Player 0");
    assert_eq!(player_name(&None, 1), "Player 1");
}

#[test]
fn fill_player_name_puts_the_name_in() {
    assert_eq!(fill_player_name("{playername} has accepted", "Bob"), "Bob has accepted");
    assert_eq!(fill_player_name("Angebot von {playername}", "Bob"), "Angebot von Bob");
    assert_eq!(fill_player_name("Accepted", "Bob"), "Accepted");
}

#[test]
fn slot_label_names_quantity_and_item() {
    assert_eq!(slot_label(3, "Apple"), "3 x Apple");
    assert_eq!(slot_label(0, ""), "0 x ");
}

// ---- trade

#[test]
fn phases_are_told_apart() {
    let t = pending(TradePhase::Mutate, SlotMap::new(), SlotMap::new());
    assert!(t.in_phase1() && !t.in_phase2());
    let t = pending(TradePhase::Review, SlotMap::new(), SlotMap::new());
    assert!(!t.in_phase1() && t.in_phase2());
    let t = pending(TradePhase::Complete, SlotMap::new(), SlotMap::new());
    assert!(!t.in_phase1() && !t.in_phase2());
}

#[test]
fn phase_follows_the_acceptances() {
    let t = PendingTrade::new([SlotMap::new(), SlotMap::new()], [false, true], [true, true]);
    assert!(t.in_phase1() && !t.in_phase2());
    let t = PendingTrade::new([SlotMap::new(), SlotMap::new()], [true, true], [true, false]);
    assert!(!t.in_phase1() && t.in_phase2());
    let t = PendingTrade::new([SlotMap::new(), SlotMap::new()], [true, true], [true, true]);
    assert!(!t.in_phase1() && !t.in_phase2());
}

#[test]
fn has_accepted_follows_the_phase() {
    let mut t = PendingTrade::new([SlotMap::new(), SlotMap::new()], [true, false], [false, true]);
    assert!(has_accepted(&t, 0));
    assert!(!has_accepted(&t, 1));
    t.phase1_accepts = [true, true];
    assert!(!has_accepted(&t, 0));
    assert!(has_accepted(&t, 1));
    t.phase2_accepts = [true, true];
    assert!(!has_accepted(&t, 0));
    assert!(!has_accepted(&t, 1));
}

#[test]
fn accept_and_decline_buttons() {
    let p1 = pending(TradePhase::Mutate, SlotMap::new(), SlotMap::new());
    let p2 = pending(TradePhase::Review, SlotMap::new(), SlotMap::new());
    let p3 = pending(TradePhase::Complete, SlotMap::new(), SlotMap::new());
    assert_eq!(accept_decline_event(&p1, true, false), Some(TradeActionMsg::Phase1Accept));
    assert_eq!(accept_decline_event(&p2, true, false), Some(TradeActionMsg::Phase2Accept));
    assert_eq!(accept_decline_event(&p3, true, false), None);
    for p in [&p1, &p2, &p3] {
        assert_eq!(accept_decline_event(p, false, true), Some(TradeActionMsg::Decline));
        assert_eq!(accept_decline_event(p, true, true), Some(TradeActionMsg::Decline));
        assert_eq!(accept_decline_event(p, false, false), None);
    }
}

#[test]
fn close_button_declines() {
    assert_eq!(close_event(true), Some(TradeActionMsg::Decline));
    assert_eq!(close_event(false), None);
}

#[test]
fn or_event_keeps_the_first_action() {
    assert_eq!(
        or_event(Some(TradeActionMsg::Decline), Some(TradeActionMsg::Phase1Accept)),
        Some(TradeActionMsg::Decline)
    );
    assert_eq!(
        or_event(None, Some(TradeActionMsg::Phase1Accept)),
        Some(TradeActionMsg::Phase1Accept)
    );
    assert_eq!(or_event(None, None), None);
}

// ---- widget

fn window(phase: TradePhase) -> Trade {
    let o0 = offer(&[(0, 4, 2), (0, 1, 1)]);
    let o1 = offer(&[(1, 0, 3)]);
    Trade::new(
        Some(pending(phase, o0, o1)),
        [
            party(Some("Alice"), Some(items(&[(0, 1, "Apple"), (0, 4, "Bread")]))),
            party(None, Some(items(&[]))),
        ],
        strings(),
    )
}

#[test]
fn update_without_trade_declines() {
    let t = Trade::new(None, [party(None, None), party(None, None)], strings());
    let mut st = fresh();
    let frame = t.update(&mut st, no_clicks());
    assert_eq!(frame.event, Some(TradeActionMsg::Decline));
    assert!(frame.layout.is_none());
    assert_eq!(st, fresh());
    assert!(t.layout(&mut st).is_none());
}

#[test]
fn update_sends_what_was_clicked() {
    let t = window(TradePhase::Mutate);
    assert_eq!(t.update(&mut fresh(), no_clicks()).event, None);
    assert_eq!(
        t.update(&mut fresh(), Clicks { accept: true, decline: false, close: false }).event,
        Some(TradeActionMsg::Phase1Accept)
    );
    assert_eq!(
        t.update(&mut fresh(), Clicks { accept: true, decline: true, close: false }).event,
        Some(TradeActionMsg::Decline)
    );
    assert_eq!(
        t.update(&mut fresh(), Clicks { accept: true, decline: false, close: true }).event,
        Some(TradeActionMsg::Decline)
    );
    let t = window(TradePhase::Review);
    assert_eq!(
        t.update(&mut fresh(), Clicks { accept: true, decline: false, close: false }).event,
        Some(TradeActionMsg::Phase2Accept)
    );
    let t = window(TradePhase::Complete);
    assert_eq!(t.update(&mut fresh(), Clicks { accept: true, decline: false, close: false }).event, None);
}

#[test]
fn phase_text_keys() {
    assert_eq!(PhaseText::Phase1.key(), "hud.trade.phase1_description");
    assert_eq!(PhaseText::Phase2.key(), "hud.trade.phase2_description");
    assert_eq!(PhaseText::Phase3.key(), "hud.trade.phase3_description");
    let t = pending(TradePhase::Review, SlotMap::new(), SlotMap::new());
    assert_eq!(Trade::phase_indicator(&t), PhaseText::Phase2);
}

#[test]
fn layout_in_first_phase_shows_grids() {
    let l = window(TradePhase::Mutate).layout(&mut fresh()).unwrap();
    assert_eq!(l.phase_text, PhaseText::Phase1);
    let p0 = l.panes[0].as_ref().unwrap();
    assert_eq!(p0.anchor, PaneAnchor::BackgroundTopLeft);
    assert_eq!(p0.offer_header, "Alice's offer");
    assert_eq!(p0.accept_indicator, "Alice has accepted");
    assert!(!p0.has_accepted);
    match &p0.slots {
        SlotsLayout::Grid(grid) => {
            assert_eq!(grid.len(), MAX_TRADE_SLOTS);
            assert_eq!(grid[0].slot, TradeSlot { index: 0, quantity: 1, invslot: Some(slot(0, 1)) });
            assert_eq!(grid[1].slot, TradeSlot { index: 1, quantity: 2, invslot: Some(slot(0, 4)) });
            assert_eq!(grid[2].slot, TradeSlot { index: 2, quantity: 0, invslot: None });
            assert_eq!((grid[5].column, grid[5].row), (1, 1));
            assert_eq!((grid[5].left_margin, grid[5].top_margin), (40, 40));
            assert_eq!((grid[15].column, grid[15].row), (3, 3));
            assert_eq!(grid[15].widget_index, 15);
        }
        SlotsLayout::Text(_) => panic!("expected a grid"),
    }
    let p1 = l.panes[1].as_ref().unwrap();
    assert_eq!(p1.anchor, PaneAnchor::RightOfFirstPane);
    assert_eq!(p1.offer_header, "Player 1's offer");
    match &p1.slots {
        SlotsLayout::Grid(grid) => {
            assert_eq!(grid[0].widget_index, MAX_TRADE_SLOTS);
            assert_eq!(grid[15].widget_index, 2 * MAX_TRADE_SLOTS - 1);
        }
        SlotsLayout::Text(_) => panic!("expected a grid"),
    }
}

#[test]
fn layout_in_review_shows_lines() {
    let mut t = window(TradePhase::Review);
    if let Some(p) = t.pending.as_mut() {
        p.phase2_accepts = [false, true];
    }
    let l = t.layout(&mut fresh()).unwrap();
    assert_eq!(l.phase_text, PhaseText::Phase2);
    let p0 = l.panes[0].as_ref().unwrap();
    assert!(!p0.has_accepted);
    match &p0.slots {
        SlotsLayout::Text(lines) => {
            assert_eq!(lines.len(), MAX_TRADE_SLOTS);
            assert_eq!(lines[0].text, "1 x Apple");
            assert!(lines[0].present);
            assert_eq!(lines[1].text, "2 x Bread");
            assert_eq!(lines[2].text, "0 x ");
            assert!(!lines[2].present);
            assert_eq!(lines[0].top_margin, 10);
            assert_eq!(lines[3].top_margin, 100);
        }
        SlotsLayout::Grid(_) => panic!("expected lines"),
    }
    let p1 = l.panes[1].as_ref().unwrap();
    assert!(p1.has_accepted);
    match &p1.slots {
        SlotsLayout::Text(lines) => {
            // The second party's inventory holds nothing under the offered slot.
            assert_eq!(lines[0].text, "3 x ");
            assert!(lines[0].present);
            assert_eq!(lines[0].widget_index, MAX_TRADE_SLOTS);
        }
        SlotsLayout::Grid(_) => panic!("expected lines"),
    }
}

#[test]
fn pane_without_inventory_is_left_out() {
    let o0 = offer(&[(0, 1, 1)]);
    let t = Trade::new(
        Some(pending(TradePhase::Mutate, o0, SlotMap::new())),
        [party(Some("Alice"), None), party(Some("Bob"), Some(items(&[])))],
        strings(),
    );
    let l = t.layout(&mut fresh()).unwrap();
    assert!(l.panes[0].is_none());
    assert_eq!(l.panes[1].as_ref().unwrap().offer_header, "Bob's offer");
}

#[test]
fn state_grows_widget_lists() {
    let t = window(TradePhase::Mutate);
    let mut s = t.init_state();
    assert_eq!(
        s,
        State { inv_alignment: 0, inv_slots: 0, inv_textslots: 0, offer_headers: 0, accept_indicators: 0 }
    );
    s.ensure_pane_ids();
    assert_eq!((s.inv_alignment, s.offer_headers, s.accept_indicators), (2, 2, 2));
    s.ensure_slot_ids();
    assert_eq!(s.inv_slots, SLOT_WIDGETS);
    assert_eq!(s.inv_textslots, 0);
    s.ensure_text_slot_ids();
    assert_eq!(s.inv_textslots, SLOT_WIDGETS);
    let mut big = State { inv_alignment: 5, inv_slots: 40, inv_textslots: 33, offer_headers: 3, accept_indicators: 9 };
    let before = big;
    big.ensure_pane_ids();
    big.ensure_slot_ids();
    big.ensure_text_slot_ids();
    assert_eq!(big, before);
}

#[test]
fn item_pane_and_buttons_directly() {
    let t = window(TradePhase::Mutate);
    let trade = t.pending.as_ref().unwrap();
    let mut st = fresh();
    let pane = t.item_pane(&mut st, trade, 1).unwrap();
    assert_eq!(st.inv_slots, SLOT_WIDGETS);
    assert_eq!(pane.accept_indicator, "Player 1 has accepted");
    assert_eq!(Trade::pane_anchor(0), PaneAnchor::BackgroundTopLeft);
    assert_eq!(Trade::pane_anchor(3), PaneAnchor::RightOfFirstPane);
    assert_eq!(Trade::accept_decline_buttons(trade, true, false), Some(TradeActionMsg::Phase1Accept));
    assert_eq!(Trade::close_button(true), Some(TradeActionMsg::Decline));
    let grid = Trade::phase1_itemwidget(&mut st, 0, &trade_slots(&trade.offers[0]));
    assert_eq!(grid.len(), MAX_TRADE_SLOTS);
    let lines = Trade::phase2_itemwidget(
        &mut st,
        &items(&[(0, 1, "Apple")]),
        0,
        &trade_slots(&trade.offers[0]),
    );
    assert_eq!(st.inv_textslots, SLOT_WIDGETS);
    assert_eq!(lines[0].text, "1 x Apple");
    assert_eq!(lines[1].text, "2 x ");
}

#[test]
fn sort_offer_agrees_with_std_sort() {
    let mut seed: u64 = 0x2545_f491_4f6c_dd1d;
    for len in 0..40 {
        let mut entries = Vec::new();
        for _ in 0..len {
            seed ^= seed << 13;
            seed ^= seed >> 7;
            seed ^= seed << 17;
            let l = (seed % 3) as usize;
            let s = ((seed >> 8) % 5) as usize;
            let q = ((seed >> 16) % 4) as u32;
            entries.push((slot(l, s), q));
        }
        let mut expected: Vec<(usize, usize, u32)> =
            entries.iter().map(|(k, q)| (k.loadout_idx, k.slot_idx, *q)).collect();
        expected.sort();
        let got: Vec<(usize, usize, u32)> =
            sort_offer(&entries).iter().map(|(k, q)| (k.loadout_idx, k.slot_idx, *q)).collect();
        assert_eq!(got, expected);
    }
}

#[test]
fn grid_shows_only_the_first_places() {
    let mut o = SlotMap::new();
    for i in 0..20 {
        o.insert(slot(0, 19 - i), 1);
    }
    let slots = trade_slots(&o);
    assert_eq!(slots.len(), 20);
    let grid = Trade::phase1_itemwidget(&mut fresh(), 1, &slots);
    assert_eq!(grid.len(), MAX_TRADE_SLOTS);
    for (i, cell) in grid.iter().enumerate() {
        assert_eq!(cell.slot.index, i);
        assert_eq!(cell.slot.invslot, Some(slot(0, i)));
        assert_eq!(cell.widget_index, i + MAX_TRADE_SLOTS);
    }
}

#[test]
fn frame_grows_widgets_once() {
    let t = window(TradePhase::Mutate);
    let mut st = fresh();
    let frame = t.update(&mut st, no_clicks());
    assert!(frame.layout.is_some());
    assert_eq!(
        st,
        State { inv_alignment: 2, inv_slots: SLOT_WIDGETS, inv_textslots: 0, offer_headers: 2, accept_indicators: 2 }
    );
    let after_first = st;
    t.update(&mut st, no_clicks());
    assert_eq!(st, after_first);

    let t = window(TradePhase::Review);
    t.update(&mut st, no_clicks());
    assert_eq!(st.inv_textslots, SLOT_WIDGETS);
    assert_eq!(st.inv_slots, SLOT_WIDGETS);

    // Without any pane shown, no slot widgets are needed.
    let t = Trade::new(
        Some(pending(TradePhase::Mutate, SlotMap::new(), SlotMap::new())),
        [party(None, None), party(None, None)],
        strings(),
    );
    let mut st = fresh();
    let frame = t.update(&mut st, no_clicks());
    let l = frame.layout.unwrap();
    assert!(l.panes[0].is_none() && l.panes[1].is_none());
    assert_eq!(
        st,
        State { inv_alignment: 2, inv_slots: 0, inv_textslots: 0, offer_headers: 2, accept_indicators: 2 }
    );
}
