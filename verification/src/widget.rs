//! The trading window: what it shows for a pending trade, and what it sends when
//! its buttons are clicked.
//!
//! The window shows the phase the trade is in and a pane for each party. A pane
//! names the party's offer, says whether the party has accepted, and lists the
//! offered items: as a grid of slots while the offers change, as lines of text
//! while they are reviewed.
use crate::slot_map::{InvSlotId, SlotMap};
use crate::slots::{
    slot_or_empty, spec_slot_or_empty, spec_trade_slots, trade_slots, TradeSlot, MAX_TRADE_SLOTS,
};
use crate::text::{
    decimal, fill_player_name, opt_string_view, player_name, player_placeholder, replaced, slot_label,
    spec_player_name, spec_slot_label,
};
use crate::trade::{
    accept_decline_event, close_event, has_accepted, or_event, spec_has_accepted,
    spec_update_event, Clicks, PendingTrade, TradeActionMsg, TradePhase,
};
use vstd::prelude::*;

verus! {

/// The text that tells which phase the trade is in.
#[derive(Clone, Copy, Debug, PartialEq, Eq, Structural)]
pub enum PhaseText {
    Phase1,
    Phase2,
    Phase3,
}

impl PhaseText {
    /// The localization key of the text.
    pub open spec fn spec_key(self) -> Seq<char> {
        match self {
            PhaseText::Phase1 => "hud.trade.phase1_description"@,
            PhaseText::Phase2 => "hud.trade.phase2_description"@,
            PhaseText::Phase3 => "hud.trade.phase3_description"@,
        }
    }

    /// The localization key of the text.
    pub fn key(&self) -> (k: &'static str)
        ensures
            k@ == self.spec_key(),
    {
        match self {
            PhaseText::Phase1 => "hud.trade.phase1_description",
            PhaseText::Phase2 => "hud.trade.phase2_description",
            PhaseText::Phase3 => "hud.trade.phase3_description",
        }
    }
}

/// The phase text for a phase.
pub open spec fn spec_phase_text(phase: TradePhase) -> PhaseText {
    match phase {
        TradePhase::Mutate => PhaseText::Phase1,
        TradePhase::Review => PhaseText::Phase2,
        TradePhase::Complete => PhaseText::Phase3,
    }
}

/// Where a party's pane stands.
#[derive(Clone, Copy, Debug, PartialEq, Eq, Structural)]
pub enum PaneAnchor {
    /// At the top left of the window's background.
    BackgroundTopLeft,
    /// Right of the first party's pane.
    RightOfFirstPane,
}

/// Even-numbered parties' panes stand at the top left of the window, the others
/// right of the first pane.
pub open spec fn spec_pane_anchor(who: nat) -> PaneAnchor {
    if who % 2 == 0 {
        PaneAnchor::BackgroundTopLeft
    } else {
        PaneAnchor::RightOfFirstPane
    }
}

/// How many slots a row of a pane's grid holds.
pub const GRID_COLUMNS: usize = 4;

/// How many widgets of the grid slots, or of the lines of text, the window needs:
/// one for each place of each party's pane.
pub const SLOT_WIDGETS: usize = 2 * MAX_TRADE_SLOTS;

/// The side of a grid slot.
pub const GRID_SLOT_SIZE: usize = 40;

/// The distance from the top of a pane to its first line of text.
pub const TEXT_TOP: usize = 10;

/// The distance between two lines of text of a pane.
pub const TEXT_LINE_HEIGHT: usize = 30;

/// A slot of a pane's grid: the slot, its column and row, its distance from the
/// pane's top and left edges, and the number of its widget.
#[derive(Clone, Copy, Debug, PartialEq, Eq, Structural)]
pub struct GridSlot {
    pub slot: TradeSlot,
    pub column: usize,
    pub row: usize,
    pub top_margin: usize,
    pub left_margin: usize,
    pub widget_index: usize,
}

/// The number of the widget of place `i` of party `who`'s pane: each party has
/// `MAX_TRADE_SLOTS` of them, the first party's first.
pub open spec fn spec_widget_index(who: nat, i: nat) -> nat {
    i + who * (MAX_TRADE_SLOTS as nat)
}

/// The grid slot at place `i` of party `who`'s pane.
pub open spec fn spec_grid_slot(slots: Seq<TradeSlot>, who: nat, i: nat) -> GridSlot {
    GridSlot {
        slot: spec_slot_or_empty(slots, i as int),
        column: (i % 4) as usize,
        row: (i / 4) as usize,
        top_margin: ((i / 4) * 40) as usize,
        left_margin: ((i % 4) * 40) as usize,
        widget_index: spec_widget_index(who, i) as usize,
    }
}

/// The grid of party `who`'s pane: a slot for each place.
pub open spec fn spec_grid(slots: Seq<TradeSlot>, who: nat) -> Seq<GridSlot> {
    Seq::new(MAX_TRADE_SLOTS as nat, |i: int| spec_grid_slot(slots, who, i as nat))
}

/// A line of text of a pane: the text, whether it shows an offered item, its
/// distance from the pane's top, and the number of its widget.
pub struct TextSlot {
    pub text: String,
    pub present: bool,
    pub top_margin: usize,
    pub widget_index: usize,
}

/// A line of text of a pane, its text as characters.
pub struct TextSlotView {
    pub text: Seq<char>,
    pub present: bool,
    pub top_margin: usize,
    pub widget_index: usize,
}

impl View for TextSlot {
    type V = TextSlotView;

    open spec fn view(&self) -> TextSlotView {
        TextSlotView {
            text: self.text@,
            present: self.present,
            top_margin: self.top_margin,
            widget_index: self.widget_index,
        }
    }
}

/// The name of the item in a slot: the name of what the inventory holds there,
/// or nothing for an empty slot or one the inventory has nothing in.
pub open spec fn spec_item_name(items: Map<InvSlotId, String>, slot: TradeSlot) -> Seq<char> {
    match slot.invslot {
        Some(k) => if items.contains_key(k) {
            items[k]@
        } else {
            Seq::empty()
        },
        None => Seq::empty(),
    }
}

/// The line at place `i` of party `who`'s pane.
pub open spec fn spec_text_slot(
    slots: Seq<TradeSlot>,
    items: Map<InvSlotId, String>,
    who: nat,
    i: nat,
) -> TextSlotView {
    let slot = spec_slot_or_empty(slots, i as int);
    TextSlotView {
        text: spec_slot_label(slot.quantity, spec_item_name(items, slot)),
        present: slot.quantity > 0 && slot.invslot is Some,
        top_margin: (10 + i * 30) as usize,
        widget_index: spec_widget_index(who, i) as usize,
    }
}

/// The lines of party `who`'s pane: one for each place.
pub open spec fn spec_text_list(
    slots: Seq<TradeSlot>,
    items: Map<InvSlotId, String>,
    who: nat,
) -> Seq<TextSlotView> {
    Seq::new(MAX_TRADE_SLOTS as nat, |i: int| spec_text_slot(slots, items, who, i as nat))
}

/// How a pane lists the offered items.
pub enum SlotsLayout {
    /// A grid of item slots, while the offers change.
    Grid(Vec<GridSlot>),
    /// Lines of text, while the offers are reviewed.
    Text(Vec<TextSlot>),
}

/// How a pane lists the offered items, texts as characters.
pub enum SlotsView {
    Grid(Seq<GridSlot>),
    Text(Seq<TextSlotView>),
}

impl View for SlotsLayout {
    type V = SlotsView;

    open spec fn view(&self) -> SlotsView {
        match self {
            SlotsLayout::Grid(v) => SlotsView::Grid(v@),
            SlotsLayout::Text(v) => SlotsView::Text(v@.map_values(|t: TextSlot| t@)),
        }
    }
}

/// What a party's pane shows.
pub struct PaneLayout {
    pub anchor: PaneAnchor,
    pub offer_header: String,
    pub accept_indicator: String,
    pub has_accepted: bool,
    pub slots: SlotsLayout,
}

/// What a party's pane shows, texts as characters.
pub struct PaneView {
    pub anchor: PaneAnchor,
    pub offer_header: Seq<char>,
    pub accept_indicator: Seq<char>,
    pub has_accepted: bool,
    pub slots: SlotsView,
}

impl View for PaneLayout {
    type V = PaneView;

    open spec fn view(&self) -> PaneView {
        PaneView {
            anchor: self.anchor,
            offer_header: self.offer_header@,
            accept_indicator: self.accept_indicator@,
            has_accepted: self.has_accepted,
            slots: self.slots@,
        }
    }
}

/// The view of a pane that may be missing.
pub open spec fn opt_pane_view(p: Option<PaneLayout>) -> Option<PaneView> {
    match p {
        Some(x) => Some(x@),
        None => None,
    }
}

/// What the window shows for a pending trade.
pub struct TradeLayout {
    pub phase_text: PhaseText,
    pub panes: [Option<PaneLayout>; 2],
}

/// What the window shows for a pending trade, texts as characters.
pub struct TradeLayoutView {
    pub phase_text: PhaseText,
    pub panes: Seq<Option<PaneView>>,
}

impl View for TradeLayout {
    type V = TradeLayoutView;

    open spec fn view(&self) -> TradeLayoutView {
        TradeLayoutView {
            phase_text: self.phase_text,
            panes: seq![opt_pane_view(self.panes[0]), opt_pane_view(self.panes[1])],
        }
    }
}

/// What the window knows of a party: the player's alias where the player list
/// has it, and the names of the items in the party's inventory where the
/// inventory could be found.
pub struct Party {
    pub alias: Option<String>,
    pub items: Option<SlotMap<String>>,
}

/// The localized texts of a pane, with a placeholder for the player's name.
pub struct TradeStrings {
    /// The header above a party's offer.
    pub persons_offer: String,
    /// The line that tells that a party has accepted.
    pub has_accepted: String,
}

/// What party `who`'s pane shows, where the party's inventory could be found.
pub open spec fn spec_pane(trade: PendingTrade, who: nat, party: Party, strings: TradeStrings) -> Option<
    PaneView,
> {
    match party.items {
        None => None,
        Some(items) => {
            let name = spec_player_name(opt_string_view(party.alias), who);
            let slots = spec_trade_slots(trade.offers[who as int].entry_seq());
            Some(
                PaneView {
                    anchor: spec_pane_anchor(who),
                    offer_header: replaced(strings.persons_offer@, player_placeholder(), name),
                    accept_indicator: replaced(strings.has_accepted@, player_placeholder(), name),
                    has_accepted: spec_has_accepted(trade, who as int),
                    slots: if trade.phase() == TradePhase::Mutate {
                        SlotsView::Grid(spec_grid(slots, who))
                    } else {
                        SlotsView::Text(spec_text_list(slots, items@, who))
                    },
                },
            )
        },
    }
}

/// What the window shows for a pending trade.
pub open spec fn spec_layout(trade: PendingTrade, parties: [Party; 2], strings: TradeStrings) -> TradeLayoutView {
    TradeLayoutView {
        phase_text: spec_phase_text(trade.phase()),
        panes: seq![
            spec_pane(trade, 0, parties[0], strings),
            spec_pane(trade, 1, parties[1], strings),
        ],
    }
}

/// The phase of a trade that may be missing.
pub open spec fn opt_phase(t: Option<PendingTrade>) -> Option<TradePhase> {
    match t {
        Some(x) => Some(x.phase()),
        None => None,
    }
}

/// How many widgets of each growing kind the window holds: the panes, their grid
/// slots, their lines of text, their headers and their acceptance lines.
#[derive(Clone, Copy, Debug, PartialEq, Eq, Structural)]
pub struct State {
    pub inv_alignment: usize,
    pub inv_slots: usize,
    pub inv_textslots: usize,
    pub offer_headers: usize,
    pub accept_indicators: usize,
}

/// A count of widgets grown to hold at least `needed`: counts below `needed`
/// become `needed`, others stay.
pub open spec fn grown(len: usize, needed: usize) -> usize {
    if len < needed {
        needed
    } else {
        len
    }
}

fn grow(len: usize, needed: usize) -> (n: usize)
    ensures
        n == grown(len, needed),
{
    if len < needed {
        needed
    } else {
        len
    }
}

/// The widget counts after party's pane has been shown, starting from `s`: a pane
/// that is shown needs a full grid of slots while the offers change, and a full
/// list of lines while they are reviewed; a pane that is not shown needs nothing.
pub open spec fn spec_pane_state(s: State, trade: PendingTrade, party: Party) -> State {
    match party.items {
        None => s,
        Some(_) => if trade.phase() == TradePhase::Mutate {
            State { inv_slots: grown(s.inv_slots, SLOT_WIDGETS), ..s }
        } else {
            State { inv_textslots: grown(s.inv_textslots, SLOT_WIDGETS), ..s }
        },
    }
}

/// The widget counts after a frame of a pending trade, starting from `s`: the
/// panes, their headers and their acceptance lines grow to one for each party;
/// if some pane is shown, the grid slots grow to a full grid for each party while
/// the offers change, and the lines to a full list for each party while they are
/// reviewed. Nothing else changes.
pub open spec fn spec_frame_state(s: State, trade: PendingTrade, parties: [Party; 2]) -> State {
    let shown = parties[0].items is Some || parties[1].items is Some;
    let changing = trade.phase() == TradePhase::Mutate;
    State {
        inv_alignment: grown(s.inv_alignment, 2),
        offer_headers: grown(s.offer_headers, 2),
        accept_indicators: grown(s.accept_indicators, 2),
        inv_slots: if shown && changing {
            grown(s.inv_slots, SLOT_WIDGETS)
        } else {
            s.inv_slots
        },
        inv_textslots: if shown && !changing {
            grown(s.inv_textslots, SLOT_WIDGETS)
        } else {
            s.inv_textslots
        },
    }
}

/// What one frame of the window shows and sends.
pub struct TradeFrame {
    /// What the window shows; nothing without a pending trade.
    pub layout: Option<TradeLayout>,
    /// The action the frame sends, if any.
    pub event: Option<TradeActionMsg>,
}

impl State {
    /// Grows the widgets of the panes, their headers and their acceptance lines
    /// to one for each party.
    pub fn ensure_pane_ids(&mut self)
        ensures
            final(self).inv_alignment == grown(old(self).inv_alignment, 2),
            final(self).offer_headers == grown(old(self).offer_headers, 2),
            final(self).accept_indicators == grown(old(self).accept_indicators, 2),
            final(self).inv_slots == old(self).inv_slots,
            final(self).inv_textslots == old(self).inv_textslots,
    {
        self.inv_alignment = grow(self.inv_alignment, 2);
        self.offer_headers = grow(self.offer_headers, 2);
        self.accept_indicators = grow(self.accept_indicators, 2);
    }

    /// Grows the grid slot widgets to a full grid for each party.
    pub fn ensure_slot_ids(&mut self)
        ensures
            *final(self) == (State {
                inv_slots: grown(old(self).inv_slots, SLOT_WIDGETS),
                ..*old(self)
            }),
    {
        self.inv_slots = grow(self.inv_slots, SLOT_WIDGETS);
    }

    /// Grows the text line widgets to a full list for each party.
    pub fn ensure_text_slot_ids(&mut self)
        ensures
            *final(self) == (State {
                inv_textslots: grown(old(self).inv_textslots, SLOT_WIDGETS),
                ..*old(self)
            }),
    {
        self.inv_textslots = grow(self.inv_textslots, SLOT_WIDGETS);
    }
}

/// The trading window for a pending trade between two parties.
pub struct Trade {
    /// The trade the player takes part in, if any.
    pub pending: Option<PendingTrade>,
    /// What the window knows of each party.
    pub parties: [Party; 2],
    /// The localized texts of the panes.
    pub strings: TradeStrings,
}

impl Trade {
    pub fn new(pending: Option<PendingTrade>, parties: [Party; 2], strings: TradeStrings) -> (t:
        Trade)
        ensures
            t.pending == pending,
            t.parties == parties,
            t.strings == strings,
    {
        Trade { pending, parties, strings }
    }

    /// The window starts with no widgets of the growing kinds.
    pub fn init_state(&self) -> (s: State)
        ensures
            s == (State {
                inv_alignment: 0,
                inv_slots: 0,
                inv_textslots: 0,
                offer_headers: 0,
                accept_indicators: 0,
            }),
    {
        State {
            inv_alignment: 0,
            inv_slots: 0,
            inv_textslots: 0,
            offer_headers: 0,
            accept_indicators: 0,
        }
    }

    /// The text that tells which phase the trade is in.
    pub fn phase_indicator(trade: &PendingTrade) -> (p: PhaseText)
        ensures
            p == spec_phase_text(trade.phase()),
    {
        if trade.in_phase1() {
            PhaseText::Phase1
        } else if trade.in_phase2() {
            PhaseText::Phase2
        } else {
            PhaseText::Phase3
        }
    }

    /// Where party `who`'s pane stands.
    pub fn pane_anchor(who: usize) -> (a: PaneAnchor)
        ensures
            a == spec_pane_anchor(who as nat),
    {
        if who % 2 == 0 {
            PaneAnchor::BackgroundTopLeft
        } else {
            PaneAnchor::RightOfFirstPane
        }
    }

    /// The grid of party `who`'s pane while the offers change: a slot for each
    /// place, the offered items first.
    pub fn phase1_itemwidget(state: &mut State, who: usize, tradeslots: &Vec<TradeSlot>) -> (grid:
        Vec<GridSlot>)
        requires
            who < 2,
        ensures
            grid@ == spec_grid(tradeslots@, who as nat),
            forall|i: int|
                0 <= i < MAX_TRADE_SLOTS ==> #[trigger] grid@[i].top_margin == 40 * (i / 4)
                    && grid@[i].left_margin == 40 * (i % 4),
            *final(state) == (State {
                inv_slots: grown(old(state).inv_slots, SLOT_WIDGETS),
                ..*old(state)
            }),
    {
        state.ensure_slot_ids();
        let mut grid: Vec<GridSlot> = Vec::new();
        let mut i: usize = 0;
        while i < MAX_TRADE_SLOTS
            invariant
                who < 2,
                i <= MAX_TRADE_SLOTS,
                grid@ =~= spec_grid(tradeslots@, who as nat).take(i as int),
            decreases MAX_TRADE_SLOTS - i,
        {
            let x: usize = i % GRID_COLUMNS;
            let y: usize = i / GRID_COLUMNS;
            let slot = slot_or_empty(tradeslots, i);
            grid.push(
                GridSlot {
                    slot,
                    column: x,
                    row: y,
                    top_margin: y * GRID_SLOT_SIZE,
                    left_margin: x * GRID_SLOT_SIZE,
                    widget_index: i + who * MAX_TRADE_SLOTS,
                },
            );
            i = i + 1;
        }
        grid
    }

    /// The line for one slot while the offers are reviewed.
    fn text_slot(items: &SlotMap<String>, who: usize, i: usize, slot: TradeSlot) -> (line: TextSlot)
        requires
            who < 2,
            i < MAX_TRADE_SLOTS,
        ensures
            line@ == (TextSlotView {
                text: spec_slot_label(slot.quantity, spec_item_name(items@, slot)),
                present: slot.quantity > 0 && slot.invslot is Some,
                top_margin: (10 + i * 30) as usize,
                widget_index: spec_widget_index(who as nat, i as nat) as usize,
            }),
    {
        proof {
            reveal_strlit("");
        }
        let text = match slot.invslot {
            Some(k) => match items.get(k) {
                Some(name) => slot_label(slot.quantity, name.as_str()),
                None => slot_label(slot.quantity, ""),
            },
            None => slot_label(slot.quantity, ""),
        };
        let present = slot.quantity > 0 && slot.invslot.is_some();
        TextSlot {
            text,
            present,
            top_margin: TEXT_TOP + i * TEXT_LINE_HEIGHT,
            widget_index: i + who * MAX_TRADE_SLOTS,
        }
    }

    /// The lines of party `who`'s pane while the offers are reviewed: one for each
    /// place, naming the quantity and the item.
    pub fn phase2_itemwidget(
        state: &mut State,
        items: &SlotMap<String>,
        who: usize,
        tradeslots: &Vec<TradeSlot>,
    ) -> (lines: Vec<TextSlot>)
        requires
            who < 2,
        ensures
            lines@.map_values(|t: TextSlot| t@) == spec_text_list(tradeslots@, items@, who as nat),
            *final(state) == (State {
                inv_textslots: grown(old(state).inv_textslots, SLOT_WIDGETS),
                ..*old(state)
            }),
    {
        state.ensure_text_slot_ids();
        let mut lines: Vec<TextSlot> = Vec::new();
        let mut i: usize = 0;
        while i < MAX_TRADE_SLOTS
            invariant
                who < 2,
                i <= MAX_TRADE_SLOTS,
                lines@.map_values(|t: TextSlot| t@) =~= spec_text_list(
                    tradeslots@,
                    items@,
                    who as nat,
                ).take(i as int),
            decreases MAX_TRADE_SLOTS - i,
        {
            let slot = slot_or_empty(tradeslots, i);
            let line = Self::text_slot(items, who, i, slot);
            let ghost before = lines@;
            proof {
                assert(line@ == spec_text_slot(tradeslots@, items@, who as nat, i as nat));
            }
            lines.push(line);
            proof {
                assert(lines@.map_values(|t: TextSlot| t@) =~= before.map_values(|t: TextSlot| t@).push(
                    line@,
                ));
            }
            i = i + 1;
        }
        lines
    }

    /// What party `who`'s pane shows, or nothing where the party's inventory could
    /// not be found.
    pub fn item_pane(&self, state: &mut State, trade: &PendingTrade, who: usize) -> (pane: Option<
        PaneLayout,
    >)
        requires
            who < 2,
        ensures
            opt_pane_view(pane) == spec_pane(*trade, who as nat, self.parties[who as int], self.strings),
            *final(state) == spec_pane_state(*old(state), *trade, self.parties[who as int]),
    {
        let party = &self.parties[who];
        let items = match &party.items {
            Some(items) => items,
            None => return None,
        };
        let anchor = Self::pane_anchor(who);
        let name = player_name(&party.alias, who);
        let offer_header = fill_player_name(self.strings.persons_offer.as_str(), name.as_str());
        let accepted = has_accepted(trade, who);
        let accept_indicator = fill_player_name(self.strings.has_accepted.as_str(), name.as_str());
        let tradeslots = trade_slots(&trade.offers[who]);
        let slots = if trade.in_phase1() {
            SlotsLayout::Grid(Self::phase1_itemwidget(state, who, &tradeslots))
        } else {
            SlotsLayout::Text(Self::phase2_itemwidget(state, items, who, &tradeslots))
        };
        Some(
            PaneLayout {
                anchor,
                offer_header,
                accept_indicator,
                has_accepted: accepted,
                slots,
            },
        )
    }

    /// What the accept and decline buttons send, given which of them was clicked.
    pub fn accept_decline_buttons(trade: &PendingTrade, accept_clicked: bool, decline_clicked: bool) -> (event:
        Option<TradeActionMsg>)
        ensures
            event == crate::trade::spec_accept_decline_event(
                trade.phase(),
                accept_clicked,
                decline_clicked,
            ),
    {
        accept_decline_event(trade, accept_clicked, decline_clicked)
    }

    /// What the close button sends: a click declines the trade.
    pub fn close_button(clicked: bool) -> (event: Option<TradeActionMsg>)
        ensures
            event == (if clicked {
                Some(TradeActionMsg::Decline)
            } else {
                None
            }),
    {
        close_event(clicked)
    }

    /// What the window shows: nothing without a pending trade, else the phase
    /// text and a pane for each party whose inventory was found. The widgets the
    /// shown panes need are grown in `state`.
    pub fn layout(&self, state: &mut State) -> (l: Option<TradeLayout>)
        ensures
            self.pending is None ==> l is None && *final(state) == *old(state),
            self.pending matches Some(t) ==> l matches Some(x) && x@ == spec_layout(
                t,
                self.parties,
                self.strings,
            ) && *final(state) == spec_frame_state(*old(state), t, self.parties),
    {
        match &self.pending {
            None => None,
            Some(trade) => {
                state.ensure_pane_ids();
                let phase_text = Self::phase_indicator(trade);
                let first = self.item_pane(state, trade, 0);
                let second = self.item_pane(state, trade, 1);
                let l = TradeLayout { phase_text, panes: [first, second] };
                proof {
                    assert(l@.panes =~= spec_layout(*trade, self.parties, self.strings).panes);
                }
                Some(l)
            },
        }
    }

    /// One frame of the window, given which buttons were clicked: what it shows,
    /// with the widgets that needs grown in `state`, and what it sends. Without a
    /// pending trade it shows nothing and declines; else the close button wins
    /// over the decline button, which wins over the accept button.
    pub fn update(&self, state: &mut State, clicks: Clicks) -> (frame: TradeFrame)
        ensures
            frame.event == spec_update_event(opt_phase(self.pending), clicks),
            self.pending is None ==> frame.layout is None && *final(state) == *old(state),
            self.pending matches Some(t) ==> frame.layout matches Some(x) && x@ == spec_layout(
                t,
                self.parties,
                self.strings,
            ) && *final(state) == spec_frame_state(*old(state), t, self.parties),
    {
        let trade = match &self.pending {
            Some(trade) => trade,
            None => return TradeFrame { layout: None, event: Some(TradeActionMsg::Decline) },
        };
        let layout = self.layout(state);
        let mut event: Option<TradeActionMsg> = None;
        event = or_event(Self::accept_decline_buttons(trade, clicks.accept, clicks.decline), event);
        event = or_event(Self::close_button(clicks.close), event);
        TradeFrame { layout, event }
    }
}

/// Widget counts only grow: a frame keeps every widget the window had.
pub proof fn lemma_frame_state_only_grows(s: State, trade: PendingTrade, parties: [Party; 2])
    ensures
        spec_frame_state(s, trade, parties).inv_alignment >= s.inv_alignment,
        spec_frame_state(s, trade, parties).inv_slots >= s.inv_slots,
        spec_frame_state(s, trade, parties).inv_textslots >= s.inv_textslots,
        spec_frame_state(s, trade, parties).offer_headers >= s.offer_headers,
        spec_frame_state(s, trade, parties).accept_indicators >= s.accept_indicators,
{
}

/// Once a frame of a trade has been shown, a further frame of the same trade
/// needs no new widgets.
pub proof fn lemma_second_frame_needs_no_widgets(s: State, trade: PendingTrade, parties: [Party; 2])
    ensures
        spec_frame_state(spec_frame_state(s, trade, parties), trade, parties) == spec_frame_state(
            s,
            trade,
            parties,
        ),
{
}

/// After a frame, every widget of a shown pane exists: the pane's own widgets,
/// and the grid slots or lines of text of the phase.
pub proof fn lemma_frame_widgets_exist(s: State, trade: PendingTrade, parties: [Party; 2], who: int, i: nat)
    requires
        0 <= who < 2,
        i < MAX_TRADE_SLOTS,
        parties[who].items is Some,
    ensures
        who < spec_frame_state(s, trade, parties).inv_alignment,
        who < spec_frame_state(s, trade, parties).offer_headers,
        who < spec_frame_state(s, trade, parties).accept_indicators,
        trade.phase() == TradePhase::Mutate ==> spec_widget_index(who as nat, i) < spec_frame_state(
            s,
            trade,
            parties,
        ).inv_slots,
        trade.phase() != TradePhase::Mutate ==> spec_widget_index(who as nat, i) < spec_frame_state(
            s,
            trade,
            parties,
        ).inv_textslots,
{
}

/// A party's pane is shown exactly when the party's inventory was found.
pub proof fn lemma_pane_shown_iff_inventory_found(
    trade: PendingTrade,
    parties: [Party; 2],
    strings: TradeStrings,
    who: int,
)
    requires
        0 <= who < 2,
    ensures
        spec_layout(trade, parties, strings).panes[who] is Some <==> parties[who].items is Some,
{
}

/// The grid is filled row by row, four slots to a row, each slot 40 wide and 40
/// high: place `i` stands in column `i % 4` of row `i / 4`, `40 * (i / 4)` below the
/// pane's top and `40 * (i % 4)` right of its left edge, so the next place in the
/// same row stands 40 further right.
pub proof fn lemma_grid_filled_row_by_row(slots: Seq<TradeSlot>, who: nat, i: int)
    requires
        0 <= i < MAX_TRADE_SLOTS,
    ensures
        spec_grid(slots, who)[i].column == i % 4,
        spec_grid(slots, who)[i].row == i / 4,
        spec_grid(slots, who)[i].top_margin == 40 * (i / 4),
        spec_grid(slots, who)[i].left_margin == 40 * (i % 4),
        i + 1 < MAX_TRADE_SLOTS && (i + 1) % 4 != 0 ==> spec_grid(slots, who)[i + 1].top_margin
            == spec_grid(slots, who)[i].top_margin && spec_grid(slots, who)[i + 1].left_margin
            == spec_grid(slots, who)[i].left_margin + 40,
{
}

/// A line of the reviewing list names the item that the party's inventory holds
/// at exactly the offered slot: the quantity, ` x ` and that item's name; a slot
/// the inventory holds nothing at, or an empty place, gets the quantity and ` x `
/// alone.
pub proof fn lemma_review_line_names_item(
    slots: Seq<TradeSlot>,
    items: Map<InvSlotId, String>,
    who: nat,
    i: int,
)
    requires
        0 <= i < MAX_TRADE_SLOTS,
    ensures
        ({
            let slot = spec_slot_or_empty(slots, i);
            let text = spec_text_list(slots, items, who)[i].text;
            &&& slot.invslot is Some && items.contains_key(slot.invslot->0) ==> text == decimal(
                slot.quantity as nat,
            ) + " x "@ + items[slot.invslot->0]@
            &&& slot.invslot is None || !items.contains_key(slot.invslot->0) ==> text == decimal(
                slot.quantity as nat,
            ) + " x "@
        }),
{
    let slot = spec_slot_or_empty(slots, i);
    assert(decimal(slot.quantity as nat) + " x "@ + Seq::<char>::empty() =~= decimal(
        slot.quantity as nat,
    ) + " x "@);
}

} // verus!
