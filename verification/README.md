# trade_hud

The trading window of a game HUD, with its decisions verified by Verus.

- `src/slot_map.rs` — inventory slot ids and `SlotMap`, a map keyed by slots
  (an offer's quantities, an inventory's item names) whose view is a `Map`.
- `src/slots.rs` — the slots of a party's pane: the offered entries sorted by
  slot and numbered, padded with empty slots.
- `src/text.rs` — decimal numbers, player names, placeholder replacement and the
  lines of the reviewing list.
- `src/trade.rs` — the pending trade, its phases, who has accepted, and the
  actions the buttons send.
- `src/widget.rs` — the window: what it shows for a trade (`Trade::layout`),
  and one frame (`Trade::update`): the layout, the widget counts it grows, and
  the action the clicks send.
- `app/` — the conrod widget that draws the layout and reports the clicks.
- `tests/` — tests on concrete values.
