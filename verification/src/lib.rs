//! The decisions and the text of the trading window: what each party's pane
//! shows, how the offered items are ordered and laid out, and which trade action
//! a click on the window's buttons sends.
pub mod slot_map;
pub mod slots;
pub mod text;
pub mod trade;
pub mod widget;
