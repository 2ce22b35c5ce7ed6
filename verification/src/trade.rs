//! A pending trade between two parties, and the trade actions that the window's
//! buttons send.
use crate::slot_map::SlotMap;
use vstd::prelude::*;

verus! {

/// The phase a pending trade is in: the parties change their offers, then review
/// them, then the trade is complete.
#[derive(Clone, Copy, Debug, PartialEq, Eq, Structural)]
pub enum TradePhase {
    Mutate,
    Review,
    Complete,
}

/// A trade between two parties that has not been carried out yet: what each party
/// offers (the quantity from each of its inventory slots) and which party has
/// accepted in each of the two rounds of acceptance. The phase follows from the
/// acceptances.
pub struct PendingTrade {
    pub offers: [SlotMap<u32>; 2],
    pub phase1_accepts: [bool; 2],
    pub phase2_accepts: [bool; 2],
}

/// The actions the trading window sends about a pending trade.
#[derive(Clone, Copy, Debug, PartialEq, Eq, Structural)]
pub enum TradeActionMsg {
    /// Accept the offers in the first phase.
    Phase1Accept,
    /// Accept the offers in the reviewing phase.
    Phase2Accept,
    /// Leave the trade.
    Decline,
}

impl PendingTrade {
    /// The phase of the trade: the offers change until both parties have accepted
    /// them, then they are reviewed until both parties have accepted again, and
    /// then the trade is complete.
    pub open spec fn phase(self) -> TradePhase {
        if !(self.phase1_accepts[0] && self.phase1_accepts[1]) {
            TradePhase::Mutate
        } else if !(self.phase2_accepts[0] && self.phase2_accepts[1]) {
            TradePhase::Review
        } else {
            TradePhase::Complete
        }
    }

    pub fn new(offers: [SlotMap<u32>; 2], phase1_accepts: [bool; 2], phase2_accepts: [bool; 2]) -> (t:
        PendingTrade)
        ensures
            t.offers == offers,
            t.phase1_accepts == phase1_accepts,
            t.phase2_accepts == phase2_accepts,
    {
        PendingTrade { offers, phase1_accepts, phase2_accepts }
    }

    /// Whether the parties are still changing their offers: not both of them have
    /// accepted the offers yet.
    pub fn in_phase1(&self) -> (b: bool)
        ensures
            b == (self.phase() == TradePhase::Mutate),
    {
        !(self.phase1_accepts[0] && self.phase1_accepts[1])
    }

    /// Whether the parties are reviewing the offers: both have accepted them once,
    /// and not both a second time.
    pub fn in_phase2(&self) -> (b: bool)
        ensures
            b == (self.phase() == TradePhase::Review),
    {
        (self.phase1_accepts[0] && self.phase1_accepts[1]) && !(self.phase2_accepts[0]
            && self.phase2_accepts[1])
    }
}

/// The offers are reviewed only once both parties have accepted them, and the
/// trade is complete only once both have accepted them in both rounds.
pub proof fn lemma_phase_follows_acceptances(trade: PendingTrade)
    ensures
        trade.phase() != TradePhase::Mutate <==> trade.phase1_accepts[0]
            && trade.phase1_accepts[1],
        trade.phase() == TradePhase::Complete <==> trade.phase1_accepts[0]
            && trade.phase1_accepts[1] && trade.phase2_accepts[0] && trade.phase2_accepts[1],
{
}

/// Whether party `who` has accepted in the phase the trade is in; in the last
/// phase nobody has anything left to accept.
pub open spec fn spec_has_accepted(trade: PendingTrade, who: int) -> bool {
    ||| trade.phase() == TradePhase::Mutate && trade.phase1_accepts[who]
    ||| trade.phase() == TradePhase::Review && trade.phase2_accepts[who]
}

/// Whether party `who` has accepted in the phase the trade is in.
pub fn has_accepted(trade: &PendingTrade, who: usize) -> (b: bool)
    requires
        who < 2,
    ensures
        b == spec_has_accepted(*trade, who as int),
{
    (trade.in_phase1() && trade.phase1_accepts[who]) || (trade.in_phase2()
        && trade.phase2_accepts[who])
}

/// What a click on the accept button, the decline button, or both sends in a
/// given phase: declining wins; accepting sends the acceptance of the phase the
/// trade is in, and nothing in the last phase.
pub open spec fn spec_accept_decline_event(
    phase: TradePhase,
    accept_clicked: bool,
    decline_clicked: bool,
) -> Option<TradeActionMsg> {
    if decline_clicked {
        Some(TradeActionMsg::Decline)
    } else if accept_clicked && phase == TradePhase::Mutate {
        Some(TradeActionMsg::Phase1Accept)
    } else if accept_clicked && phase == TradePhase::Review {
        Some(TradeActionMsg::Phase2Accept)
    } else {
        None
    }
}

/// What the accept and decline buttons send, given which of them was clicked.
pub fn accept_decline_event(trade: &PendingTrade, accept_clicked: bool, decline_clicked: bool) -> (event:
    Option<TradeActionMsg>)
    ensures
        event == spec_accept_decline_event(trade.phase(), accept_clicked, decline_clicked),
{
    let mut event: Option<TradeActionMsg> = None;
    if accept_clicked {
        if trade.in_phase1() {
            event = Some(TradeActionMsg::Phase1Accept);
        } else if trade.in_phase2() {
            event = Some(TradeActionMsg::Phase2Accept);
        }
    }
    if decline_clicked {
        event = Some(TradeActionMsg::Decline);
    }
    event
}

/// What the close button sends: a click declines the trade.
pub fn close_event(clicked: bool) -> (event: Option<TradeActionMsg>)
    ensures
        event == (if clicked {
            Some(TradeActionMsg::Decline)
        } else {
            None
        }),
{
    if clicked {
        Some(TradeActionMsg::Decline)
    } else {
        None
    }
}

/// `first` where it is an action, else `fallback`.
pub open spec fn spec_or(first: Option<TradeActionMsg>, fallback: Option<TradeActionMsg>) -> Option<
    TradeActionMsg,
> {
    match first {
        Some(e) => Some(e),
        None => fallback,
    }
}

/// `first` where it is an action, else `fallback`.
pub fn or_event(first: Option<TradeActionMsg>, fallback: Option<TradeActionMsg>) -> (event: Option<
    TradeActionMsg,
>)
    ensures
        event == spec_or(first, fallback),
{
    match first {
        Some(e) => Some(e),
        None => fallback,
    }
}

/// Which buttons of the window were clicked in one frame.
#[derive(Clone, Copy, Debug, PartialEq, Eq, Structural)]
pub struct Clicks {
    pub accept: bool,
    pub decline: bool,
    pub close: bool,
}

/// What the window sends in a frame: without a pending trade it declines; else the
/// close button wins over the accept and decline buttons.
pub open spec fn spec_update_event(phase: Option<TradePhase>, clicks: Clicks) -> Option<
    TradeActionMsg,
> {
    match phase {
        None => Some(TradeActionMsg::Decline),
        Some(p) => spec_or(
            if clicks.close {
                Some(TradeActionMsg::Decline)
            } else {
                None
            },
            spec_accept_decline_event(p, clicks.accept, clicks.decline),
        ),
    }
}

/// Declining always ends in `Decline`, whatever else was clicked and whatever the phase.
pub proof fn lemma_decline_wins(phase: Option<TradePhase>, clicks: Clicks)
    requires
        clicks.decline || clicks.close || phase is None,
    ensures
        spec_update_event(phase, clicks) == Some(TradeActionMsg::Decline),
{
}

/// A frame in which no button was clicked sends nothing while a trade is pending.
pub proof fn lemma_no_click_no_event(phase: TradePhase, clicks: Clicks)
    requires
        !clicks.accept,
        !clicks.decline,
        !clicks.close,
    ensures
        spec_update_event(Some(phase), clicks) is None,
{
}

/// An acceptance sent by the window is always the one of the phase the trade is
/// in; in the last phase the window sends no acceptance.
pub proof fn lemma_acceptance_matches_phase(phase: TradePhase, clicks: Clicks)
    ensures
        spec_update_event(Some(phase), clicks) == Some(TradeActionMsg::Phase1Accept) ==> phase
            == TradePhase::Mutate && clicks.accept,
        spec_update_event(Some(phase), clicks) == Some(TradeActionMsg::Phase2Accept) ==> phase
            == TradePhase::Review && clicks.accept,
        phase == TradePhase::Complete ==> spec_update_event(Some(phase), clicks) is None
            || spec_update_event(Some(phase), clicks) == Some(TradeActionMsg::Decline),
{
}

/// Nobody has anything to accept once the trade is complete.
pub proof fn lemma_nothing_accepted_when_complete(trade: PendingTrade, who: int)
    requires
        trade.phase() == TradePhase::Complete,
    ensures
        !spec_has_accepted(trade, who),
{
}

/// Each party's acceptance is its own: while the offers change it is the party's
/// first-round flag, while they are reviewed its second-round flag, whatever the
/// other party did; once the trade is complete nobody is shown as accepting.
pub proof fn lemma_has_accepted_is_own_flag(trade: PendingTrade, who: int)
    requires
        0 <= who < 2,
    ensures
        trade.phase() == TradePhase::Mutate ==> spec_has_accepted(trade, who)
            == trade.phase1_accepts[who],
        trade.phase() == TradePhase::Review ==> spec_has_accepted(trade, who)
            == trade.phase2_accepts[who],
        trade.phase() == TradePhase::Complete ==> !spec_has_accepted(trade, who),
{
}

} // verus!
