//! Per-frame input samples and the single-token event arbitration rule.
//!
//! Each frame, every node derives one `UiAction` from: whether the frame's
//! action token is still available, whether the pointer is inside its
//! bounds, its previous action and hold flag, and the discrete left/right
//! pointer samples. The token is consumed by the first node (in traversal
//! order) that sees it while the pointer is inside its bounds, so at most
//! one node per frame can carry an "active" action.

use vstd::prelude::*;

verus! {

/// A node's action for the current frame. Ordered from least to most
/// engaged: `rank` exposes the ordering (`Idle` lowest, `RRelease`
/// highest), so "not yet an active press" can be written `rank < Hold`'s
/// rank.
#[derive(Debug, PartialEq, Eq, Structural, Clone, Copy)]
pub enum UiAction {
    Idle,
    Hover,
    Hold,
    LClickOuter,
    LClick,
    RClick,
    LRelease,
    RRelease,
}

impl UiAction {
    /// Position of the variant in the engagement order.
    pub open spec fn rank_spec(self) -> int {
        match self {
            UiAction::Idle => 0,
            UiAction::Hover => 1,
            UiAction::Hold => 2,
            UiAction::LClickOuter => 3,
            UiAction::LClick => 4,
            UiAction::RClick => 5,
            UiAction::LRelease => 6,
            UiAction::RRelease => 7,
        }
    }

    pub fn rank(&self) -> (r: u8)
        ensures
            r as int == self.rank_spec(),
    {
        match self {
            UiAction::Idle => 0,
            UiAction::Hover => 1,
            UiAction::Hold => 2,
            UiAction::LClickOuter => 3,
            UiAction::LClick => 4,
            UiAction::RClick => 5,
            UiAction::LRelease => 6,
            UiAction::RRelease => 7,
        }
    }

    /// The actions only a token holder can carry: everything except `Idle`
    /// and the token-independent `LClickOuter`.
    pub open spec fn is_active(self) -> bool {
        self != UiAction::Idle && self != UiAction::LClickOuter
    }
}

/// The discrete state of one pointer button for one frame. `Down` fires
/// only on the press transition frame, `Release` only on the release
/// transition frame, `Hold` on the frames in between.
#[derive(Debug, PartialEq, Eq, Structural, Clone, Copy)]
pub enum UiMouseAction {
    Idle,
    Down,
    Hold,
    Release,
}

/// The sample a button yields from the three raw per-frame queries: did a
/// press transition happen, did a release transition happen, is the button
/// currently down.
pub open spec fn mouse_action_spec(pressed: bool, released: bool, down: bool) -> UiMouseAction {
    if pressed {
        UiMouseAction::Down
    } else if released {
        UiMouseAction::Release
    } else if down {
        UiMouseAction::Hold
    } else {
        UiMouseAction::Idle
    }
}

/// Convert one button's raw per-frame queries into its discrete sample.
pub fn mouse_action(pressed: bool, released: bool, down: bool) -> (r: UiMouseAction)
    ensures
        r == mouse_action_spec(pressed, released, down),
{
    if pressed {
        UiMouseAction::Down
    } else if released {
        UiMouseAction::Release
    } else if down {
        UiMouseAction::Hold
    } else {
        UiMouseAction::Idle
    }
}

/// The outcome of one node's event derivation: its new action, its new
/// hold flag, and whether the action token is still available afterwards.
#[derive(Debug, PartialEq, Eq, Structural, Clone, Copy)]
pub struct EventStep {
    pub event: UiAction,
    pub holding: bool,
    pub avail: bool,
}

/// The event arbitration rule.
///
/// 1. If the token is available and the pointer is inside bounds, consume
///    the token; a left `Down` gives `LClick` and starts holding, a left
///    `Hold` gives `Hold`, a left `Release` gives `LRelease` if the node
///    was holding (and always stops holding), a right `Down`/`Release`
///    gives `RClick`/`RRelease`; with no button sample, a node whose
///    previous action was `Idle`, `Hover` or either release variant
///    shows `Hover`.
/// 2. Whatever the token said: a left `Down` with the pointer outside
///    bounds gives `LClickOuter`.
/// 3. A left `Release` always clears the hold flag, even when the node
///    never saw the release inside its bounds.
pub open spec fn update_event_spec(
    avail: bool,
    inbounds: bool,
    holding: bool,
    prev: UiAction,
    l: UiMouseAction,
    r: UiMouseAction,
) -> EventStep {
    let hover_evt = if prev == UiAction::Idle || prev == UiAction::Hover || prev
        == UiAction::LRelease || prev == UiAction::RRelease {
        UiAction::Hover
    } else {
        UiAction::Idle
    };
    let s = if avail && inbounds {
        if l == UiMouseAction::Down {
            EventStep { event: UiAction::LClick, holding: true, avail: false }
        } else if l == UiMouseAction::Hold {
            EventStep { event: UiAction::Hold, holding, avail: false }
        } else if l == UiMouseAction::Release {
            EventStep {
                event: if holding {
                    UiAction::LRelease
                } else {
                    hover_evt
                },
                holding: false,
                avail: false,
            }
        } else if r == UiMouseAction::Down {
            EventStep { event: UiAction::RClick, holding, avail: false }
        } else if r == UiMouseAction::Release {
            EventStep { event: UiAction::RRelease, holding, avail: false }
        } else {
            EventStep { event: hover_evt, holding, avail: false }
        }
    } else {
        EventStep { event: UiAction::Idle, holding, avail }
    };
    let s2 = if !inbounds && l == UiMouseAction::Down {
        EventStep { event: UiAction::LClickOuter, holding: s.holding, avail: s.avail }
    } else {
        s
    };
    if l == UiMouseAction::Release && s2.holding {
        EventStep { event: s2.event, holding: false, avail: s2.avail }
    } else {
        s2
    }
}

/// Derive one node's action for this frame, consuming the token when the
/// node claims it and updating the node's hold flag.
pub fn update_event(
    action_available: &mut bool,
    inbounds: bool,
    holding: &mut bool,
    prev_event: &UiAction,
    l_mouse: &UiMouseAction,
    r_mouse: &UiMouseAction,
) -> (evt: UiAction)
    ensures
        ({
            let s = update_event_spec(
                *old(action_available),
                inbounds,
                *old(holding),
                *prev_event,
                *l_mouse,
                *r_mouse,
            );
            evt == s.event && *final(holding) == s.holding && *final(action_available) == s.avail
        }),
{
    let mut evt = UiAction::Idle;
    if *action_available && inbounds {
        *action_available = false;
        match prev_event {
            UiAction::Idle | UiAction::Hover | UiAction::LRelease | UiAction::RRelease => {
                evt = UiAction::Hover;
            },
            _ => (),
        }
        if *l_mouse == UiMouseAction::Down {
            evt = UiAction::LClick;
            *holding = true;
        } else if *l_mouse == UiMouseAction::Hold {
            evt = UiAction::Hold;
        } else if *l_mouse == UiMouseAction::Release {
            if *holding {
                evt = UiAction::LRelease;
            }
            *holding = false;
        } else if *r_mouse == UiMouseAction::Down {
            evt = UiAction::RClick;
        } else if *r_mouse == UiMouseAction::Release {
            evt = UiAction::RRelease;
        }
    }
    if !inbounds && *l_mouse == UiMouseAction::Down {
        evt = UiAction::LClickOuter;
    }
    if *l_mouse == UiMouseAction::Release && *holding {
        *holding = false;
    }
    evt
}

} // verus!
