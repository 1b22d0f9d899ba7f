//! The panel visibility/attachment state machine.
//!
//! The panel is hidden, shown docked, or shown detached. Transitions decide
//! what the window layer must do (move, show, hide, change window flags) and
//! are pure over the state plus the event's data; the window layer performs
//! the returned plan. The click-vs-blur debounce keeps a tray click from
//! being undone by the blur event it itself triggered: a click within the
//! suppression window of a blur-triggered hide is swallowed.
//!
//! Coordinates are logical pixels, as integers.

use vstd::prelude::*;

verus! {

pub const PANEL_WIDTH: i64 = 360;

pub const PANEL_HEIGHT: i64 = 620;

/// Max milliseconds between a blur-triggered hide and a tray click for the
/// click to count as the gesture that caused the blur.
pub const BLUR_SUPPRESS_MS: u64 = 500;

pub const DETACHED_MIN_WIDTH: i64 = 300;

pub const DETACHED_MIN_HEIGHT: i64 = 400;

/// Vertical offset of a docked panel below a display's top edge.
pub const PANEL_TOP_OFFSET: i64 = 30;

/// Largest coordinate or extent the position arithmetic accepts.
pub const COORD_LIMIT: i64 = 0x8000_0000;

/// A display's logical bounds.
#[derive(Debug, Clone, Copy, PartialEq, Eq, Structural)]
pub struct MonitorRect {
    pub x: i64,
    pub y: i64,
    pub width: i64,
    pub height: i64,
}

/// The process-wide panel state, mutated only through the operations below.
#[derive(Debug, Clone, Copy, PartialEq, Eq, Structural)]
pub struct PanelState {
    pub visible: bool,
    pub detached: bool,
    pub stay_on_top_detached: bool,
    /// When a blur last hid the panel, in monotonic milliseconds.
    pub last_blur_hide_ms: Option<u64>,
}

/// What a tray click asks of the window layer.
#[derive(Debug, Clone, Copy, PartialEq, Eq, Structural)]
pub enum ClickAction {
    /// The click caused the blur that just hid the panel: do nothing.
    Suppress,
    /// The docked panel was visible: hide it.
    Hide,
    /// Show the panel.
    Show,
}

/// Window flags to apply when detaching.
#[derive(Debug, Clone, Copy, PartialEq, Eq, Structural)]
pub struct DetachPlan {
    pub always_on_top: bool,
    pub resizable: bool,
    pub min_width: i64,
    pub min_height: i64,
}

/// Window flags and geometry to apply when re-docking.
#[derive(Debug, Clone, Copy, PartialEq, Eq, Structural)]
pub struct AttachPlan {
    pub always_on_top: bool,
    pub resizable: bool,
    pub width: i64,
    pub height: i64,
}

pub open spec fn coord_in_range(v: i64) -> bool {
    -COORD_LIMIT <= v <= COORD_LIMIT
}

pub open spec fn monitor_in_range(m: MonitorRect) -> bool {
    &&& coord_in_range(m.x)
    &&& coord_in_range(m.y)
    &&& 0 <= m.width <= COORD_LIMIT
    &&& 0 <= m.height <= COORD_LIMIT
}

pub open spec fn monitor_contains(m: MonitorRect, px: int, py: int) -> bool {
    &&& m.x <= px < m.x + m.width
    &&& m.y <= py < m.y + m.height
}

/// The first enumerated display whose bounds contain the pointer.
pub open spec fn spec_find_monitor(ms: Seq<MonitorRect>, px: int, py: int) -> Option<MonitorRect>
    decreases ms.len(),
{
    if ms.len() == 0 {
        None
    } else if monitor_contains(ms.first(), px, py) {
        Some(ms.first())
    } else {
        spec_find_monitor(ms.drop_first(), px, py)
    }
}

/// The docked panel's horizontal position on display `m` for a click at
/// `px`: centered under the pointer, then pushed inside the display's
/// bounds (left edge first, then right).
pub open spec fn spec_clamped_x(m: MonitorRect, px: int) -> int {
    let centered = px - PANEL_WIDTH / 2;
    let lo = if centered >= m.x {
        centered
    } else {
        m.x as int
    };
    let hi = m.x + m.width - PANEL_WIDTH;
    if lo <= hi {
        lo
    } else {
        hi
    }
}

/// Where to put a primary display of width `w` when no pointer position is
/// known: horizontally centered, just below the top.
pub open spec fn spec_centered_x(w: int) -> int {
    let d = w - PANEL_WIDTH;
    if d >= 0 {
        d / 2
    } else {
        -((-d) / 2)
    }
}

/// The docked panel's target position: under the pointer on the display
/// containing it; centered on the primary display when the platform gave no
/// pointer; nowhere (leave the window where it is) otherwise.
pub open spec fn spec_show_position(
    cursor: Option<(i64, i64)>,
    ms: Seq<MonitorRect>,
    primary: Option<MonitorRect>,
) -> Option<(int, int)> {
    match cursor {
        Some(p) => match spec_find_monitor(ms, p.0 as int, p.1 as int) {
            Some(m) => Some((spec_clamped_x(m, p.0 as int), m.y + PANEL_TOP_OFFSET)),
            None => None,
        },
        None => match primary {
            Some(m) => Some((spec_centered_x(m.width as int), PANEL_TOP_OFFSET as int)),
            None => None,
        },
    }
}

fn find_monitor(monitors: &Vec<MonitorRect>, px: i64, py: i64) -> (r: Option<MonitorRect>)
    requires
        forall|j: int| 0 <= j < monitors@.len() ==> monitor_in_range(#[trigger] monitors@[j]),
    ensures
        r == spec_find_monitor(monitors@, px as int, py as int),
{
    proof {
        assert(monitors@.skip(0) =~= monitors@);
    }
    let n = monitors.len();
    let mut i: usize = 0;
    while i < n
        invariant
            n == monitors@.len(),
            i <= n,
            forall|j: int| 0 <= j < monitors@.len() ==> monitor_in_range(#[trigger] monitors@[j]),
            spec_find_monitor(monitors@, px as int, py as int) == spec_find_monitor(
                monitors@.skip(i as int),
                px as int,
                py as int,
            ),
        decreases n - i,
    {
        proof {
            assert(monitors@.skip(i as int).first() == monitors@[i as int]);
            assert(monitors@.skip(i as int).drop_first() =~= monitors@.skip(i + 1));
        }
        let m = monitors[i];
        assert(monitor_in_range(monitors@[i as int]));
        if m.x <= px && px < m.x + m.width && m.y <= py && py < m.y + m.height {
            return Some(m);
        }
        i = i + 1;
    }
    None
}

/// Computes the docked panel's target position for a show request.
pub fn compute_show_position(
    cursor: Option<(i64, i64)>,
    monitors: &Vec<MonitorRect>,
    primary: Option<MonitorRect>,
) -> (r: Option<(i64, i64)>)
    requires
        forall|j: int| 0 <= j < monitors@.len() ==> monitor_in_range(#[trigger] monitors@[j]),
        match cursor {
            Some(p) => coord_in_range(p.0) && coord_in_range(p.1),
            None => true,
        },
        match primary {
            Some(m) => monitor_in_range(m),
            None => true,
        },
    ensures
        (r is Some) == (spec_show_position(cursor, monitors@, primary) is Some),
        r matches Some(p) ==> spec_show_position(cursor, monitors@, primary) == Some(
            (p.0 as int, p.1 as int),
        ),
{
    match cursor {
        Some(p) => {
            match find_monitor(monitors, p.0, p.1) {
                Some(m) => {
                    proof {
                        lemma_found_monitor_in_range(monitors@, p.0 as int, p.1 as int);
                    }
                    let centered = p.0 - PANEL_WIDTH / 2;
                    let lo = if centered >= m.x {
                        centered
                    } else {
                        m.x
                    };
                    let hi = m.x + m.width - PANEL_WIDTH;
                    let x = if lo <= hi {
                        lo
                    } else {
                        hi
                    };
                    Some((x, m.y + PANEL_TOP_OFFSET))
                },
                None => None,
            }
        },
        None => {
            match primary {
                Some(m) => {
                    let d = m.width - PANEL_WIDTH;
                    let x = if d >= 0 {
                        d / 2
                    } else {
                        let neg: i64 = -d;
                        -(neg / 2)
                    };
                    proof {
                        if d >= 0 {
                            assert(0 <= d <= COORD_LIMIT);
                        }
                    }
                    Some((x, PANEL_TOP_OFFSET))
                },
                None => None,
            }
        },
    }
}

/// A monitor the search found satisfies the range bound of the list.
proof fn lemma_found_monitor_in_range(ms: Seq<MonitorRect>, px: int, py: int)
    requires
        forall|j: int| 0 <= j < ms.len() ==> monitor_in_range(#[trigger] ms[j]),
        spec_find_monitor(ms, px, py) is Some,
    ensures
        monitor_in_range(spec_find_monitor(ms, px, py).unwrap()),
        monitor_contains(spec_find_monitor(ms, px, py).unwrap(), px, py),
    decreases ms.len(),
{
    if ms.len() > 0 {
        if monitor_contains(ms.first(), px, py) {
            assert(ms[0] == ms.first());
        } else {
            assert forall|j: int| 0 <= j < ms.drop_first().len() implies monitor_in_range(
                #[trigger] ms.drop_first()[j],
            ) by {
                assert(ms.drop_first()[j] == ms[j + 1]);
            }
            lemma_found_monitor_in_range(ms.drop_first(), px, py);
        }
    }
}

/// Milliseconds elapsed since `b` at `now`, zero when the clock reads
/// earlier than the stamp.
pub open spec fn elapsed_ms(b: u64, now: u64) -> int {
    if now >= b {
        now - b
    } else {
        0
    }
}

/// Whether a click at `now` is presumed to be the gesture that caused the
/// last blur-triggered hide.
pub open spec fn blur_suppresses(s: PanelState, now: u64) -> bool {
    match s.last_blur_hide_ms {
        Some(b) => elapsed_ms(b, now) < BLUR_SUPPRESS_MS,
        None => false,
    }
}

/// The blur transition: a detached panel ignores blur; a visible docked
/// panel hides and records the blur time; the second component says whether
/// the window must be hidden.
pub open spec fn spec_on_blur(s: PanelState, now: u64) -> (PanelState, bool) {
    if s.detached {
        (s, false)
    } else if s.visible {
        (
            PanelState {
                visible: false,
                last_blur_hide_ms: Some(now),
                ..s
            },
            true,
        )
    } else {
        (s, false)
    }
}

/// The tray-click transition: a click within the suppression window of a
/// blur-triggered hide is swallowed (and clears the stamp); otherwise a
/// visible docked panel toggles hidden; otherwise the panel is to be shown.
pub open spec fn spec_toggle_on_click(s: PanelState, now: u64) -> (PanelState, ClickAction) {
    if blur_suppresses(s, now) {
        (
            PanelState { last_blur_hide_ms: None, ..s },
            ClickAction::Suppress,
        )
    } else if s.visible && !s.detached {
        (PanelState { visible: false, ..s }, ClickAction::Hide)
    } else {
        (s, ClickAction::Show)
    }
}

impl PanelState {
    /// The initial state: hidden, docked, not stay-on-top, no blur stamp.
    pub fn new() -> (r: PanelState)
        ensures
            r == (PanelState {
                visible: false,
                detached: false,
                stay_on_top_detached: false,
                last_blur_hide_ms: None,
            }),
    {
        PanelState {
            visible: false,
            detached: false,
            stay_on_top_detached: false,
            last_blur_hide_ms: None,
        }
    }

    /// A show request: the panel becomes visible; a docked panel is first
    /// moved to the returned position (when one can be computed), a
    /// detached panel is only raised.
    pub fn show(
        &mut self,
        cursor: Option<(i64, i64)>,
        monitors: &Vec<MonitorRect>,
        primary: Option<MonitorRect>,
    ) -> (reposition: Option<(i64, i64)>)
        requires
            forall|j: int|
                0 <= j < monitors@.len() ==> monitor_in_range(#[trigger] monitors@[j]),
            match cursor {
                Some(p) => coord_in_range(p.0) && coord_in_range(p.1),
                None => true,
            },
            match primary {
                Some(m) => monitor_in_range(m),
                None => true,
            },
        ensures
            *final(self) == (PanelState { visible: true, ..*old(self) }),
            old(self).detached ==> reposition is None,
            !old(self).detached ==> {
                &&& (reposition is Some) == (spec_show_position(cursor, monitors@, primary)
                    is Some)
                &&& reposition matches Some(p) ==> spec_show_position(cursor, monitors@, primary)
                    == Some((p.0 as int, p.1 as int))
            },
    {
        let r = if self.detached {
            None
        } else {
            compute_show_position(cursor, monitors, primary)
        };
        self.visible = true;
        r
    }

    /// An explicit hide request.
    pub fn hide_panel(&mut self)
        ensures
            *final(self) == (PanelState { visible: false, ..*old(self) }),
    {
        self.visible = false;
    }

    /// A blur event; returns whether the window must be hidden.
    pub fn on_blur(&mut self, now_ms: u64) -> (hide: bool)
        ensures
            (*final(self), hide) == spec_on_blur(*old(self), now_ms),
    {
        if self.detached {
            false
        } else if self.visible {
            self.visible = false;
            self.last_blur_hide_ms = Some(now_ms);
            true
        } else {
            false
        }
    }

    /// A tray click; returns what the window layer must do.
    pub fn toggle_on_click(&mut self, now_ms: u64) -> (action: ClickAction)
        ensures
            (*final(self), action) == spec_toggle_on_click(*old(self), now_ms),
    {
        let suppress = match self.last_blur_hide_ms {
            Some(b) => {
                let age = if now_ms >= b {
                    now_ms - b
                } else {
                    0
                };
                age < BLUR_SUPPRESS_MS
            },
            None => false,
        };
        if suppress {
            self.last_blur_hide_ms = None;
            ClickAction::Suppress
        } else if self.visible && !self.detached {
            self.visible = false;
            ClickAction::Hide
        } else {
            ClickAction::Show
        }
    }

    /// Detaches the docked panel into a free window: resizable, with a
    /// minimum size floor, on top only if the user asked for it.
    pub fn detach(&mut self) -> (plan: DetachPlan)
        ensures
            *final(self) == (PanelState { detached: true, ..*old(self) }),
            plan == (DetachPlan {
                always_on_top: old(self).stay_on_top_detached,
                resizable: true,
                min_width: DETACHED_MIN_WIDTH,
                min_height: DETACHED_MIN_HEIGHT,
            }),
    {
        let plan = DetachPlan {
            always_on_top: self.stay_on_top_detached,
            resizable: true,
            min_width: DETACHED_MIN_WIDTH,
            min_height: DETACHED_MIN_HEIGHT,
        };
        self.detached = true;
        plan
    }

    /// Re-docks the panel: fixed size, always on top, not resizable, and
    /// hidden (docking always returns to the hidden state).
    pub fn attach(&mut self) -> (plan: AttachPlan)
        ensures
            *final(self) == (PanelState {
                detached: false,
                visible: false,
                ..*old(self)
            }),
            plan == (AttachPlan {
                always_on_top: true,
                resizable: false,
                width: PANEL_WIDTH,
                height: PANEL_HEIGHT,
            }),
    {
        self.detached = false;
        self.visible = false;
        AttachPlan { always_on_top: true, resizable: false, width: PANEL_WIDTH, height: PANEL_HEIGHT }
    }

    /// Records the stay-on-top-while-detached preference.
    pub fn set_stay_on_top(&mut self, enabled: bool)
        ensures
            *final(self) == (PanelState { stay_on_top_detached: enabled, ..*old(self) }),
    {
        self.stay_on_top_detached = enabled;
    }
}

/// Debounce law: after a blur hides the visible docked panel, a click
/// within the suppression window is swallowed and the panel stays hidden —
/// the blur/click pair flips visibility once, not twice — and the swallowed
/// click clears the stamp, so it cannot swallow a second click. A click at
/// or past the window is not swallowed and shows the panel.
pub proof fn lemma_blur_click_debounce(s: PanelState, t_blur: u64, t_click: u64)
    requires
        !s.detached,
        s.visible,
        t_blur <= t_click,
    ensures
        (t_click as int) < t_blur + BLUR_SUPPRESS_MS ==> {
            let s1 = spec_on_blur(s, t_blur).0;
            let s2 = spec_toggle_on_click(s1, t_click).0;
            &&& spec_toggle_on_click(s1, t_click).1 == ClickAction::Suppress
            &&& !s1.visible
            &&& !s2.visible
            &&& s2.last_blur_hide_ms is None
        },
        (t_click as int) >= t_blur + BLUR_SUPPRESS_MS ==> {
            let s1 = spec_on_blur(s, t_blur).0;
            &&& spec_toggle_on_click(s1, t_click).1 == ClickAction::Show
        },
{
}

} // verus!
