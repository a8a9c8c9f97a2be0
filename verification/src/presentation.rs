//! The presentation state machine: panel-open and background-response flags
//! plus the memoized screen position, driven by hotkey, focus-loss and notch
//! events. Every transition returns the list of window operations the outer
//! driver must perform, in order; the flags advance regardless of whether
//! those best-effort operations succeed.

use vstd::prelude::*;

verus! {

/// Compact panel width in logical points, applied on every open from idle.
pub const COMPACT_WIDTH: u32 = 750;

/// Compact panel height in logical points, applied on every open from idle.
pub const COMPACT_HEIGHT: u32 = 56;

/// A window operation requested from the outer driver. All are best-effort:
/// a failure is logged by the driver and never changes the state flags.
#[derive(Clone, Copy, PartialEq, Eq, Structural, Debug)]
pub enum SurfaceOp {
    /// Hide the panel surface.
    HidePanel,
    /// Hide the notch indicator surface.
    HideNotch,
    /// Resize the panel to its compact size.
    SetPanelSizeCompact,
    /// Move the panel to the given physical coordinates.
    SetPanelPosition(i32, i32),
    /// Let the window system compute a centered panel position.
    CenterPanel,
    /// Show the panel surface.
    ShowPanel,
    /// Give the panel keyboard focus.
    FocusPanel,
    /// Read the panel's actual on-screen position back and report it through
    /// a `PositionRead` event, so the first shown position is memoized.
    ReadPanelPosition,
    /// Emit the `panel-show` notification to the panel surface.
    EmitPanelShow,
    /// Emit the `panel-dismiss` notification to the panel surface.
    EmitPanelDismiss,
    /// Emit the `notch-restore` notification to the panel surface.
    EmitNotchRestore,
    /// Reset the notch surface content to its in-progress "streaming" state.
    EmitNotchStreaming,
    /// Push the measured menu-bar height into the notch surface layout.
    SyncNotchSpacer,
    /// Show the existing notch indicator surface.
    ShowNotchSurface,
    /// Create the notch indicator surface sized to the hardware notch
    /// geometry (or a default), centered at the top of the primary display.
    CreateNotchSurface,
    /// Configure the notch surface chrome: above the menu bar, shadowless.
    ConfigureNotchChrome,
    /// Emit the `panel-prefill-selection` event with the capture payload.
    EmitPrefillSelection,
}

/// An external trigger consumed by the state machine.
#[derive(Clone, Copy, PartialEq, Eq, Structural, Debug)]
pub enum PanelEvent {
    /// The panel toggle hotkey fired.
    ToggleHotkey,
    /// The selection-capture hotkey fired; the capture itself runs between
    /// this event and `SelectionHotkeyFinish`.
    SelectionHotkeyBegin,
    /// A selection capture finished and its payload is ready to present.
    SelectionHotkeyFinish,
    /// The panel surface reported losing focus.
    FocusLost,
    /// The UI asked to hide the panel outright (for example on Escape).
    HideRequest,
    /// The notch indicator surface was clicked.
    NotchClicked,
    /// A background task started and asked for the notch indicator.
    ShowNotchRequest { notch_exists: bool },
    /// The UI asked to hide the notch indicator.
    HideNotchRequest,
    /// The driver read the panel's on-screen position back after a show.
    PositionRead { x: i32, y: i32 },
}

/// The process-wide presentation state: the two mode flags and the screen
/// position memoized on the first successful show.
pub struct PresentationState {
    /// Whether the main panel is open.
    pub panel_open: bool,
    /// Whether a background response is active, represented by the notch.
    pub background_response_active: bool,
    /// The physical position stored after the first show, never cleared.
    pub cached_center: Option<(i32, i32)>,
}

/// The state at process start: both flags clear, no memoized position.
pub open spec fn initial_state() -> PresentationState {
    PresentationState { panel_open: false, background_response_active: false, cached_center: None }
}

/// The operations of a panel show: an optional compact resize, positioning
/// at the memoized center (or centering plus a position read-back on the
/// first show), showing, focusing, and the show notification.
pub open spec fn show_ops(compact: bool, cached: Option<(i32, i32)>) -> Seq<SurfaceOp> {
    let size: Seq<SurfaceOp> = if compact {
        seq![SurfaceOp::SetPanelSizeCompact]
    } else {
        Seq::empty()
    };
    let position: Seq<SurfaceOp> = match cached {
        Some(c) => seq![SurfaceOp::SetPanelPosition(c.0, c.1)],
        None => seq![SurfaceOp::CenterPanel],
    };
    let readback: Seq<SurfaceOp> = match cached {
        Some(c) => Seq::empty(),
        None => seq![SurfaceOp::ReadPanelPosition],
    };
    size + position + seq![SurfaceOp::ShowPanel, SurfaceOp::FocusPanel] + readback
        + seq![SurfaceOp::EmitPanelShow]
}

/// Opening the panel in compact size.
pub open spec fn present_spec(s: PresentationState) -> (PresentationState, Seq<SurfaceOp>) {
    (
        PresentationState { panel_open: true, ..s },
        show_ops(true, s.cached_center),
    )
}

/// Showing the panel without touching its size, used when content produced
/// in background mode must stay visible.
pub open spec fn restore_spec(s: PresentationState) -> (PresentationState, Seq<SurfaceOp>) {
    (
        PresentationState { panel_open: true, ..s },
        show_ops(false, s.cached_center),
    )
}

/// Hiding the panel directly and clearing the open flag.
pub open spec fn dismiss_spec(s: PresentationState) -> (PresentationState, Seq<SurfaceOp>) {
    (PresentationState { panel_open: false, ..s }, seq![SurfaceOp::HidePanel])
}

/// Leaving background mode: hide the notch, notify the panel, restore it
/// size-preserving.
pub open spec fn notch_restore_spec(s: PresentationState) -> (PresentationState, Seq<SurfaceOp>) {
    (
        PresentationState { panel_open: true, background_response_active: false, ..s },
        seq![SurfaceOp::HideNotch, SurfaceOp::EmitNotchRestore] + show_ops(false, s.cached_center),
    )
}

/// The toggle hotkey: restore from background mode if it is active,
/// otherwise flip the panel between open and closed.
pub open spec fn toggle_spec(s: PresentationState) -> (PresentationState, Seq<SurfaceOp>) {
    if s.background_response_active {
        notch_restore_spec(s)
    } else if s.panel_open {
        dismiss_spec(s)
    } else {
        present_spec(s)
    }
}

/// Focus loss: clear the open flag and notify the panel, but do not hide it
/// here — the panel's own UI layer hides it, so the blur still propagates.
pub open spec fn focus_lost_spec(s: PresentationState) -> (PresentationState, Seq<SurfaceOp>) {
    if s.panel_open {
        (PresentationState { panel_open: false, ..s }, seq![SurfaceOp::EmitPanelDismiss])
    } else {
        (s, Seq::empty())
    }
}

/// A show-notch request: set the background flag; reuse the surface when it
/// already exists (resetting its content to the streaming state), create it
/// otherwise.
pub open spec fn show_notch_spec(s: PresentationState, notch_exists: bool) -> (
    PresentationState,
    Seq<SurfaceOp>,
) {
    (
        PresentationState { background_response_active: true, ..s },
        if notch_exists {
            seq![SurfaceOp::EmitNotchStreaming, SurfaceOp::SyncNotchSpacer, SurfaceOp::ShowNotchSurface]
        } else {
            seq![
                SurfaceOp::CreateNotchSurface,
                SurfaceOp::ShowNotchSurface,
                SurfaceOp::SyncNotchSpacer,
                SurfaceOp::ConfigureNotchChrome,
            ]
        },
    )
}

/// Hiding the notch clears the background flag.
pub open spec fn hide_notch_spec(s: PresentationState) -> (PresentationState, Seq<SurfaceOp>) {
    (PresentationState { background_response_active: false, ..s }, seq![SurfaceOp::HideNotch])
}

/// The selection hotkey first leaves background mode, without an early
/// return, so the capture that follows always runs.
pub open spec fn selection_begin_spec(s: PresentationState) -> (PresentationState, Seq<SurfaceOp>) {
    if s.background_response_active {
        (PresentationState { background_response_active: false, ..s }, seq![SurfaceOp::HideNotch])
    } else {
        (s, Seq::empty())
    }
}

/// After a capture, successful or not, the panel opens in compact size and
/// the prefill event fires, so the UI can also show an explanatory state.
pub open spec fn selection_finish_spec(s: PresentationState) -> (PresentationState, Seq<SurfaceOp>) {
    (
        PresentationState { panel_open: true, ..s },
        show_ops(true, s.cached_center) + seq![SurfaceOp::EmitPrefillSelection],
    )
}

/// A position read-back memoizes the first reported position and never
/// overwrites a stored one.
pub open spec fn record_position_spec(s: PresentationState, x: i32, y: i32) -> PresentationState {
    match s.cached_center {
        Some(c) => s,
        None => PresentationState { cached_center: Some((x, y)), ..s },
    }
}

/// The full transition function: next state and requested operations for
/// each external event.
pub open spec fn pnext(s: PresentationState, e: PanelEvent) -> (PresentationState, Seq<SurfaceOp>) {
    match e {
        PanelEvent::ToggleHotkey => toggle_spec(s),
        PanelEvent::SelectionHotkeyBegin => selection_begin_spec(s),
        PanelEvent::SelectionHotkeyFinish => selection_finish_spec(s),
        PanelEvent::FocusLost => focus_lost_spec(s),
        PanelEvent::HideRequest => dismiss_spec(s),
        PanelEvent::NotchClicked => notch_restore_spec(s),
        PanelEvent::ShowNotchRequest { notch_exists } => show_notch_spec(s, notch_exists),
        PanelEvent::HideNotchRequest => hide_notch_spec(s),
        PanelEvent::PositionRead { x, y } => (record_position_spec(s, x, y), Seq::empty()),
    }
}

/// The state after a sequence of events.
pub open spec fn prun(s: PresentationState, evs: Seq<PanelEvent>) -> PresentationState
    decreases evs.len(),
{
    if evs.len() == 0 {
        s
    } else {
        prun(pnext(s, evs[0]).0, evs.drop_first())
    }
}

/// All operations requested over a sequence of events, in order.
pub open spec fn pactions(s: PresentationState, evs: Seq<PanelEvent>) -> Seq<SurfaceOp>
    decreases evs.len(),
{
    if evs.len() == 0 {
        Seq::empty()
    } else {
        pnext(s, evs[0]).1 + pactions(pnext(s, evs[0]).0, evs.drop_first())
    }
}

/// For every sequence of toggle-hotkey events from a state outside
/// background mode, each toggle flips the panel flag and never touches the
/// background flag or the memoized position; in particular, from the idle
/// start state, the parity of the sequence length equals the final panel
/// flag. Background mode is the stated exception: it is never entered by
/// toggles alone, and a toggle that does find it active acts as a restore.
pub proof fn lemma_toggle_parity(s: PresentationState, evs: Seq<PanelEvent>)
    requires
        !s.background_response_active,
        forall|i: int| 0 <= i < evs.len() ==> evs[i] == PanelEvent::ToggleHotkey,
    ensures
        prun(s, evs).panel_open == if evs.len() % 2 == 0 {
            s.panel_open
        } else {
            !s.panel_open
        },
        !prun(s, evs).background_response_active,
        prun(s, evs).cached_center == s.cached_center,
    decreases evs.len(),
{
    if evs.len() > 0 {
        let s1 = pnext(s, evs[0]).0;
        lemma_toggle_parity(s1, evs.drop_first());
        assert(evs.drop_first().len() % 2 == 0 <==> evs.len() % 2 == 1) by (nonlinear_arith)
            requires evs.drop_first().len() + 1 == evs.len(),
        ;
    }
}

/// From the idle start state, an odd number of toggle-hotkey presses leaves
/// the panel open and an even number leaves it closed.
pub proof fn lemma_toggle_parity_from_start(evs: Seq<PanelEvent>)
    requires
        forall|i: int| 0 <= i < evs.len() ==> evs[i] == PanelEvent::ToggleHotkey,
    ensures
        prun(initial_state(), evs).panel_open == (evs.len() % 2 == 1),
        !prun(initial_state(), evs).background_response_active,
{
    lemma_toggle_parity(initial_state(), evs);
}

/// A toggle that finds background mode active is the stated exception to
/// the open/close flip: it acts as a restore — background mode is left, the
/// notch is hidden, and the panel is shown size-preserving — whatever the
/// panel flag was.
pub proof fn lemma_toggle_restores_from_background(s: PresentationState)
    requires
        s.background_response_active,
    ensures
        pnext(s, PanelEvent::ToggleHotkey).0.panel_open,
        !pnext(s, PanelEvent::ToggleHotkey).0.background_response_active,
        pnext(s, PanelEvent::ToggleHotkey).1 == seq![
            SurfaceOp::HideNotch,
            SurfaceOp::EmitNotchRestore,
        ] + show_ops(false, s.cached_center),
{
}

/// Once a position is memoized, a panel show positions the panel at exactly
/// that position and neither re-centers nor reads a position back.
pub proof fn lemma_show_ops_pin_position(compact: bool, x: i32, y: i32)
    ensures
        show_ops(compact, Some((x, y))).contains(SurfaceOp::SetPanelPosition(x, y)),
        forall|i: int| 0 <= i < show_ops(compact, Some((x, y))).len() ==> !(
        #[trigger] show_ops(compact, Some((x, y)))[i] is CenterPanel),
        forall|i: int| 0 <= i < show_ops(compact, Some((x, y))).len() ==> !(
        #[trigger] show_ops(compact, Some((x, y)))[i] is ReadPanelPosition),
{
    let ops = show_ops(compact, Some((x, y)));
    if compact {
        assert(ops[1] == SurfaceOp::SetPanelPosition(x, y));
    } else {
        assert(ops[0] == SurfaceOp::SetPanelPosition(x, y));
    }
}

/// One transition never drifts a memoized position: the stored coordinates
/// survive every event, every requested move targets exactly them, and the
/// window system is never asked to re-center.
pub proof fn lemma_step_keeps_position(s: PresentationState, e: PanelEvent, x: i32, y: i32)
    requires
        s.cached_center == Some((x, y)),
    ensures
        pnext(s, e).0.cached_center == Some((x, y)),
        forall|i: int| 0 <= i < pnext(s, e).1.len() && #[trigger] pnext(s, e).1[i]
            is SetPanelPosition ==> pnext(s, e).1[i] == SurfaceOp::SetPanelPosition(x, y),
        forall|i: int| 0 <= i < pnext(s, e).1.len() ==> !(#[trigger] pnext(s, e).1[i]
            is CenterPanel),
{
}

/// Over any sequence of events after a position has been memoized, the
/// stored coordinates never change, every requested move targets exactly
/// them, and the window system is never asked to re-center again: repeated
/// shows never drift.
pub proof fn lemma_position_never_drifts(
    s: PresentationState,
    evs: Seq<PanelEvent>,
    x: i32,
    y: i32,
)
    requires
        s.cached_center == Some((x, y)),
    ensures
        prun(s, evs).cached_center == Some((x, y)),
        forall|i: int| 0 <= i < pactions(s, evs).len() && #[trigger] pactions(s, evs)[i]
            is SetPanelPosition ==> pactions(s, evs)[i] == SurfaceOp::SetPanelPosition(x, y),
        forall|i: int| 0 <= i < pactions(s, evs).len() ==> !(#[trigger] pactions(s, evs)[i]
            is CenterPanel),
    decreases evs.len(),
{
    if evs.len() > 0 {
        let (s1, ops) = pnext(s, evs[0]);
        lemma_step_keeps_position(s, evs[0], x, y);
        lemma_position_never_drifts(s1, evs.drop_first(), x, y);
        assert forall|i: int|
            0 <= i < pactions(s, evs).len() && #[trigger] pactions(s, evs)[i]
                is SetPanelPosition implies pactions(s, evs)[i] == SurfaceOp::SetPanelPosition(
            x,
            y,
        ) by {
            if i < ops.len() {
                assert(pactions(s, evs)[i] == ops[i]);
            } else {
                assert(pactions(s, evs)[i] == pactions(s1, evs.drop_first())[i - ops.len()]);
            }
        }
        assert forall|i: int| 0 <= i < pactions(s, evs).len() implies !(#[trigger] pactions(
            s,
            evs,
        )[i] is CenterPanel) by {
            if i < ops.len() {
                assert(pactions(s, evs)[i] == ops[i]);
            } else {
                assert(pactions(s, evs)[i] == pactions(s1, evs.drop_first())[i - ops.len()]);
            }
        }
    }
}

/// A show-notch request that finds the background flag already set and the
/// notch surface already in existence resets the surface content to the
/// streaming state and never asks for the surface to be created again.
pub proof fn lemma_show_notch_reuses_surface(s: PresentationState)
    requires
        s.background_response_active,
    ensures
        pnext(s, PanelEvent::ShowNotchRequest { notch_exists: true }).0.background_response_active,
        pnext(s, PanelEvent::ShowNotchRequest { notch_exists: true }).1[0]
            == SurfaceOp::EmitNotchStreaming,
        forall|i: int|
            0 <= i < pnext(s, PanelEvent::ShowNotchRequest { notch_exists: true }).1.len() ==> !(
            #[trigger] pnext(s, PanelEvent::ShowNotchRequest { notch_exists: true }).1[i]
                is CreateNotchSurface),
{
}

impl PresentationState {
    /// The presentation state at process start.
    pub fn new() -> (s: Self)
        ensures
            s == initial_state(),
    {
        PresentationState {
            panel_open: false,
            background_response_active: false,
            cached_center: None,
        }
    }

    /// Appends the operations of a panel show to `ops`.
    fn push_show_ops(ops: &mut Vec<SurfaceOp>, compact: bool, cached: Option<(i32, i32)>)
        ensures
            final(ops)@ == old(ops)@ + show_ops(compact, cached),
    {
        if compact {
            ops.push(SurfaceOp::SetPanelSizeCompact);
        }
        match cached {
            Some((x, y)) => {
                ops.push(SurfaceOp::SetPanelPosition(x, y));
                ops.push(SurfaceOp::ShowPanel);
                ops.push(SurfaceOp::FocusPanel);
                ops.push(SurfaceOp::EmitPanelShow);
            },
            None => {
                ops.push(SurfaceOp::CenterPanel);
                ops.push(SurfaceOp::ShowPanel);
                ops.push(SurfaceOp::FocusPanel);
                ops.push(SurfaceOp::ReadPanelPosition);
                ops.push(SurfaceOp::EmitPanelShow);
            },
        }
        assert(ops@ =~= old(ops)@ + show_ops(compact, cached));
    }

    /// Opens the panel in compact size at the memoized position (or lets the
    /// window system center it the first time) and focuses it.
    pub fn present_panel(&mut self) -> (ops: Vec<SurfaceOp>)
        ensures
            *final(self) == present_spec(*old(self)).0,
            ops@ == present_spec(*old(self)).1,
    {
        let mut ops: Vec<SurfaceOp> = Vec::new();
        Self::push_show_ops(&mut ops, true, self.cached_center);
        self.panel_open = true;
        assert(ops@ =~= show_ops(true, old(self).cached_center));
        ops
    }

    /// Shows the panel without resetting its size, so content produced in
    /// background mode stays visible.
    pub fn restore_panel(&mut self) -> (ops: Vec<SurfaceOp>)
        ensures
            *final(self) == restore_spec(*old(self)).0,
            ops@ == restore_spec(*old(self)).1,
    {
        let mut ops: Vec<SurfaceOp> = Vec::new();
        Self::push_show_ops(&mut ops, false, self.cached_center);
        self.panel_open = true;
        assert(ops@ =~= show_ops(false, old(self).cached_center));
        ops
    }

    /// Hides the panel and clears the open flag. The size is deliberately
    /// left unchanged; only the next open from idle resets it to compact.
    pub fn dismiss_panel(&mut self) -> (ops: Vec<SurfaceOp>)
        ensures
            *final(self) == dismiss_spec(*old(self)).0,
            ops@ == dismiss_spec(*old(self)).1,
    {
        self.panel_open = false;
        let mut ops: Vec<SurfaceOp> = Vec::new();
        ops.push(SurfaceOp::HidePanel);
        assert(ops@ =~= seq![SurfaceOp::HidePanel]);
        ops
    }

    /// An explicit hide request from the UI, equivalent to a dismiss.
    pub fn hide_panel(&mut self) -> (ops: Vec<SurfaceOp>)
        ensures
            *final(self) == dismiss_spec(*old(self)).0,
            ops@ == dismiss_spec(*old(self)).1,
    {
        self.dismiss_panel()
    }

    /// The panel reported losing focus: clear the open flag and notify the
    /// panel, which hides itself, so the blur still reaches its UI layer.
    pub fn focus_lost(&mut self) -> (ops: Vec<SurfaceOp>)
        ensures
            *final(self) == focus_lost_spec(*old(self)).0,
            ops@ == focus_lost_spec(*old(self)).1,
    {
        let mut ops: Vec<SurfaceOp> = Vec::new();
        if self.panel_open {
            self.panel_open = false;
            ops.push(SurfaceOp::EmitPanelDismiss);
            assert(ops@ =~= seq![SurfaceOp::EmitPanelDismiss]);
        }
        ops
    }

    /// The toggle hotkey: restore from background mode, or flip the panel.
    pub fn handle_shortcut(&mut self) -> (ops: Vec<SurfaceOp>)
        ensures
            *final(self) == pnext(*old(self), PanelEvent::ToggleHotkey).0,
            ops@ == pnext(*old(self), PanelEvent::ToggleHotkey).1,
    {
        if self.background_response_active {
            self.background_response_active = false;
            let mut ops: Vec<SurfaceOp> = Vec::new();
            ops.push(SurfaceOp::HideNotch);
            ops.push(SurfaceOp::EmitNotchRestore);
            Self::push_show_ops(&mut ops, false, self.cached_center);
            self.panel_open = true;
            assert(ops@ =~= notch_restore_spec(*old(self)).1);
            ops
        } else if self.panel_open {
            self.dismiss_panel()
        } else {
            self.present_panel()
        }
    }

    /// The notch indicator was clicked: leave background mode and restore
    /// the panel, exactly as the toggle hotkey does from background mode.
    pub fn notch_clicked(&mut self) -> (ops: Vec<SurfaceOp>)
        ensures
            *final(self) == pnext(*old(self), PanelEvent::NotchClicked).0,
            ops@ == pnext(*old(self), PanelEvent::NotchClicked).1,
    {
        self.background_response_active = false;
        let mut ops: Vec<SurfaceOp> = Vec::new();
        ops.push(SurfaceOp::HideNotch);
        ops.push(SurfaceOp::EmitNotchRestore);
        Self::push_show_ops(&mut ops, false, self.cached_center);
        self.panel_open = true;
        assert(ops@ =~= notch_restore_spec(*old(self)).1);
        ops
    }

    /// A background task started: set the background flag and show the notch
    /// indicator, reusing the surface when it already exists.
    pub fn show_notch(&mut self, notch_exists: bool) -> (ops: Vec<SurfaceOp>)
        ensures
            *final(self) == show_notch_spec(*old(self), notch_exists).0,
            ops@ == show_notch_spec(*old(self), notch_exists).1,
    {
        self.background_response_active = true;
        let mut ops: Vec<SurfaceOp> = Vec::new();
        if notch_exists {
            ops.push(SurfaceOp::EmitNotchStreaming);
            ops.push(SurfaceOp::SyncNotchSpacer);
            ops.push(SurfaceOp::ShowNotchSurface);
        } else {
            ops.push(SurfaceOp::CreateNotchSurface);
            ops.push(SurfaceOp::ShowNotchSurface);
            ops.push(SurfaceOp::SyncNotchSpacer);
            ops.push(SurfaceOp::ConfigureNotchChrome);
        }
        assert(ops@ =~= show_notch_spec(*old(self), notch_exists).1);
        ops
    }

    /// The UI asked to hide the notch indicator: clear the background flag.
    pub fn hide_notch(&mut self) -> (ops: Vec<SurfaceOp>)
        ensures
            *final(self) == hide_notch_spec(*old(self)).0,
            ops@ == hide_notch_spec(*old(self)).1,
    {
        self.background_response_active = false;
        let mut ops: Vec<SurfaceOp> = Vec::new();
        ops.push(SurfaceOp::HideNotch);
        assert(ops@ =~= seq![SurfaceOp::HideNotch]);
        ops
    }

    /// The selection hotkey fired: leave background mode first, then let the
    /// capture run; `selection_finish` presents its result.
    pub fn selection_begin(&mut self) -> (ops: Vec<SurfaceOp>)
        ensures
            *final(self) == selection_begin_spec(*old(self)).0,
            ops@ == selection_begin_spec(*old(self)).1,
    {
        let mut ops: Vec<SurfaceOp> = Vec::new();
        if self.background_response_active {
            self.background_response_active = false;
            ops.push(SurfaceOp::HideNotch);
            assert(ops@ =~= seq![SurfaceOp::HideNotch]);
        }
        ops
    }

    /// A capture finished: open the panel and fire the prefill event, even
    /// when the capture failed or found nothing.
    pub fn selection_finish(&mut self) -> (ops: Vec<SurfaceOp>)
        ensures
            *final(self) == selection_finish_spec(*old(self)).0,
            ops@ == selection_finish_spec(*old(self)).1,
    {
        let mut ops: Vec<SurfaceOp> = Vec::new();
        Self::push_show_ops(&mut ops, true, self.cached_center);
        ops.push(SurfaceOp::EmitPrefillSelection);
        self.panel_open = true;
        assert(ops@ =~= show_ops(true, old(self).cached_center) + seq![
            SurfaceOp::EmitPrefillSelection,
        ]);
        ops
    }

    /// The driver read the panel's position back after a show: memoize it
    /// the first time, keep the stored value forever after.
    pub fn record_position(&mut self, x: i32, y: i32)
        ensures
            *final(self) == record_position_spec(*old(self), x, y),
    {
        if self.cached_center.is_none() {
            self.cached_center = Some((x, y));
        }
    }
}

} // verus!
