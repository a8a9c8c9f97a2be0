use macclaw_panel::presentation::{PresentationState, SurfaceOp};

#[test]
fn toggle_parity_from_idle() {
    let mut state = PresentationState::new();
    assert!(!state.panel_open);
    assert!(!state.background_response_active);
    for round in 0..6 {
        state.handle_shortcut();
        assert_eq!(state.panel_open, round % 2 == 0);
        assert!(!state.background_response_active);
    }
}

#[test]
fn first_open_is_compact_and_centered() {
    let mut state = PresentationState::new();
    let ops = state.handle_shortcut();
    assert!(state.panel_open);
    assert_eq!(
        ops,
        vec![
            SurfaceOp::SetPanelSizeCompact,
            SurfaceOp::CenterPanel,
            SurfaceOp::ShowPanel,
            SurfaceOp::FocusPanel,
            SurfaceOp::ReadPanelPosition,
            SurfaceOp::EmitPanelShow,
        ]
    );
}

#[test]
fn toggle_close_only_hides() {
    let mut state = PresentationState::new();
    state.handle_shortcut();
    let ops = state.handle_shortcut();
    assert!(!state.panel_open);
    assert_eq!(ops, vec![SurfaceOp::HidePanel]);
}

#[test]
fn position_is_memoized_once_and_replayed() {
    let mut state = PresentationState::new();
    let ops = state.present_panel();
    assert!(ops.contains(&SurfaceOp::CenterPanel));
    assert!(ops.contains(&SurfaceOp::ReadPanelPosition));
    state.record_position(480, 230);

    let mut positions = Vec::new();
    for _ in 0..3 {
        let ops = state.present_panel();
        assert!(!ops.contains(&SurfaceOp::CenterPanel));
        assert!(!ops.contains(&SurfaceOp::ReadPanelPosition));
        for op in &ops {
            if let SurfaceOp::SetPanelPosition(x, y) = op {
                positions.push((*x, *y));
            }
        }
        state.hide_panel();
    }
    assert_eq!(positions, vec![(480, 230), (480, 230), (480, 230)]);

    state.record_position(999, 999);
    let ops = state.restore_panel();
    assert!(ops.contains(&SurfaceOp::SetPanelPosition(480, 230)));
}

#[test]
fn restore_from_background_preserves_size() {
    let mut state = PresentationState::new();
    state.record_position(10, 20);
    state.show_notch(false);
    assert!(state.background_response_active);
    let ops = state.handle_shortcut();
    assert!(state.panel_open);
    assert!(!state.background_response_active);
    assert_eq!(
        ops,
        vec![
            SurfaceOp::HideNotch,
            SurfaceOp::EmitNotchRestore,
            SurfaceOp::SetPanelPosition(10, 20),
            SurfaceOp::ShowPanel,
            SurfaceOp::FocusPanel,
            SurfaceOp::EmitPanelShow,
        ]
    );
    assert!(!ops.contains(&SurfaceOp::SetPanelSizeCompact));
}

#[test]
fn notch_click_acts_like_a_restore() {
    let mut state = PresentationState::new();
    state.record_position(1, 2);
    state.show_notch(false);
    let ops = state.notch_clicked();
    assert!(state.panel_open);
    assert!(!state.background_response_active);
    assert_eq!(ops[0], SurfaceOp::HideNotch);
    assert_eq!(ops[1], SurfaceOp::EmitNotchRestore);
    assert!(ops.contains(&SurfaceOp::SetPanelPosition(1, 2)));
}

#[test]
fn existing_notch_is_reused_not_recreated() {
    let mut state = PresentationState::new();
    let ops = state.show_notch(false);
    assert!(state.background_response_active);
    assert!(ops.contains(&SurfaceOp::CreateNotchSurface));

    let ops = state.show_notch(true);
    assert!(state.background_response_active);
    assert_eq!(ops[0], SurfaceOp::EmitNotchStreaming);
    assert!(!ops.contains(&SurfaceOp::CreateNotchSurface));
    assert_eq!(
        ops,
        vec![
            SurfaceOp::EmitNotchStreaming,
            SurfaceOp::SyncNotchSpacer,
            SurfaceOp::ShowNotchSurface,
        ]
    );
}

#[test]
fn hide_notch_clears_background_mode() {
    let mut state = PresentationState::new();
    state.show_notch(false);
    let ops = state.hide_notch();
    assert!(!state.background_response_active);
    assert_eq!(ops, vec![SurfaceOp::HideNotch]);
}

#[test]
fn focus_loss_notifies_but_does_not_hide() {
    let mut state = PresentationState::new();
    state.present_panel();
    let ops = state.focus_lost();
    assert!(!state.panel_open);
    assert_eq!(ops, vec![SurfaceOp::EmitPanelDismiss]);
    assert!(!ops.contains(&SurfaceOp::HidePanel));

    let ops = state.focus_lost();
    assert!(ops.is_empty());
}

#[test]
fn selection_hotkey_clears_background_then_presents_with_prefill() {
    let mut state = PresentationState::new();
    state.show_notch(false);
    let ops = state.selection_begin();
    assert!(!state.background_response_active);
    assert_eq!(ops, vec![SurfaceOp::HideNotch]);

    let ops = state.selection_finish();
    assert!(state.panel_open);
    assert_eq!(ops.last(), Some(&SurfaceOp::EmitPrefillSelection));
    assert!(ops.contains(&SurfaceOp::SetPanelSizeCompact));
}

#[test]
fn selection_hotkey_outside_background_mode_touches_no_notch() {
    let mut state = PresentationState::new();
    let ops = state.selection_begin();
    assert!(ops.is_empty());
}
