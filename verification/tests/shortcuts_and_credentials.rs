use macclaw_panel::credentials::Credentials;
use macclaw_panel::shortcuts::{
    default_shortcuts, merge_selection_shortcut, selection_shortcut, startup_shortcuts,
    validate_shortcut_update,
};

#[test]
fn the_selection_shortcut_is_fixed() {
    assert_eq!(selection_shortcut(), "CmdOrCtrl+Shift+L");
}

#[test]
fn the_default_triple_is_documented() {
    assert_eq!(
        default_shortcuts(),
        vec!["CmdOrCtrl+Shift+Space", "CmdOrCtrl+Shift+K", "Alt+Space"]
    );
}

#[test]
fn startup_uses_saved_shortcuts_when_present() {
    let saved = vec!["A".to_string(), "B".to_string(), "C".to_string()];
    assert_eq!(startup_shortcuts(Some(saved.clone())), saved);
    assert_eq!(startup_shortcuts(None), default_shortcuts());
}

#[test]
fn selection_shortcut_is_added_once() {
    let selection = selection_shortcut().to_string();
    let parsed = vec!["Alt+Space".to_string()];
    let merged = merge_selection_shortcut(parsed, &selection);
    assert_eq!(merged, vec!["Alt+Space".to_string(), selection.clone()]);

    let merged_again = merge_selection_shortcut(merged.clone(), &selection);
    assert_eq!(merged_again, merged);
}

#[test]
fn shortcut_updates_need_exactly_three() {
    let three = vec!["A".to_string(), "B".to_string(), "C".to_string()];
    assert!(validate_shortcut_update(&three).is_ok());

    let two = vec!["A".to_string(), "B".to_string()];
    assert_eq!(
        validate_shortcut_update(&two),
        Err("Exactly 3 shortcuts are required".to_string())
    );
    let four = vec!["A".to_string(), "B".to_string(), "C".to_string(), "D".to_string()];
    assert!(validate_shortcut_update(&four).is_err());
}

#[test]
fn credential_defaults_match_the_documentation() {
    let c = Credentials::default();
    assert_eq!(c.gateway_url, "ws://127.0.0.1:19819");
    assert_eq!(c.token, "");
    assert_eq!(c.password, "");
    assert_eq!(c.agent_id, "");
    assert_eq!(c.session_key, "main");
    assert!(c.shortcuts.is_none());
}
