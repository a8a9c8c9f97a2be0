//! Hotkey bookkeeping: the documented default triple, the fixed
//! selection-capture hotkey, and the registration rules — the selection
//! hotkey occupies a slot in the registration table unless a user-configured
//! entry already spells the same normalized descriptor, and an update must
//! supply exactly three hotkeys.

use vstd::prelude::*;

verus! {

/// The fixed, non-configurable selection-capture hotkey, in its normalized
/// string form.
pub fn selection_shortcut() -> (s: &'static str)
    ensures
        s@ == "CmdOrCtrl+Shift+L"@,
{
    "CmdOrCtrl+Shift+L"
}

/// The documented default hotkey triple, used when no custom hotkeys are
/// stored.
pub fn default_shortcuts() -> (v: Vec<String>)
    ensures
        v.deep_view() == seq!["CmdOrCtrl+Shift+Space"@, "CmdOrCtrl+Shift+K"@, "Alt+Space"@],
{
    let mut v: Vec<String> = Vec::new();
    v.push("CmdOrCtrl+Shift+Space".to_owned());
    v.push("CmdOrCtrl+Shift+K".to_owned());
    v.push("Alt+Space".to_owned());
    proof {
        assert(v.deep_view() =~= seq![
            "CmdOrCtrl+Shift+Space"@,
            "CmdOrCtrl+Shift+K"@,
            "Alt+Space"@,
        ]);
    }
    v
}

/// The hotkeys to register at startup: the stored custom triple when there
/// is one, the documented defaults otherwise.
pub fn startup_shortcuts(saved: Option<Vec<String>>) -> (r: Vec<String>)
    ensures
        saved matches Some(list) ==> r.deep_view() == list.deep_view(),
        saved is None ==> r.deep_view() == seq![
            "CmdOrCtrl+Shift+Space"@,
            "CmdOrCtrl+Shift+K"@,
            "Alt+Space"@,
        ],
{
    match saved {
        Some(list) => list,
        None => default_shortcuts(),
    }
}

/// Appends the selection hotkey to the parsed user set unless an entry with
/// the same normalized form is already present, so it is registered exactly
/// once. The comparison happens here, once per registration, not per press.
pub fn merge_selection_shortcut(parsed: Vec<String>, selection: &String) -> (r: Vec<String>)
    ensures
        (exists|k: int| 0 <= k < parsed.deep_view().len() && (#[trigger] parsed.deep_view()[k])
            == selection@) ==> r.deep_view() == parsed.deep_view(),
        !(exists|k: int| 0 <= k < parsed.deep_view().len() && (#[trigger] parsed.deep_view()[k])
            == selection@) ==> r.deep_view() == parsed.deep_view().push(selection@),
{
    let n = parsed.len();
    let mut duplicate = false;
    let mut i: usize = 0;
    while i < n
        invariant
            n == parsed.len(),
            0 <= i <= n,
            duplicate <==> (exists|k: int| 0 <= k < i && (#[trigger] parsed.deep_view()[k])
                == selection@),
        decreases n - i,
    {
        if parsed[i] == *selection {
            duplicate = true;
            proof {
                assert(parsed.deep_view()[i as int] == selection@);
            }
        }
        i = i + 1;
    }
    let ghost parsed_elements = parsed.deep_view();
    let mut r = parsed;
    if !duplicate {
        r.push(selection.clone());
        proof {
            assert(r.deep_view() =~= parsed_elements.push(selection@));
        }
    }
    r
}

/// An update must supply exactly three hotkeys; anything else is rejected
/// with this message and registers nothing.
pub fn validate_shortcut_update(shortcuts: &Vec<String>) -> (r: Result<(), String>)
    ensures
        r is Ok <==> shortcuts@.len() == 3,
        r matches Err(m) ==> m@ == "Exactly 3 shortcuts are required"@,
{
    if shortcuts.len() == 3 {
        Ok(())
    } else {
        Err("Exactly 3 shortcuts are required".to_owned())
    }
}

} // verus!
