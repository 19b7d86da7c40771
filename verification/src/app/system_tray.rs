//! The tray icon's menu: what it shows and what its entries do.

use vstd::prelude::*;

use crate::state::TrayState;

verus! {

/// The ids of the tray menu's entries.
pub const RECORDING_ID: &'static str = "recording";
pub const SETTINGS_ID: &'static str = "settings";
pub const OPEN_ID: &'static str = "open";
pub const QUIT_ID: &'static str = "quit";
pub const UPDATE_ID: &'static str = "update";

/// One entry of the tray menu.
pub enum MenuEntry {
    /// A check box that is shown but cannot be clicked.
    DisabledCheck { id: &'static str, label: &'static str, checked: bool },
    Separator,
    Item { id: &'static str, label: &'static str },
}

/// The menu entry as plain values: kind (0 check, 1 separator, 2 item), id,
/// label and checked state.
pub open spec fn entry_view(e: MenuEntry) -> (int, Seq<char>, Seq<char>, bool) {
    match e {
        MenuEntry::DisabledCheck { id, label, checked } => (0, id@, label@, checked),
        MenuEntry::Separator => (1, Seq::empty(), Seq::empty(), false),
        MenuEntry::Item { id, label } => (2, id@, label@, false),
    }
}

/// The tray menu: the recording check box (checked while recording), a
/// separator, "Settings", "Open" and "Quit", and, where an update is
/// available, another separator and "Update".
pub open spec fn tray_menu(recording: bool, update_available: bool) -> Seq<(int, Seq<char>, Seq<char>, bool)> {
    let base = seq![
        (0, "recording"@, "Recording"@, recording),
        (1, Seq::<char>::empty(), Seq::<char>::empty(), false),
        (2, "settings"@, "Settings"@, false),
        (2, "open"@, "Open"@, false),
        (2, "quit"@, "Quit"@, false),
    ];
    if update_available {
        base + seq![(1, Seq::<char>::empty(), Seq::<char>::empty(), false), (2, "update"@, "Update"@, false)]
    } else {
        base
    }
}

/// The tray menu for the tray's state.
pub fn create_tray_menu(tray_state: &TrayState) -> (r: Vec<MenuEntry>)
    ensures
        r@.map_values(|e: MenuEntry| entry_view(e)) == tray_menu(tray_state.view().1, tray_state.view().0),
{
    let recording = tray_state.recording();
    let update_available = tray_state.update_available();
    let mut menu: Vec<MenuEntry> = Vec::new();
    menu.push(MenuEntry::DisabledCheck { id: RECORDING_ID, label: "Recording", checked: recording });
    menu.push(MenuEntry::Separator);
    menu.push(MenuEntry::Item { id: SETTINGS_ID, label: "Settings" });
    menu.push(MenuEntry::Item { id: OPEN_ID, label: "Open" });
    menu.push(MenuEntry::Item { id: QUIT_ID, label: "Quit" });
    if update_available {
        menu.push(MenuEntry::Separator);
        menu.push(MenuEntry::Item { id: UPDATE_ID, label: "Update" });
    }
    assert(menu@.map_values(|e: MenuEntry| entry_view(e)) =~= tray_menu(recording, update_available));
    menu
}

/// What a click on a tray menu entry does.
#[derive(Debug, Clone, Copy, PartialEq, Eq, Structural)]
pub enum MenuAction {
    EditSettings,
    OpenWindow,
    Quit,
    Update,
    Nothing,
}

/// The action for a click on the entry with the id `id`.
pub open spec fn menu_action_of(id: Seq<char>) -> MenuAction {
    if id == "settings"@ {
        MenuAction::EditSettings
    } else if id == "open"@ {
        MenuAction::OpenWindow
    } else if id == "quit"@ {
        MenuAction::Quit
    } else if id == "update"@ {
        MenuAction::Update
    } else {
        MenuAction::Nothing
    }
}

/// What a click on the tray menu entry `id` does.
pub fn menu_action(id: &str) -> (r: MenuAction)
    ensures
        r == menu_action_of(id@),
{
    if crate::text::str_eq(id, SETTINGS_ID) {
        MenuAction::EditSettings
    } else if crate::text::str_eq(id, OPEN_ID) {
        MenuAction::OpenWindow
    } else if crate::text::str_eq(id, QUIT_ID) {
        MenuAction::Quit
    } else if crate::text::str_eq(id, UPDATE_ID) {
        MenuAction::Update
    } else {
        MenuAction::Nothing
    }
}

/// Something with a tray icon whose menu can be built and changed.
pub trait SystemTrayManager {
    fn init_tray_menu(&self);

    fn set_tray_menu_update_available(&self, update_available: bool);

    fn set_tray_menu_recording(&self, recording: bool);
}

/// Every clickable entry of the tray menu does something, each a different
/// thing, and the recording check box does nothing; "Update" is offered, as
/// the last entry, exactly when an update is available; the check box shows
/// whether a recording runs.
pub proof fn lemma_tray_menu_actions(recording: bool, update_available: bool)
    ensures
        forall|i: int| #![trigger tray_menu(recording, update_available)[i]]
            0 <= i < tray_menu(recording, update_available).len()
            && tray_menu(recording, update_available)[i].0 == 2
            ==> menu_action_of(tray_menu(recording, update_available)[i].1) != MenuAction::Nothing,
        forall|i: int, j: int| #![trigger tray_menu(recording, update_available)[i], tray_menu(recording, update_available)[j]]
            0 <= i < j < tray_menu(recording, update_available).len()
            && tray_menu(recording, update_available)[i].0 == 2 && tray_menu(recording, update_available)[j].0 == 2
            ==> menu_action_of(tray_menu(recording, update_available)[i].1)
                != menu_action_of(tray_menu(recording, update_available)[j].1),
        menu_action_of(tray_menu(recording, update_available)[0].1) == MenuAction::Nothing,
        tray_menu(recording, update_available)[0].3 == recording,
        update_available <==> menu_action_of(tray_menu(recording, update_available).last().1) == MenuAction::Update,
{
    reveal_strlit("recording");
    reveal_strlit("settings");
    reveal_strlit("open");
    reveal_strlit("quit");
    reveal_strlit("update");
    assert("recording"@.len() == 9 && "settings"@.len() == 8 && "open"@.len() == 4 && "quit"@.len() == 4
        && "update"@.len() == 6);
    assert("open"@[0] != "quit"@[0]);
    let m = tray_menu(recording, update_available);
    assert(m.len() == if update_available { 7int } else { 5int });
    assert(m[0].1 == "recording"@ && m[2].1 == "settings"@ && m[3].1 == "open"@ && m[4].1 == "quit"@);
    if update_available {
        assert(m[6].1 == "update"@);
        assert(m[5].0 == 1);
    }
    assert(m[1].0 == 1);
}

} // verus!
