//! The event dispatcher: from a trigger to what it sets off.
//!
//! Three kinds of trigger reach the application: the global hotkey fires, an
//! item of the tray menu is chosen, or a command is called. Commands answer
//! to their caller and are served by their own modules. The other two have
//! nobody to answer to; this module routes them. The dispatcher keeps no
//! state: every trigger is handled on its own.
//!
//! The hotkey fires when it is pressed. Its release is a trigger too, and is
//! ignored: one keystroke toggles the window once.

use crate::text::same_text;
use vstd::prelude::*;

verus! {

/// The id of the tray item that toggles the window.
pub const TOGGLE_ITEM: &'static str = "toggle";

/// The id of the tray item that opens the settings.
pub const SETTINGS_ITEM: &'static str = "settings";

/// The id of the tray item that quits.
pub const QUIT_ITEM: &'static str = "quit";

/// The name of the notification that asks the user interface to open its
/// settings.
pub const OPEN_SETTINGS_EVENT: &'static str = "open-settings";

/// The status with which the process ends when the user quits.
pub const QUIT_STATUS: i32 = 0;

/// An item of the tray menu.
#[derive(Debug, PartialEq, Eq)]
pub struct MenuItem {
    /// The stable id by which a choice of the item is recognised.
    pub id: String,
    /// The text that the menu shows.
    pub label: String,
}

/// A [`MenuItem`] as a mathematical value.
pub struct MenuItemView {
    pub id: Seq<char>,
    pub label: Seq<char>,
}

impl View for MenuItem {
    type V = MenuItemView;

    open spec fn view(&self) -> MenuItemView {
        MenuItemView { id: self.id@, label: self.label@ }
    }
}

/// The tray menu: its three items, from top to bottom.
pub open spec fn tray_menu_items() -> Seq<MenuItemView> {
    seq![
        MenuItemView { id: TOGGLE_ITEM@, label: "Toggle Window"@ },
        MenuItemView { id: SETTINGS_ITEM@, label: "Settings"@ },
        MenuItemView { id: QUIT_ITEM@, label: "Quit"@ },
    ]
}

/// Builds the tray menu: its three items, from top to bottom.
pub fn tray_menu() -> (menu: Vec<MenuItem>)
    ensures
        menu@.map_values(|item: MenuItem| item@) == tray_menu_items(),
{
    let mut menu: Vec<MenuItem> = Vec::new();
    menu.push(MenuItem { id: TOGGLE_ITEM.to_owned(), label: "Toggle Window".to_owned() });
    menu.push(MenuItem { id: SETTINGS_ITEM.to_owned(), label: "Settings".to_owned() });
    menu.push(MenuItem { id: QUIT_ITEM.to_owned(), label: "Quit".to_owned() });
    menu
}

/// Something that happened and calls for a reaction.
#[derive(Debug, PartialEq, Eq)]
pub enum Trigger {
    /// The global hotkey went down.
    HotkeyPressed,
    /// The global hotkey came up again.
    HotkeyReleased,
    /// The tray item with this id was chosen.
    TrayItem(String),
}

/// A [`Trigger`] as a mathematical value.
pub enum TriggerView {
    HotkeyPressed,
    HotkeyReleased,
    TrayItem(Seq<char>),
}

impl View for Trigger {
    type V = TriggerView;

    open spec fn view(&self) -> TriggerView {
        match self {
            Trigger::HotkeyPressed => TriggerView::HotkeyPressed,
            Trigger::HotkeyReleased => TriggerView::HotkeyReleased,
            Trigger::TrayItem(id) => TriggerView::TrayItem(id@),
        }
    }
}

/// What a trigger sets off.
#[derive(Clone, Copy, Debug, PartialEq, Eq, Structural)]
pub enum Effect {
    /// Toggle the main window, as `visibility::event_toggle` decides from
    /// the window's state.
    ToggleWindow,
    /// Open the settings: do to the main window what
    /// `visibility::settings_action` decides from the window's state, then
    /// send it the notification [`OPEN_SETTINGS_EVENT`], without waiting for
    /// the user interface to react. Where `settings_action` gives no action,
    /// nothing is done and nothing is sent.
    OpenSettings,
    /// End the process at once with [`QUIT_STATUS`]. There is no cleanup.
    Quit,
    /// Nothing: the trigger is the release of the hotkey, or a tray item that
    /// the application does not know.
    Ignore,
}

/// What the tray item with the id `id` sets off.
pub open spec fn tray_effect(id: Seq<char>) -> Effect {
    if id == TOGGLE_ITEM@ {
        Effect::ToggleWindow
    } else if id == SETTINGS_ITEM@ {
        Effect::OpenSettings
    } else if id == QUIT_ITEM@ {
        Effect::Quit
    } else {
        Effect::Ignore
    }
}

/// What `trigger` sets off: the hotkey toggles the window when it is
/// pressed and does nothing when it is released, and a tray item does what
/// its id stands for.
pub open spec fn effect_of(trigger: TriggerView) -> Effect {
    match trigger {
        TriggerView::HotkeyPressed => Effect::ToggleWindow,
        TriggerView::HotkeyReleased => Effect::Ignore,
        TriggerView::TrayItem(id) => tray_effect(id),
    }
}

/// Routes a trigger to what it sets off.
pub fn dispatch(trigger: &Trigger) -> (effect: Effect)
    ensures
        effect == effect_of(trigger@),
{
    match trigger {
        Trigger::HotkeyPressed => Effect::ToggleWindow,
        Trigger::HotkeyReleased => Effect::Ignore,
        Trigger::TrayItem(id) => {
            if same_text(id.as_str(), TOGGLE_ITEM) {
                Effect::ToggleWindow
            } else if same_text(id.as_str(), SETTINGS_ITEM) {
                Effect::OpenSettings
            } else if same_text(id.as_str(), QUIT_ITEM) {
                Effect::Quit
            } else {
                Effect::Ignore
            }
        },
    }
}

/// Every item of the tray menu sets off what its label promises: the ids are
/// told apart, and none is ignored.
pub proof fn lemma_tray_menu_is_routed()
    ensures
        tray_menu_items().len() == 3,
        effect_of(TriggerView::TrayItem(tray_menu_items()[0].id)) == Effect::ToggleWindow,
        effect_of(TriggerView::TrayItem(tray_menu_items()[1].id)) == Effect::OpenSettings,
        effect_of(TriggerView::TrayItem(tray_menu_items()[2].id)) == Effect::Quit,
{
    reveal_strlit("toggle");
    reveal_strlit("settings");
    reveal_strlit("quit");
    assert(TOGGLE_ITEM@.len() == 6);
    assert(SETTINGS_ITEM@.len() == 8);
    assert(QUIT_ITEM@.len() == 4);
}

} // verus!
