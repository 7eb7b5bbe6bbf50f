//! The windows and the tray menu: what a click or a close request does.

use vstd::prelude::*;

use crate::text::same_text;

verus! {

/// An entry of the tray menu.
#[derive(Debug, Clone, Copy, PartialEq, Eq, Structural)]
pub enum MenuAction {
    ToggleWidget,
    OpenSettings,
    Quit,
}

impl MenuAction {
    /// The identifier of the entry.
    pub open spec fn id_text(self) -> Seq<char> {
        match self {
            MenuAction::ToggleWidget => "widget"@,
            MenuAction::OpenSettings => "settings"@,
            MenuAction::Quit => "quit"@,
        }
    }

    /// The identifier of the entry.
    pub fn id(self) -> (r: &'static str)
        ensures
            r@ == self.id_text(),
    {
        match self {
            MenuAction::ToggleWidget => "widget",
            MenuAction::OpenSettings => "settings",
            MenuAction::Quit => "quit",
        }
    }

    /// What the entry says.
    pub fn label(self) -> (r: &'static str)
        ensures
            r@ == match self {
                MenuAction::ToggleWidget => "Widget'ı göster/gizle"@,
                MenuAction::OpenSettings => "Ayarlar..."@,
                MenuAction::Quit => "Çıkış"@,
            },
    {
        match self {
            MenuAction::ToggleWidget => "Widget'ı göster/gizle",
            MenuAction::OpenSettings => "Ayarlar...",
            MenuAction::Quit => "Çıkış",
        }
    }
}

/// The entry with an identifier.
pub fn menu_action(id: &str) -> (r: Option<MenuAction>)
    ensures
        match r {
            Some(action) => id@ == action.id_text(),
            None => forall|action: MenuAction| id@ != #[trigger] action.id_text(),
        },
{
    if same_text(id, "widget") {
        Some(MenuAction::ToggleWidget)
    } else if same_text(id, "settings") {
        Some(MenuAction::OpenSettings)
    } else if same_text(id, "quit") {
        Some(MenuAction::Quit)
    } else {
        None
    }
}

/// No two entries have the same identifier.
pub proof fn law_menu_ids_are_distinct(a: MenuAction, b: MenuAction)
    requires
        a.id_text() == b.id_text(),
    ensures
        a == b,
{
    reveal_strlit("widget");
    reveal_strlit("settings");
    reveal_strlit("quit");
    assert("widget"@[0] == 'w');
    assert("settings"@[0] == 's');
    assert("quit"@[0] == 'q');
}

/// Whether a window is hidden where it is asked to close, so that the
/// application lives on in the tray.
pub fn hides_on_close(label: &str) -> (r: bool)
    ensures
        r == (label@ == "main"@ || label@ == "widget"@),
{
    same_text(label, "main") || same_text(label, "widget")
}

/// A mouse button.
#[derive(Debug, Clone, Copy, PartialEq, Eq, Structural)]
pub enum MouseButton {
    Left,
    Right,
    Middle,
}

/// What happened to a mouse button.
#[derive(Debug, Clone, Copy, PartialEq, Eq, Structural)]
pub enum ButtonState {
    Up,
    Down,
}

/// Whether a click on the tray icon shows or hides the widget: the left
/// button does, when it is let go.
pub fn tray_click_toggles(button: MouseButton, state: ButtonState) -> (r: bool)
    ensures
        r == (button == MouseButton::Left && state == ButtonState::Up),
{
    button == MouseButton::Left && state == ButtonState::Up
}

/// What is to happen to a window.
#[derive(Debug, Clone, Copy, PartialEq, Eq, Structural)]
pub enum WindowAction {
    Hide,
    ShowAndFocus,
}

/// What a toggle does to the widget. Where the system does not tell whether
/// it is visible, it is shown.
pub fn toggle_widget(visible: Option<bool>) -> (r: WindowAction)
    ensures
        r == (if visible == Some(true) {
            WindowAction::Hide
        } else {
            WindowAction::ShowAndFocus
        }),
{
    match visible {
        Some(true) => WindowAction::Hide,
        _ => WindowAction::ShowAndFocus,
    }
}

} // verus!
