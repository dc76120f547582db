use vstd::prelude::*;
use crate::text::same_text;

verus! {

/// The three things the tray menu offers.
#[derive(Clone, Copy, Debug, PartialEq, Eq, Structural)]
pub enum MenuAction {
    ToggleLauncher,
    ShowHide,
    Quit,
}

impl MenuAction {
    /// The characters of the stable identifier under which the host knows
    /// the item.
    pub open spec fn id_text(self) -> Seq<char> {
        match self {
            MenuAction::ToggleLauncher => "toggle_launcher"@,
            MenuAction::ShowHide => "show_hide"@,
            MenuAction::Quit => "quit"@,
        }
    }

    /// The characters the user reads on the item.
    pub open spec fn label_text(self) -> Seq<char> {
        match self {
            MenuAction::ToggleLauncher => "Toggle Launcher"@,
            MenuAction::ShowHide => "Show / Hide"@,
            MenuAction::Quit => "Quit"@,
        }
    }

    /// The action an identifier stands for, if it stands for one.
    pub open spec fn parse(id: Seq<char>) -> Option<MenuAction> {
        if id == MenuAction::ToggleLauncher.id_text() {
            Some(MenuAction::ToggleLauncher)
        } else if id == MenuAction::ShowHide.id_text() {
            Some(MenuAction::ShowHide)
        } else if id == MenuAction::Quit.id_text() {
            Some(MenuAction::Quit)
        } else {
            None
        }
    }

    /// The item's identifier.
    pub fn id(self) -> (id: &'static str)
        ensures
            id@ == self.id_text(),
    {
        match self {
            MenuAction::ToggleLauncher => "toggle_launcher",
            MenuAction::ShowHide => "show_hide",
            MenuAction::Quit => "quit",
        }
    }

    /// The item's label.
    pub fn label(self) -> (label: &'static str)
        ensures
            label@ == self.label_text(),
    {
        match self {
            MenuAction::ToggleLauncher => "Toggle Launcher",
            MenuAction::ShowHide => "Show / Hide",
            MenuAction::Quit => "Quit",
        }
    }

    /// Reads an identifier that the host hands over. Identifiers that belong to
    /// no item of the tray menu give `None`.
    pub fn from_id(id: &str) -> (action: Option<MenuAction>)
        ensures
            action == MenuAction::parse(id@),
    {
        if same_text(id, MenuAction::ToggleLauncher.id()) {
            Some(MenuAction::ToggleLauncher)
        } else if same_text(id, MenuAction::ShowHide.id()) {
            Some(MenuAction::ShowHide)
        } else if same_text(id, MenuAction::Quit.id()) {
            Some(MenuAction::Quit)
        } else {
            None
        }
    }
}

/// The tray menu: the launcher toggle on top, the main window's toggle
/// below it, "quit" at the bottom.
pub open spec fn tray_menu_items() -> Seq<MenuAction> {
    seq![MenuAction::ToggleLauncher, MenuAction::ShowHide, MenuAction::Quit]
}

/// Lists the items of the tray menu, top to bottom.
pub fn tray_menu() -> (items: Vec<MenuAction>)
    ensures
        items@ == tray_menu_items(),
{
    let mut items: Vec<MenuAction> = Vec::new();
    items.push(MenuAction::ToggleLauncher);
    items.push(MenuAction::ShowHide);
    items.push(MenuAction::Quit);
    items
}

/// The three identifiers are pairwise different, so every action is read
/// back from its own identifier.
pub proof fn lemma_ids_round_trip(action: MenuAction)
    ensures
        MenuAction::parse(action.id_text()) == Some(action),
{
    reveal_strlit("toggle_launcher");
    reveal_strlit("show_hide");
    reveal_strlit("quit");
    assert("toggle_launcher"@.len() == 15);
    assert("show_hide"@.len() == 9);
    assert("quit"@.len() == 4);
}

} // verus!
