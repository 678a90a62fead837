//! The tray icon: its menu, and what a selection or a click comes to.

use vstd::prelude::*;
use crate::window::{
    main_label, ShowRequest, WindowError, WindowLifecycleController, WindowTable, EXIT_SUCCESS,
};

verus! {

/// What the user can ask for through the tray.
#[derive(Clone, Copy, Debug, PartialEq, Eq, Hash, Structural)]
pub enum TrayMenuAction {
    Quit,
    ShowMain,
}

/// What the shell is to do after a tray interaction.
#[derive(Clone, Copy, Debug, PartialEq, Eq, Hash, Structural)]
pub enum TrayOutcome {
    /// End the process with this exit code.
    Exit(i32),
    /// Bring the main window up as the request says.
    ShowMain(ShowRequest),
    /// The main window could not be brought up; the user is to be told.
    Failed(WindowError),
    /// Nothing is to be done.
    Ignored,
}

/// The identifier of the menu item that stands for `action`.
pub open spec fn item_id_of(action: TrayMenuAction) -> Seq<char> {
    match action {
        TrayMenuAction::Quit => "quit"@,
        TrayMenuAction::ShowMain => "show"@,
    }
}

/// The text of the menu item that stands for `action`.
pub open spec fn item_title_of(action: TrayMenuAction) -> Seq<char> {
    match action {
        TrayMenuAction::Quit => "Quit"@,
        TrayMenuAction::ShowMain => "Show Window"@,
    }
}

/// The action that the menu item with identifier `item` stands for.
pub open spec fn menu_action_of(item: Seq<char>) -> Option<TrayMenuAction> {
    if item == "quit"@ {
        Some(TrayMenuAction::Quit)
    } else if item == "show"@ {
        Some(TrayMenuAction::ShowMain)
    } else {
        None
    }
}

/// The items of the tray menu, from the top.
pub open spec fn menu_items() -> Seq<TrayMenuAction> {
    seq![TrayMenuAction::ShowMain, TrayMenuAction::Quit]
}

/// The window table after the tray has asked for `action`.
pub open spec fn table_after(table: WindowTable, action: Option<TrayMenuAction>) -> WindowTable {
    if table.terminated {
        table
    } else {
        match action {
            Some(TrayMenuAction::Quit) => table.quit(),
            Some(TrayMenuAction::ShowMain) => table.shown(main_label()),
            None => table,
        }
    }
}

/// What the shell is told after the tray has asked for `action`.
pub open spec fn outcome_of(table: WindowTable, action: Option<TrayMenuAction>) -> TrayOutcome {
    if table.terminated {
        TrayOutcome::Ignored
    } else {
        match action {
            Some(TrayMenuAction::Quit) => TrayOutcome::Exit(EXIT_SUCCESS),
            Some(TrayMenuAction::ShowMain) => match table.show_result(main_label()) {
                Ok(request) => TrayOutcome::ShowMain(request),
                Err(error) => TrayOutcome::Failed(error),
            },
            None => TrayOutcome::Ignored,
        }
    }
}

impl TrayMenuAction {
    /// The identifier of the menu item that stands for this action.
    pub fn id(self) -> (id: &'static str)
        ensures
            id@ == item_id_of(self),
    {
        match self {
            TrayMenuAction::Quit => "quit",
            TrayMenuAction::ShowMain => "show",
        }
    }

    /// The text of the menu item that stands for this action.
    pub fn title(self) -> (title: &'static str)
        ensures
            title@ == item_title_of(self),
    {
        match self {
            TrayMenuAction::Quit => "Quit",
            TrayMenuAction::ShowMain => "Show Window",
        }
    }

    /// The action that the menu item with identifier `item` stands for.
    pub fn from_id(item: &str) -> (action: Option<TrayMenuAction>)
        ensures
            action == menu_action_of(item@),
    {
        let item = item.to_owned();
        if item == "quit".to_owned() {
            Some(TrayMenuAction::Quit)
        } else if item == "show".to_owned() {
            Some(TrayMenuAction::ShowMain)
        } else {
            None
        }
    }
}

/// Owner of the tray icon and its menu. It routes what the user does there
/// into the window lifecycle controller.
#[derive(Clone, Copy, Debug, PartialEq, Eq, Hash, Structural)]
pub struct TrayController {}

impl TrayController {
    pub fn new() -> (tray: TrayController)
        ensures
            tray == (TrayController {  }),
    {
        TrayController {  }
    }

    /// The items of the tray menu, from the top.
    pub fn menu(&self) -> (items: Vec<TrayMenuAction>)
        ensures
            items@ == menu_items(),
    {
        let mut items: Vec<TrayMenuAction> = Vec::new();
        items.push(TrayMenuAction::ShowMain);
        items.push(TrayMenuAction::Quit);
        items
    }

    /// Whether a left click on the icon opens the menu. It does, and the
    /// click is handled as a click all the same.
    pub fn menu_on_left_click(&self) -> (opens: bool)
        ensures
            opens,
    {
        true
    }

    /// Carries out `action`, if there is one, on `windows`.
    pub fn perform(&self, action: Option<TrayMenuAction>, windows: &mut WindowLifecycleController) -> (outcome:
        TrayOutcome)
        requires
            old(windows).wf(),
        ensures
            final(windows).wf(),
            final(windows)@ == table_after(old(windows)@, action),
            outcome == outcome_of(old(windows)@, action),
    {
        if windows.is_terminated() {
            return TrayOutcome::Ignored;
        }
        match action {
            Some(TrayMenuAction::Quit) => {
                let code = windows.quit();
                TrayOutcome::Exit(code)
            },
            Some(TrayMenuAction::ShowMain) => match windows.show_and_focus("main") {
                Ok(request) => TrayOutcome::ShowMain(request),
                Err(error) => TrayOutcome::Failed(error),
            },
            None => TrayOutcome::Ignored,
        }
    }

    /// Handles the selection of the menu item with identifier `item`: `quit`
    /// ends the process, `show` brings the main window up, and any other
    /// identifier is ignored.
    pub fn on_menu_select(&self, item: &str, windows: &mut WindowLifecycleController) -> (outcome:
        TrayOutcome)
        requires
            old(windows).wf(),
        ensures
            final(windows).wf(),
            final(windows)@ == table_after(old(windows)@, menu_action_of(item@)),
            outcome == outcome_of(old(windows)@, menu_action_of(item@)),
    {
        let action = TrayMenuAction::from_id(item);
        self.perform(action, windows)
    }

    /// Handles a click on the tray icon: the main window is brought up.
    pub fn on_tray_click(&self, windows: &mut WindowLifecycleController) -> (outcome: TrayOutcome)
        requires
            old(windows).wf(),
        ensures
            final(windows).wf(),
            final(windows)@ == table_after(old(windows)@, Some(TrayMenuAction::ShowMain)),
            outcome == outcome_of(old(windows)@, Some(TrayMenuAction::ShowMain)),
    {
        self.perform(Some(TrayMenuAction::ShowMain), windows)
    }
}

/// Each menu item's identifier leads back to the item's action.
pub proof fn law_menu_identifiers_round_trip(action: TrayMenuAction)
    ensures
        menu_action_of(item_id_of(action)) == Some(action),
{
    reveal_strlit("quit");
    reveal_strlit("show");
    assert("show"@[0] == 's');
}

} // verus!
