use vstd::prelude::*;
use crate::command::{Command, CommandView, opt_command_view};

verus! {

/// The command for the entry chosen in the console menu: the two load
/// entries load the tags `1` and `2`, `Unload` unloads; `Reset`, a
/// cancelled prompt or any other choice asks for nothing.
pub open spec fn selection_command(selection: Option<usize>) -> Option<CommandView> {
    match selection {
        Some(0) => Some(CommandView::Load("1"@)),
        Some(1) => Some(CommandView::Load("2"@)),
        Some(2) => Some(CommandView::Unload),
        _ => None,
    }
}

/// The console front end: a menu of actions in the terminal.
pub struct ConsoleUI {}

impl ConsoleUI {
    /// A console front end.
    pub fn new() -> (ui: ConsoleUI) {
        ConsoleUI {}
    }

    /// The entries of the menu, in order.
    pub fn menu_items(&self) -> (items: [&'static str; 4])
        ensures
            items[0]@ == "Load 1"@,
            items[1]@ == "Load 2"@,
            items[2]@ == "Unload"@,
            items[3]@ == "Reset"@,
    {
        ["Load 1", "Load 2", "Unload", "Reset"]
    }

    /// The command for the menu entry `selection` (`None` when the prompt
    /// was cancelled).
    pub fn command_for_selection(&self, selection: Option<usize>) -> (c: Option<Command>)
        ensures
            opt_command_view(c) == selection_command(selection),
    {
        match selection {
            Some(0) => Some(Command::Load(String::from_str("1"))),
            Some(1) => Some(Command::Load(String::from_str("2"))),
            Some(2) => Some(Command::Unload),
            _ => None,
        }
    }
}

} // verus!
