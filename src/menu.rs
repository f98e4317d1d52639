use vstd::prelude::*;

verus! {

/// The entries of the interactive menu, in the order shown.
#[derive(Debug, Clone, Copy, PartialEq, Eq, Structural)]
pub enum MenuChoice {
    RunSB,
    RunSDisk,
    UpdateBinaries,
    Settings,
    Exit,
}

/// How many entries the menu shows.
pub const MENU_LEN: usize = 5;

pub open spec fn choice_at(i: int) -> Option<MenuChoice> {
    if i == 0 {
        Some(MenuChoice::RunSB)
    } else if i == 1 {
        Some(MenuChoice::RunSDisk)
    } else if i == 2 {
        Some(MenuChoice::UpdateBinaries)
    } else if i == 3 {
        Some(MenuChoice::Settings)
    } else if i == 4 {
        Some(MenuChoice::Exit)
    } else {
        None
    }
}

impl MenuChoice {
    /// The entry at a position of the menu.
    pub fn from_index(i: usize) -> (r: Option<MenuChoice>)
        ensures
            r == choice_at(i as int),
    {
        if i == 0 {
            Some(MenuChoice::RunSB)
        } else if i == 1 {
            Some(MenuChoice::RunSDisk)
        } else if i == 2 {
            Some(MenuChoice::UpdateBinaries)
        } else if i == 3 {
            Some(MenuChoice::Settings)
        } else if i == 4 {
            Some(MenuChoice::Exit)
        } else {
            None
        }
    }
}

/// The selection after moving down: past the last entry it wraps to the first;
/// no selection selects the first.
pub fn next_selection(selected: Option<usize>, len: usize) -> (r: usize)
    requires
        len > 0,
    ensures
        r == match selected {
            Some(i) => if i >= len - 1 {
                0
            } else {
                i + 1
            },
            None => 0,
        },
        r < len,
{
    match selected {
        Some(i) => if i >= len - 1 {
            0
        } else {
            i + 1
        },
        None => 0,
    }
}

/// The selection after moving up: before the first entry it wraps to the
/// last; no selection selects the first.
pub fn previous_selection(selected: Option<usize>, len: usize) -> (r: usize)
    requires
        len > 0,
    ensures
        r == match selected {
            Some(i) => if i == 0 {
                len - 1
            } else {
                i - 1
            },
            None => 0,
        },
{
    match selected {
        Some(i) => if i == 0 {
            len - 1
        } else {
            i - 1
        },
        None => 0,
    }
}

} // verus!
