use vstd::prelude::*;

use crate::control::{TermKey, TermKeyCode};
use crate::model::{KeyboardSize, MenuResult};

verus! {

/// The size-selection menu: the choices and the highlighted one.
pub struct MenuState {
    pub selections: Vec<KeyboardSize>,
    pub cursor: usize,
}

/// Cursor after a key press: up (or `k`) moves one up and stops at the top,
/// down (or `j`) moves one down and stops at the bottom.
pub open spec fn next_cursor(cursor: int, count: int, code: TermKeyCode) -> int {
    if code == TermKeyCode::Up || code == TermKeyCode::Char('k') {
        if cursor == 0 {
            0
        } else {
            cursor - 1
        }
    } else if code == TermKeyCode::Down || code == TermKeyCode::Char('j') {
        if cursor + 1 < count {
            cursor + 1
        } else {
            count - 1
        }
    } else {
        cursor
    }
}

impl MenuState {
    /// There is a choice, and the cursor is on one.
    pub open spec fn wf(&self) -> bool {
        0 < self.selections@.len() && self.cursor < self.selections@.len()
    }

    /// What a key press decides: Enter selects the highlighted form factor,
    /// Ctrl+C or Ctrl+Q ends the program, and any other key decides nothing.
    pub open spec fn spec_outcome(&self, key: TermKey) -> Option<MenuResult> {
        if key.code == TermKeyCode::Enter {
            Some(MenuResult::KeyboardSelected(self.selections@[self.cursor as int]))
        } else if key.control_only && (key.code == TermKeyCode::Char('c') || key.code
            == TermKeyCode::Char('q')) {
            Some(MenuResult::Terminate)
        } else {
            None
        }
    }

    /// Applies a key press: moves the cursor, and returns the outcome once the
    /// menu is decided.
    pub fn handle_key(&mut self, key: TermKey) -> (r: Option<MenuResult>)
        requires
            old(self).wf(),
        ensures
            final(self).wf(),
            final(self).selections == old(self).selections,
            final(self).cursor as int == next_cursor(
                old(self).cursor as int,
                old(self).selections@.len() as int,
                key.code,
            ),
            r == old(self).spec_outcome(key),
    {
        match key.code {
            TermKeyCode::Up | TermKeyCode::Char('k') => {
                self.cursor = self.cursor.saturating_sub(1);
                None
            },
            TermKeyCode::Down | TermKeyCode::Char('j') => {
                let max_selection_idx = self.selections.len() - 1;
                if self.cursor + 1 < self.selections.len() {
                    self.cursor = self.cursor + 1;
                } else {
                    self.cursor = max_selection_idx;
                }
                None
            },
            TermKeyCode::Enter => Some(MenuResult::KeyboardSelected(self.selections[self.cursor])),
            TermKeyCode::Char('c') | TermKeyCode::Char('q') => {
                if key.control_only {
                    Some(MenuResult::Terminate)
                } else {
                    None
                }
            },
            _ => None,
        }
    }
}

impl Default for MenuState {
    /// The three form factors from the smallest, with the first highlighted.
    fn default() -> (r: MenuState)
        ensures
            r.selections@ == seq![
                KeyboardSize::Keyboard60,
                KeyboardSize::Keyboard80,
                KeyboardSize::Keyboard100,
            ],
            r.cursor == 0,
            r.wf(),
    {
        MenuState {
            selections: vec![
                KeyboardSize::Keyboard60,
                KeyboardSize::Keyboard80,
                KeyboardSize::Keyboard100,
            ],
            cursor: 0,
        }
    }
}

} // verus!
