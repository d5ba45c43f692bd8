//! The start menu's state machine: a cursor over a fixed option list,
//! moved by the navigation keys, and the choice taken on select.

use vstd::prelude::*;

verus! {

/// What a confirmed menu selection means.
#[derive(Clone, Copy, PartialEq, Eq, Structural, Debug)]
pub enum MenuChoice {
    /// Start a game session.
    Play,
    /// Leave the program.
    Quit,
}

/// One step of the start menu on the latest sampled key: `'w'` moves the
/// cursor up, `'s'` down, both saturating at the ends of the option list;
/// a space confirms the current selection, and any other key changes
/// nothing. Returns the new cursor and whether the selection was
/// confirmed.
pub fn menu_step(selected: u8, n_options: u8, c: char) -> (r: (u8, bool))
    requires
        n_options >= 1,
        selected < n_options,
    ensures
        r.0 < n_options,
        r.1 == (c == ' '),
        c == 'w' ==> r.0 == (if selected > 0 {
            selected - 1
        } else {
            0
        }),
        c == 's' ==> r.0 == (if selected + 1 < n_options {
            selected + 1
        } else {
            selected as int
        }),
        c != 'w' && c != 's' ==> r.0 == selected,
{
    let mut selected = selected;
    if c == 'w' {
        if selected > 0 {
            selected = selected - 1;
        }
    } else if c == 's' {
        if n_options - 1 > selected {
            selected = selected + 1;
        }
    }
    (selected, c == ' ')
}

/// The choice a confirmed cursor position stands for: the first option
/// starts a game, the second leaves; no other position exists on the
/// start menu.
pub fn menu_choice(selected: u8) -> (r: Option<MenuChoice>)
    ensures
        selected == 0 ==> r == Option::Some(MenuChoice::Play),
        selected == 1 ==> r == Option::Some(MenuChoice::Quit),
        selected >= 2 ==> r is None,
{
    if selected == 0 {
        Option::Some(MenuChoice::Play)
    } else if selected == 1 {
        Option::Some(MenuChoice::Quit)
    } else {
        Option::None
    }
}

} // verus!
