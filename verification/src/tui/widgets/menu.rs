// The menu: the main level (About, Preferences, Quit) and the Preferences level
// (Keybindings), drawn at the top left of the frame.
use vstd::prelude::*;
use crate::tui::app::App;
use crate::tui::widgets::layout::Area;
use crate::text::string_views;

verus! {

broadcast use vstd::string::group_string_axioms;

/// The menu.
pub struct MenuWidget;

/// Which selection a menu level is drawn with.
#[derive(Clone, Copy, Debug, PartialEq, Eq, Structural)]
pub enum MenuList {
    Main,
    Preferences,
    Unshown,
}

/// The entries, the title and the height of a menu level: the Preferences level at level
/// 1, the main level at any other.
pub open spec fn level_contents(level: u8) -> (Seq<Seq<char>>, Seq<char>, u16) {
    if level == 1 {
        (seq!["Keybindings"@], "Preferences"@, 4u16)
    } else {
        (seq!["About"@, "Preferences"@, "Quit"@], "Menu"@, 6u16)
    }
}

impl MenuWidget {
    /// The entries, the title and the height of a menu level (see `level_contents`).
    pub fn contents(level: u8) -> (r: (Vec<String>, String, u16))
        ensures
            (string_views(r.0@), r.1@, r.2) == level_contents(level),
    {
        if level == 1 {
            let items = vec!["Keybindings".to_string()];
            assert(string_views(items@) =~= seq!["Keybindings"@]);
            (items, "Preferences".to_string(), 4)
        } else {
            let items = vec!["About".to_string(), "Preferences".to_string(), "Quit".to_string()];
            assert(string_views(items@) =~= seq!["About"@, "Preferences"@, "Quit"@]);
            (items, "Menu".to_string(), 6)
        }
    }

    /// Which selection the open menu is drawn with: the main one at level 0, the
    /// Preferences one at level 1; at any other level, and while the menu is closed, no
    /// entries are drawn.
    pub fn list_in_use(app: &App) -> (r: MenuList)
        ensures
            r == (if !app.show_menu {
                MenuList::Unshown
            } else if app.menu_level == 0 {
                MenuList::Main
            } else if app.menu_level == 1 {
                MenuList::Preferences
            } else {
                MenuList::Unshown
            }),
    {
        if !app.show_menu {
            MenuList::Unshown
        } else if app.menu_level == 0 {
            MenuList::Main
        } else if app.menu_level == 1 {
            MenuList::Preferences
        } else {
            MenuList::Unshown
        }
    }

    /// Where a menu `height` lines high stands in a frame: five cells in, one down, 24
    /// wide.
    pub fn area(frame: Area, height: u16) -> (r: Area)
        requires
            frame.x + 5 <= u16::MAX,
            frame.y + 1 <= u16::MAX,
        ensures
            r == (Area { x: (frame.x + 5) as u16, y: (frame.y + 1) as u16, width: 24, height }),
    {
        Area { x: frame.x + 5, y: frame.y + 1, width: 24, height }
    }
}

} // verus!
