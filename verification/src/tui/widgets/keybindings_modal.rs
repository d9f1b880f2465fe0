// The Keybindings dialog: the key of each action, from the configuration.
use vstd::prelude::*;
use crate::tui::app::App;
use crate::config::KeyBindingsConfig;
use crate::tui::widgets::{Span, Tone, Row, rows_view, labelled, note};
use crate::tui::widgets::layout::Area;

verus! {

broadcast use vstd::string::group_string_axioms;

/// The Keybindings dialog.
pub struct KeybindingsModalWidget;

/// The rows of the dialog: each action's name in the label tone and its key, a blank row,
/// and how to close the dialog.
pub open spec fn binding_rows(kb: KeyBindingsConfig) -> Seq<((Seq<char>, Tone), Option<(Seq<char>, Tone)>)> {
    seq![
        (("Quit: "@, Tone::Label), Some((kb.quit@, Tone::Plain))),
        (("Help: "@, Tone::Label), Some((kb.help@, Tone::Plain))),
        (("Menu: "@, Tone::Label), Some((kb.menu@, Tone::Plain))),
        (("Next Tab: "@, Tone::Label), Some((kb.next_tab@, Tone::Plain))),
        (("Prev Tab: "@, Tone::Label), Some((kb.prev_tab@, Tone::Plain))),
        (("New VM: "@, Tone::Label), Some((kb.new_vm@, Tone::Plain))),
        (("Destroy VM: "@, Tone::Label), Some((kb.destroy_vm@, Tone::Plain))),
        (("Edit: "@, Tone::Label), Some((kb.edit@, Tone::Plain))),
        (("Enter: "@, Tone::Label), Some((kb.enter@, Tone::Plain))),
        (("Up: "@, Tone::Label), Some((kb.up@, Tone::Plain))),
        (("Down: "@, Tone::Label), Some((kb.down@, Tone::Plain))),
        ((Seq::empty(), Tone::Plain), None),
        (("Press Esc to close"@, Tone::Help), None),
    ]
}

impl KeybindingsModalWidget {
    /// The dialog's title.
    pub fn title() -> (r: String)
        ensures
            r@ == "Keybindings"@,
    {
        "Keybindings".to_string()
    }

    /// Where the dialog stands in a frame: a quarter in from the left and from the top,
    /// half as wide and half as high.
    pub fn popup_area(frame: Area) -> (r: Area)
        requires
            frame.x + frame.width / 4 <= u16::MAX,
            frame.y + frame.height / 4 <= u16::MAX,
        ensures
            r == (Area {
                x: (frame.x + frame.width / 4) as u16,
                y: (frame.y + frame.height / 4) as u16,
                width: frame.width / 2,
                height: frame.height / 2,
            }),
    {
        Area { x: frame.x + frame.width / 4, y: frame.y + frame.height / 4, width: frame.width / 2, height: frame.height / 2 }
    }

    /// The rows of the dialog (see `binding_rows`).
    pub fn rows(app: &App) -> (r: Vec<Row>)
        ensures
            rows_view(r@) == binding_rows(app.config.keybindings),
    {
        let kb = &app.config.keybindings;
        let r = vec![
            labelled("Quit: ", Tone::Label, kb.quit.clone(), Tone::Plain),
            labelled("Help: ", Tone::Label, kb.help.clone(), Tone::Plain),
            labelled("Menu: ", Tone::Label, kb.menu.clone(), Tone::Plain),
            labelled("Next Tab: ", Tone::Label, kb.next_tab.clone(), Tone::Plain),
            labelled("Prev Tab: ", Tone::Label, kb.prev_tab.clone(), Tone::Plain),
            labelled("New VM: ", Tone::Label, kb.new_vm.clone(), Tone::Plain),
            labelled("Destroy VM: ", Tone::Label, kb.destroy_vm.clone(), Tone::Plain),
            labelled("Edit: ", Tone::Label, kb.edit.clone(), Tone::Plain),
            labelled("Enter: ", Tone::Label, kb.enter.clone(), Tone::Plain),
            labelled("Up: ", Tone::Label, kb.up.clone(), Tone::Plain),
            labelled("Down: ", Tone::Label, kb.down.clone(), Tone::Plain),
            (Span { text: String::new(), tone: Tone::Plain }, None),
            note("Press Esc to close", Tone::Help),
        ];
        assert(rows_view(r@) =~= binding_rows(app.config.keybindings));
        r
    }
}

} // verus!
