// The About dialog: the project's description in a centred popup.
use vstd::prelude::*;
use crate::tui::app::App;
use crate::tui::widgets::layout::{Area, centered_rect, within};

verus! {

broadcast use vstd::string::group_string_axioms;

/// The About dialog.
pub struct AboutModalWidget;

impl AboutModalWidget {
    /// The dialog's title.
    pub fn title() -> (r: String)
        ensures
            r@ == "About Hydravisor"@,
    {
        "About Hydravisor".to_string()
    }

    /// The text the dialog shows, while it is open: the description the application was
    /// given.
    pub fn content(app: &App) -> (r: Option<String>)
        ensures
            r matches Some(t) ==> t@ == app.readme_content@,
            r is Some <==> app.show_about_modal,
    {
        if app.show_about_modal {
            Some(app.readme_content.clone())
        } else {
            None
        }
    }

    /// Where the dialog stands in a frame: the middle 60% across and 50% down, as the
    /// layout solver places it (see `centered_rect`); it lies within the frame.
    pub fn popup_area(frame: Area) -> (r: Area)
        ensures
            within(r, frame),
    {
        centered_rect(60, 50, frame)
    }
}

} // verus!
