// The dialog for a new virtual machine: one field per setting, the field being edited
// lit, and the ISO path dimmed while booting from an ISO is off.
use vstd::prelude::*;
use crate::tui::app::App;
use crate::tui::widgets::Tone;
use crate::tui::widgets::layout::{Area, centered_rect, within};

verus! {

broadcast use vstd::string::group_string_axioms;

/// The dialog for a new machine.
pub struct NewVmPopupWidget;

/// A field of the dialog: its title (the checkbox has none), its text and its tone.
#[derive(Debug, Clone)]
pub struct FormField {
    pub title: Option<String>,
    pub text: String,
    pub tone: Tone,
}

/// The view of a field.
pub open spec fn field_view(f: FormField) -> (Option<Seq<char>>, Seq<char>, Tone) {
    (match f.title {
        Some(t) => Some(t@),
        None => None,
    }, f.text@, f.tone)
}

/// The tone of the field at `idx`: lit while it is the one being edited.
pub open spec fn field_tone(app: App, idx: usize) -> Tone {
    if app.active_new_vm_input_idx == idx { Tone::Active } else { Tone::Plain }
}

/// The fields of the dialog in order: name, source image, disk path, CPUs, memory, disk
/// size, the ISO checkbox and the ISO path. The ISO path is lit only while it is edited
/// with booting from an ISO on, and dimmed while booting from an ISO is off.
pub open spec fn form_fields(app: App) -> Seq<(Option<Seq<char>>, Seq<char>, Tone)> {
    seq![
        (Some("VM Name"@), app.new_vm_name@, field_tone(app, 0)),
        (Some("Source Image Path (optional)"@), app.new_vm_source_image_path@, field_tone(app, 1)),
        (Some("Disk Image Path"@), app.new_vm_disk_path@, field_tone(app, 2)),
        (Some("CPUs"@), app.new_vm_cpu@, field_tone(app, 3)),
        (Some("Memory (e.g., 4GB or 4096MB)"@), app.new_vm_ram_mb@, field_tone(app, 4)),
        (Some("Disk Size (GB)"@), app.new_vm_disk_gb@, field_tone(app, 5)),
        (None, if app.new_vm_use_iso { "[x] Boot from ISO"@ } else { "[ ] Boot from ISO"@ }, field_tone(app, 6)),
        (Some("ISO Path"@), app.new_vm_iso_path@, if app.active_new_vm_input_idx == 7 && app.new_vm_use_iso {
            Tone::Active
        } else if !app.new_vm_use_iso {
            Tone::Tertiary
        } else {
            Tone::Plain
        }),
    ]
}

fn field(title: &str, text: &String, app: &App, idx: usize) -> (r: FormField)
    ensures
        field_view(r) == (Some(title@), text@, field_tone(*app, idx)),
{
    FormField {
        title: Some(crate::text::owned(title)),
        text: text.clone(),
        tone: if app.active_new_vm_input_idx == idx { Tone::Active } else { Tone::Plain },
    }
}

impl NewVmPopupWidget {
    /// The dialog's title.
    pub fn title() -> (r: String)
        ensures
            r@ == "Create New Virtual Machine"@,
    {
        "Create New Virtual Machine".to_string()
    }

    /// Where the dialog stands in a frame: the middle 80% across and down, as the layout
    /// solver places it (see `centered_rect`); it lies within the frame.
    pub fn popup_area(frame: Area) -> (r: Area)
        ensures
            within(r, frame),
    {
        centered_rect(80, 80, frame)
    }

    /// The fields of the dialog (see `form_fields`).
    pub fn fields(app: &App) -> (r: Vec<FormField>)
        ensures
            r@.map_values(|f: FormField| field_view(f)) == form_fields(*app),
    {
        let iso_tone = if app.active_new_vm_input_idx == 7 && app.new_vm_use_iso {
            Tone::Active
        } else if !app.new_vm_use_iso {
            Tone::Tertiary
        } else {
            Tone::Plain
        };
        let r = vec![
            field("VM Name", &app.new_vm_name, app, 0),
            field("Source Image Path (optional)", &app.new_vm_source_image_path, app, 1),
            field("Disk Image Path", &app.new_vm_disk_path, app, 2),
            field("CPUs", &app.new_vm_cpu, app, 3),
            field("Memory (e.g., 4GB or 4096MB)", &app.new_vm_ram_mb, app, 4),
            field("Disk Size (GB)", &app.new_vm_disk_gb, app, 5),
            FormField {
                title: None,
                text: if app.new_vm_use_iso { "[x] Boot from ISO".to_string() } else { "[ ] Boot from ISO".to_string() },
                tone: if app.active_new_vm_input_idx == 6 { Tone::Active } else { Tone::Plain },
            },
            FormField { title: Some("ISO Path".to_string()), text: app.new_vm_iso_path.clone(), tone: iso_tone },
        ];
        assert(r@.map_values(|f: FormField| field_view(f)) =~= form_fields(*app));
        r
    }

    /// The instructions at the foot of the dialog.
    pub fn instructions() -> (r: String)
        ensures
            r@ == "Press Tab to switch fields, Space to toggle checkbox, Enter to create, Esc to cancel."@,
    {
        "Press Tab to switch fields, Space to toggle checkbox, Enter to create, Esc to cancel.".to_string()
    }
}

} // verus!
