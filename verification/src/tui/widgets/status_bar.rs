// The status bar: on the left the view, the input mode and how many machines and models
// there are; on the right the hypervisor's connection (in the machine list) and the time.
use vstd::prelude::*;
use crate::tui::app::{App, AppView, InputMode};
use crate::tui::widgets::{Span, Tone, span_views};
use crate::clock::{is_clock_time, local_clock_time};
use crate::text::{push_all, push_decimal, decimal};

verus! {

broadcast use vstd::string::group_string_axioms;

/// The status bar.
pub struct StatusBarWidget;

/// The name of a view as the status bar shows it.
pub open spec fn view_name(v: AppView) -> Seq<char> {
    match v {
        AppView::VmList => "VmList"@,
        AppView::OllamaModelList => "OllamaModelList"@,
        AppView::BedrockModelList => "BedrockModelList"@,
        AppView::Chat => "Chat"@,
        AppView::Logs => "Logs"@,
    }
}

/// The name of an input mode as the status bar shows it.
pub open spec fn mode_name(m: InputMode) -> Seq<char> {
    match m {
        InputMode::Normal => "Normal"@,
        InputMode::Editing => "Editing"@,
        InputMode::VmWizard => "VmWizard"@,
        InputMode::ConfirmingDestroy => "ConfirmingDestroy"@,
    }
}

/// The tone of an input mode's name: one per mode.
pub open spec fn mode_tone(m: InputMode) -> Tone {
    match m {
        InputMode::Normal => Tone::ModeNormal,
        InputMode::Editing => Tone::ModeEditing,
        InputMode::VmWizard => Tone::ModeWizard,
        InputMode::ConfirmingDestroy => Tone::ModeConfirm,
    }
}

/// The left part: the application's name with its first letter lit while the menu is
/// open, the view, the input mode, and the numbers of machines and of Ollama models.
pub open spec fn left_part(app: App) -> Seq<(Seq<char>, Tone)> {
    seq![
        ("H"@, if app.show_menu { Tone::Active } else { Tone::Plain }),
        ("ydravisor | "@, Tone::Plain),
        ("View: "@, Tone::Plain),
        (view_name(app.active_view), Tone::Title),
        (" | Input: "@, Tone::Plain),
        (mode_name(app.input_mode), mode_tone(app.input_mode)),
        (" | VMs: "@ + decimal(app.vms@.len()) + " "@, Tone::Plain),
        ("| Ollama: "@ + decimal(app.ollama_models@.len()) + " "@, Tone::Plain),
    ]
}

/// The right part at clock time `time`: in the machine list whether the hypervisor is
/// connected, then the time.
pub open spec fn right_part(app: App, time: Seq<char>) -> Seq<(Seq<char>, Tone)> {
    (if app.active_view == AppView::VmList {
        seq![
            ("Libvirt: "@, Tone::Plain),
            if app.libvirt_connected { ("Connected"@, Tone::Success) } else { ("Disconnected"@, Tone::Failure) },
            (" | "@, Tone::Plain),
        ]
    } else {
        Seq::empty()
    }) + seq![(time, Tone::Plain)]
}

fn view_text(v: AppView) -> (r: String)
    ensures
        r@ == view_name(v),
{
    match v {
        AppView::VmList => "VmList".to_string(),
        AppView::OllamaModelList => "OllamaModelList".to_string(),
        AppView::BedrockModelList => "BedrockModelList".to_string(),
        AppView::Chat => "Chat".to_string(),
        AppView::Logs => "Logs".to_string(),
    }
}

fn mode_text(m: InputMode) -> (r: (String, Tone))
    ensures
        r.0@ == mode_name(m),
        r.1 == mode_tone(m),
{
    match m {
        InputMode::Normal => ("Normal".to_string(), Tone::ModeNormal),
        InputMode::Editing => ("Editing".to_string(), Tone::ModeEditing),
        InputMode::VmWizard => ("VmWizard".to_string(), Tone::ModeWizard),
        InputMode::ConfirmingDestroy => ("ConfirmingDestroy".to_string(), Tone::ModeConfirm),
    }
}

impl StatusBarWidget {
    /// The spans of the left part (see `left_part`).
    pub fn left_spans(app: &App) -> (r: Vec<Span>)
        ensures
            span_views(r@) == left_part(*app),
    {
        let mut vms = " | VMs: ".to_string();
        push_decimal(&mut vms, app.vms.len() as u64);
        push_all(&mut vms, " ");
        let mut models = "| Ollama: ".to_string();
        push_decimal(&mut models, app.ollama_models.len() as u64);
        push_all(&mut models, " ");
        let (mode, mode_tone) = mode_text(app.input_mode);
        let r = vec![
            Span { text: "H".to_string(), tone: if app.show_menu { Tone::Active } else { Tone::Plain } },
            Span { text: "ydravisor | ".to_string(), tone: Tone::Plain },
            Span { text: "View: ".to_string(), tone: Tone::Plain },
            Span { text: view_text(app.active_view), tone: Tone::Title },
            Span { text: " | Input: ".to_string(), tone: Tone::Plain },
            Span { text: mode, tone: mode_tone },
            Span { text: vms, tone: Tone::Plain },
            Span { text: models, tone: Tone::Plain },
        ];
        assert(span_views(r@) =~= left_part(*app));
        r
    }

    /// The spans of the right part at a given clock time (see `right_part`).
    pub fn right_spans_at(app: &App, time: String) -> (r: Vec<Span>)
        ensures
            span_views(r@) == right_part(*app, time@),
    {
        let mut out: Vec<Span> = Vec::new();
        if app.active_view == AppView::VmList {
            out.push(Span { text: "Libvirt: ".to_string(), tone: Tone::Plain });
            if app.libvirt_connected {
                out.push(Span { text: "Connected".to_string(), tone: Tone::Success });
            } else {
                out.push(Span { text: "Disconnected".to_string(), tone: Tone::Failure });
            }
            out.push(Span { text: " | ".to_string(), tone: Tone::Plain });
        }
        out.push(Span { text: time, tone: Tone::Plain });
        assert(span_views(out@) =~= right_part(*app, time@));
        out
    }

    /// The spans of the right part now: the local clock time is read, and the part is that
    /// of `right_part` at some clock time.
    pub fn right_spans(app: &App) -> (r: Vec<Span>)
        ensures
            exists|t: Seq<char>| is_clock_time(t) && span_views(r@) == right_part(*app, t),
    {
        let time = local_clock_time();
        let ghost t = time@;
        let r = StatusBarWidget::right_spans_at(app, time);
        assert(is_clock_time(t) && span_views(r@) == right_part(*app, t));
        r
    }
}

} // verus!
