// The Ollama view: the installed models on the left; the selected model's particulars and
// the system prompt in effect for it on the right.
use vstd::prelude::*;
use crate::tui::app::{App, active_system_prompt};
use crate::ollama_manager::LocalModel;
use crate::tui::widgets::{Span, Tone, Row, rows_view, labelled, note};
use crate::wrap::{filled_lines, fill_lines};
use crate::text::{u64_to_string, decimal, string_views};

verus! {

broadcast use vstd::string::group_string_axioms;

/// The Ollama view.
pub struct OllamaModelListWidget;

/// The view of a row of a note alone.
pub open spec fn note_row(t: Seq<char>, tone: Tone) -> ((Seq<char>, Tone), Option<(Seq<char>, Tone)>) {
    ((t, tone), None)
}

/// The view of a row of a label and a value.
pub open spec fn pair_row(l: Seq<char>, lt: Tone, v: Seq<char>, vt: Tone) -> ((Seq<char>, Tone), Option<(Seq<char>, Tone)>) {
    ((l, lt), Some((v, vt)))
}

/// The rows of the details pane of a pane `width` columns wide: without a selection a
/// note that none is made; with a selection past the list a note that there is nothing to
/// show; otherwise the model's name, modification time and size, a blank row, the system
/// prompt's heading with a tag that says whether the prompt is the model's own edited
/// one or the one in effect by default, and the prompt in effect filled to the width less
/// two columns.
pub open spec fn details_pane(app: App, width: u16) -> Seq<((Seq<char>, Tone), Option<(Seq<char>, Tone)>)> {
    match app.ollama_model_list_state.selected {
        None => seq![note_row("No model selected"@, Tone::Secondary)],
        Some(i) => if i < app.ollama_models@.len() {
            let m = app.ollama_models@[i as int];
            let own = app.editable_ollama_model_prompts@.contains_key(m.name@);
            let w = if width >= 2 { (width - 2) as nat } else { 0nat };
            seq![
                pair_row("Name: "@, Tone::Label, m.name@, Tone::Plain),
                pair_row("Modified: "@, Tone::Label, m.modified_at@, Tone::Plain),
                pair_row("Size: "@, Tone::Label, decimal(m.size as nat), Tone::Plain),
                note_row(Seq::empty(), Tone::Plain),
                pair_row("System Prompt "@, Tone::PromptLabel, if own { "(Model specific)"@ } else { "(Using default)"@ }, Tone::PromptTag),
            ] + filled_lines(active_system_prompt(&app, m.name@), w).map_values(|l: Seq<char>| note_row(l, Tone::PromptText))
        } else {
            seq![note_row("No model selected or data unavailable."@, Tone::Secondary)]
        },
    }
}

fn push_notes(out: &mut Vec<Row>, lines: Vec<String>, tone: Tone)
    ensures
        rows_view(final(out)@) == rows_view(old(out)@) + string_views(lines@).map_values(|l: Seq<char>| note_row(l, tone)),
{
    let ghost start = rows_view(out@);
    let ghost ls = string_views(lines@);
    let mut i: usize = 0;
    while i < lines.len()
        invariant
            ls == string_views(lines@),
            i <= lines@.len(),
            rows_view(out@) == start + ls.take(i as int).map_values(|l: Seq<char>| note_row(l, tone)),
        decreases lines@.len() - i,
    {
        let ghost before = rows_view(out@);
        out.push(note(lines[i].as_str(), tone));
        proof {
            assert(rows_view(out@) =~= before.push(note_row(ls[i as int], tone)));
            assert(ls.take(i + 1).map_values(|l: Seq<char>| note_row(l, tone)) =~= ls.take(i as int).map_values(
                |l: Seq<char>| note_row(l, tone),
            ).push(note_row(ls[i as int], tone)));
        }
        i = i + 1;
    }
    assert(ls.take(i as int) =~= ls);
}

impl OllamaModelListWidget {
    /// The title of the list pane.
    pub fn title() -> (r: Span)
        ensures
            r.text@ == "Ollama Models"@,
            r.tone == Tone::Title,
    {
        Span { text: "Ollama Models".to_string(), tone: Tone::Title }
    }

    /// The names of the installed models, in order.
    pub fn item_labels(app: &App) -> (r: Vec<String>)
        ensures
            string_views(r@) == app.ollama_models@.map_values(|m: LocalModel| m.name@),
    {
        let mut out: Vec<String> = Vec::new();
        let mut i: usize = 0;
        while i < app.ollama_models.len()
            invariant
                i <= app.ollama_models@.len(),
                string_views(out@) == app.ollama_models@.take(i as int).map_values(|m: LocalModel| m.name@),
            decreases app.ollama_models@.len() - i,
        {
            let ghost before = string_views(out@);
            out.push(app.ollama_models[i].name.clone());
            proof {
                assert(string_views(out@) =~= before.push(app.ollama_models@[i as int].name@));
                assert(app.ollama_models@.take(i + 1).map_values(|m: LocalModel| m.name@) =~= app.ollama_models@.take(
                    i as int,
                ).map_values(|m: LocalModel| m.name@).push(app.ollama_models@[i as int].name@));
            }
            i = i + 1;
        }
        assert(app.ollama_models@.take(i as int) =~= app.ollama_models@);
        out
    }

    /// The rows of the details pane in a pane `width` columns wide (see `details_pane`).
    pub fn details(app: &App, width: u16) -> (r: Vec<Row>)
        ensures
            rows_view(r@) == details_pane(*app, width),
    {
        match app.ollama_model_list_state.selected {
            None => {
                let r = vec![note("No model selected", Tone::Secondary)];
                assert(rows_view(r@) =~= details_pane(*app, width));
                r
            },
            Some(i) => {
                if i < app.ollama_models.len() {
                    let m = &app.ollama_models[i];
                    let own = app.editable_ollama_model_prompts.contains_key(m.name.as_str());
                    let w: usize = if width >= 2 { (width - 2) as usize } else { 0 };
                    let mut r = vec![
                        labelled("Name: ", Tone::Label, m.name.clone(), Tone::Plain),
                        labelled("Modified: ", Tone::Label, m.modified_at.clone(), Tone::Plain),
                        labelled("Size: ", Tone::Label, u64_to_string(m.size), Tone::Plain),
                        (Span { text: String::new(), tone: Tone::Plain }, None),
                        labelled(
                            "System Prompt ",
                            Tone::PromptLabel,
                            if own { "(Model specific)".to_string() } else { "(Using default)".to_string() },
                            Tone::PromptTag,
                        ),
                    ];
                    let ghost head = rows_view(r@);
                    let prompt = app.get_active_system_prompt(m.name.as_str());
                    push_notes(&mut r, fill_lines(prompt.as_str(), w), Tone::PromptText);
                    proof {
                        let mm = app.ollama_models@[i as int];
                        assert(head =~= seq![
                            pair_row("Name: "@, Tone::Label, mm.name@, Tone::Plain),
                            pair_row("Modified: "@, Tone::Label, mm.modified_at@, Tone::Plain),
                            pair_row("Size: "@, Tone::Label, decimal(mm.size as nat), Tone::Plain),
                            note_row(Seq::empty(), Tone::Plain),
                            pair_row("System Prompt "@, Tone::PromptLabel, if own { "(Model specific)"@ } else { "(Using default)"@ }, Tone::PromptTag),
                        ]);
                        assert(rows_view(r@) =~= details_pane(*app, width));
                    }
                    r
                } else {
                    let r = vec![note("No model selected or data unavailable.", Tone::Secondary)];
                    assert(rows_view(r@) =~= details_pane(*app, width));
                    r
                }
            },
        }
    }
}

} // verus!
