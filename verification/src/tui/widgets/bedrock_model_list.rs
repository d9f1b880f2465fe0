// The Bedrock view: the models that pass the chosen filter, in the chosen order, on the
// left; the selected model's particulars on the right.
use vstd::prelude::*;
use crate::tui::app::App;
use crate::bedrock_manager::{BedrockModelSummary, BedrockFilter, BedrockSorter};
use crate::tui::view_mode::list::{ListViewMode, is_view_order};
use crate::tui::widgets::{Span, Tone, Row, span_views, rows_view, labelled, note, joined, join_with};
use crate::text::{str_eq, push_all, string_views};

verus! {

broadcast use vstd::string::group_string_axioms;

/// The Bedrock view.
pub struct BedrockModelListWidget;

/// The filters a filter's name selects: one for "available_to_use" and one for
/// "available_to_request_access"; none for any other name.
pub open spec fn filters_named(name: Seq<char>) -> Seq<BedrockFilter> {
    if name == "available_to_use"@ {
        seq![BedrockFilter::AvailableToUse]
    } else if name == "available_to_request_access"@ {
        seq![BedrockFilter::AvailableToRequestAccess]
    } else {
        seq![]
    }
}

/// The sorters a sort's name selects: one for "alphabetical", none for any other name.
pub open spec fn sorters_named(name: Seq<char>) -> Seq<BedrockSorter> {
    if name == "alphabetical"@ {
        seq![BedrockSorter::Alphabetical]
    } else {
        seq![]
    }
}

/// The label of a model in the list: its name, or "Unknown Model".
pub open spec fn model_label(m: BedrockModelSummary) -> Seq<char> {
    match m.model_name {
        Some(n) => n@,
        None => "Unknown Model"@,
    }
}

/// A text, or "N/A" where there is none.
pub open spec fn or_na(t: Option<String>) -> Seq<char> {
    match t {
        Some(s) => s@,
        None => "N/A"@,
    }
}

/// A list as it is printed for debugging: its items between brackets, separated by
/// ", "; a missing list shows as empty.
pub open spec fn bracketed(items: Option<Vec<String>>) -> Seq<char> {
    "["@ + joined(match items {
        Some(v) => string_views(v@),
        None => Seq::empty(),
    }, ", "@) + "]"@
}

/// The particulars of a model, label and value: name, id, provider, customizations,
/// inference types, and whether it streams answers (false where unknown).
pub open spec fn model_details(m: BedrockModelSummary) -> Seq<(Seq<char>, Seq<char>)> {
    seq![
        ("Name: "@, or_na(m.model_name)),
        ("ID: "@, m.model_id@),
        ("Provider: "@, or_na(m.provider_name)),
        ("Customizations: "@, bracketed(m.customizations_supported)),
        ("Inference Types: "@, bracketed(m.inference_types_supported)),
        ("Response Streaming: "@, if m.response_streaming_supported == Some(true) { "true"@ } else { "false"@ }),
    ]
}

/// The rows of the details pane: without a selection a note that none is made; with a
/// selection past the shown models a note that there is nothing to show; otherwise the
/// particulars of the selected model, labels in the label tone.
pub open spec fn details_pane(selected: Option<usize>, shown: Seq<BedrockModelSummary>) -> Seq<((Seq<char>, Tone), Option<(Seq<char>, Tone)>)> {
    match selected {
        None => seq![(("No model selected"@, Tone::Secondary), None)],
        Some(i) => if i < shown.len() {
            model_details(shown[i as int]).map_values(|d: (Seq<char>, Seq<char>)| ((d.0, Tone::Label), Some((d.1, Tone::Plain))))
        } else {
            seq![(("No model selected or data unavailable."@, Tone::Secondary), None)]
        },
    }
}

/// The models of a list, each taken by value.
pub open spec fn derefs(v: Seq<&BedrockModelSummary>) -> Seq<BedrockModelSummary> {
    v.map_values(|m: &BedrockModelSummary| *m)
}

fn bracketed_text(items: &Option<Vec<String>>) -> (r: String)
    ensures
        r@ == bracketed(*items),
{
    let mut s = "[".to_string();
    match items {
        Some(v) => push_all(&mut s, join_with(v, ", ").as_str()),
        None => {
            assert(joined(Seq::<Seq<char>>::empty(), ", "@) == Seq::<char>::empty());
        },
    }
    push_all(&mut s, "]");
    s
}

fn text_or_na(t: &Option<String>) -> (r: String)
    ensures
        r@ == or_na(*t),
{
    match t {
        Some(s) => s.clone(),
        None => "N/A".to_string(),
    }
}

impl BedrockModelListWidget {
    /// The filters and sorters of the Bedrock view, as the chosen filter and sort name them.
    pub fn view_mode_for(filter: &str, sort: &str) -> (r: ListViewMode<BedrockModelSummary, BedrockFilter, BedrockSorter>)
        ensures
            r.filters@ == filters_named(filter@),
            r.sorters@ == sorters_named(sort@),
    {
        let mut mode = ListViewMode::new();
        if str_eq(filter, "available_to_use") {
            mode.add_filter(BedrockFilter::AvailableToUse);
        } else if str_eq(filter, "available_to_request_access") {
            mode.add_filter(BedrockFilter::AvailableToRequestAccess);
        }
        if str_eq(sort, "alphabetical") {
            mode.add_sorter(BedrockSorter::Alphabetical);
        }
        assert(mode.filters@ =~= filters_named(filter@));
        assert(mode.sorters@ =~= sorters_named(sort@));
        mode
    }

    /// Sets the view's filters and sorters from the chosen filter and sort; nothing else
    /// changes.
    pub fn configure_view(app: &mut App)
        ensures
            final(app).bedrock_model_view_mode.filters@ == filters_named(old(app).current_bedrock_filter@),
            final(app).bedrock_model_view_mode.sorters@ == sorters_named(old(app).current_bedrock_sort@),
            *final(app) == (App { bedrock_model_view_mode: final(app).bedrock_model_view_mode, ..*old(app) }),
    {
        let mode = BedrockModelListWidget::view_mode_for(app.current_bedrock_filter.as_str(), app.current_bedrock_sort.as_str());
        app.bedrock_model_view_mode = mode;
    }

    /// The models the view shows: those every filter keeps, in the sorters' order.
    pub fn shown_models<'a>(app: &'a App) -> (r: Vec<&'a BedrockModelSummary>)
        ensures
            exists|order: Seq<int>| {
                &&& is_view_order(app.bedrock_model_view_mode.filters@, app.bedrock_model_view_mode.sorters@, app.bedrock_models@, order)
                &&& order.len() == r@.len()
                &&& forall|p: int| 0 <= p < order.len() ==> r@[p] == app.bedrock_models@[#[trigger] order[p]]
            },
    {
        app.bedrock_model_view_mode.apply(app.bedrock_models.as_slice())
    }

    /// The title of the list pane: the view's name, then the filter and the sort in use.
    pub fn title(app: &App) -> (r: Vec<Span>)
        ensures
            span_views(r@) == seq![
                ("Bedrock Models "@, Tone::Title),
                ("Filter: "@ + app.current_bedrock_filter@, Tone::Secondary),
                (" | "@, Tone::Plain),
                ("Sort: "@ + app.current_bedrock_sort@, Tone::Secondary),
            ],
    {
        let mut filter = "Filter: ".to_string();
        push_all(&mut filter, app.current_bedrock_filter.as_str());
        let mut sort = "Sort: ".to_string();
        push_all(&mut sort, app.current_bedrock_sort.as_str());
        let r = vec![
            Span { text: "Bedrock Models ".to_string(), tone: Tone::Title },
            Span { text: filter, tone: Tone::Secondary },
            Span { text: " | ".to_string(), tone: Tone::Plain },
            Span { text: sort, tone: Tone::Secondary },
        ];
        assert(span_views(r@) =~= seq![
            ("Bedrock Models "@, Tone::Title),
            ("Filter: "@ + app.current_bedrock_filter@, Tone::Secondary),
            (" | "@, Tone::Plain),
            ("Sort: "@ + app.current_bedrock_sort@, Tone::Secondary),
        ]);
        r
    }

    /// The labels of the shown models, in order (see `model_label`).
    pub fn item_labels(shown: &Vec<&BedrockModelSummary>) -> (r: Vec<String>)
        ensures
            string_views(r@) == derefs(shown@).map_values(|m: BedrockModelSummary| model_label(m)),
    {
        let mut out: Vec<String> = Vec::new();
        let mut i: usize = 0;
        while i < shown.len()
            invariant
                i <= shown@.len(),
                string_views(out@) == derefs(shown@.take(i as int)).map_values(|m: BedrockModelSummary| model_label(m)),
            decreases shown@.len() - i,
        {
            let label = match &shown[i].model_name {
                Some(n) => n.clone(),
                None => "Unknown Model".to_string(),
            };
            let ghost before = string_views(out@);
            out.push(label);
            proof {
                assert(string_views(out@) =~= before.push(model_label(*shown@[i as int])));
                assert(derefs(shown@.take(i + 1)).map_values(|m: BedrockModelSummary| model_label(m)) =~= derefs(
                    shown@.take(i as int),
                ).map_values(|m: BedrockModelSummary| model_label(m)).push(model_label(*shown@[i as int])));
            }
            i = i + 1;
        }
        assert(shown@.take(i as int) =~= shown@);
        out
    }

    /// The rows of the details pane for the selection among the shown models (see
    /// `details_pane`).
    pub fn details(app: &App, shown: &Vec<&BedrockModelSummary>) -> (r: Vec<Row>)
        ensures
            rows_view(r@) == details_pane(app.bedrock_model_list_state.selected, derefs(shown@)),
    {
        match app.bedrock_model_list_state.selected {
            None => {
                let r = vec![note("No model selected", Tone::Secondary)];
                assert(rows_view(r@) =~= details_pane(app.bedrock_model_list_state.selected, derefs(shown@)));
                r
            },
            Some(i) => {
                if i < shown.len() {
                    let m: &BedrockModelSummary = shown[i];
                    let streaming = match m.response_streaming_supported {
                        Some(b) => b,
                        None => false,
                    };
                    let r = vec![
                        labelled("Name: ", Tone::Label, text_or_na(&m.model_name), Tone::Plain),
                        labelled("ID: ", Tone::Label, m.model_id.clone(), Tone::Plain),
                        labelled("Provider: ", Tone::Label, text_or_na(&m.provider_name), Tone::Plain),
                        labelled("Customizations: ", Tone::Label, bracketed_text(&m.customizations_supported), Tone::Plain),
                        labelled("Inference Types: ", Tone::Label, bracketed_text(&m.inference_types_supported), Tone::Plain),
                        labelled("Response Streaming: ", Tone::Label, if streaming { "true".to_string() } else { "false".to_string() }, Tone::Plain),
                    ];
                    assert(derefs(shown@)[i as int] == *m);
                    assert(rows_view(r@) =~= details_pane(app.bedrock_model_list_state.selected, derefs(shown@)));
                    r
                } else {
                    let r = vec![note("No model selected or data unavailable.", Tone::Secondary)];
                    assert(rows_view(r@) =~= details_pane(app.bedrock_model_list_state.selected, derefs(shown@)));
                    r
                }
            },
        }
    }
}

} // verus!
