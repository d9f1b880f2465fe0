// What the interface's widgets show, decided apart from drawing: the text of each line
// and the tone it is drawn in. Drawing with the theme's styles is the runtime's part.
use vstd::prelude::*;

pub mod about_modal;
pub mod bedrock_model_list;
pub mod chat;
pub mod input_bar;
pub mod keybindings_modal;
pub mod layout;
pub mod logs;
pub mod menu;
pub mod new_vm_popup;
pub mod ollama_model_list;
pub mod status_bar;
pub mod vm_list;

verus! {

/// The tone a piece of text is drawn in; the theme gives each tone its style.
#[derive(Clone, Copy, Debug, PartialEq, Eq, Structural)]
pub enum Tone {
    Plain,
    Primary,
    Secondary,
    Tertiary,
    Label,
    Title,
    Active,
    UserSender,
    ModelSender,
    Timestamp,
    Thought,
    UserText,
    ModelText,
    ChatInfo,
    PromptLabel,
    PromptTag,
    PromptText,
    Success,
    Failure,
    LevelError,
    LevelWarn,
    LevelInfo,
    LevelDebug,
    LevelTrace,
    LogTarget,
    Help,
    ModeNormal,
    ModeEditing,
    ModeWizard,
    ModeConfirm,
}

/// A piece of text and its tone.
#[derive(Debug, Clone)]
pub struct Span {
    pub text: String,
    pub tone: Tone,
}

/// A labelled row: a label and, where there is one, its value.
pub type Row = (Span, Option<Span>);

/// The view of a span: its text and tone.
pub open spec fn span_view(s: Span) -> (Seq<char>, Tone) {
    (s.text@, s.tone)
}

/// The views of labelled rows.
pub open spec fn rows_view(v: Seq<Row>) -> Seq<((Seq<char>, Tone), Option<(Seq<char>, Tone)>)> {
    v.map_values(|r: Row| (span_view(r.0), match r.1 {
        Some(s) => Some(span_view(s)),
        None => None,
    }))
}

/// A row of a label and a value.
pub fn labelled(label: &str, label_tone: Tone, value: String, value_tone: Tone) -> (r: Row)
    ensures
        span_view(r.0) == (label@, label_tone),
        r.1 matches Some(v) && span_view(v) == (value@, value_tone),
{
    (Span { text: crate::text::owned(label), tone: label_tone }, Some(Span { text: value, tone: value_tone }))
}

/// A row of a note alone.
pub fn note(text: &str, tone: Tone) -> (r: Row)
    ensures
        span_view(r.0) == (text@, tone),
        r.1 is None,
{
    (Span { text: crate::text::owned(text), tone }, None)
}

/// Texts joined with `sep` between them.
pub open spec fn joined(items: Seq<Seq<char>>, sep: Seq<char>) -> Seq<char>
    decreases items.len(),
{
    if items.len() == 0 {
        Seq::empty()
    } else if items.len() == 1 {
        items[0]
    } else {
        joined(items.drop_last(), sep) + sep + items.last()
    }
}

/// Texts joined with `sep` between them (see `joined`).
pub fn join_with(items: &Vec<String>, sep: &str) -> (r: String)
    ensures
        r@ == joined(crate::text::string_views(items@), sep@),
{
    let ghost ls = crate::text::string_views(items@);
    let mut out = String::new();
    let mut k: usize = 0;
    while k < items.len()
        invariant
            ls == crate::text::string_views(items@),
            k <= items@.len(),
            out@ == joined(ls.take(k as int), sep@),
        decreases items@.len() - k,
    {
        if k > 0 {
            crate::text::push_all(&mut out, sep);
        }
        crate::text::push_all(&mut out, items[k].as_str());
        proof {
            let t = ls.take(k + 1);
            assert(t.drop_last() =~= ls.take(k as int));
            assert(t.last() == items@[k as int]@);
            if k == 0 {
                assert(t.len() == 1);
            }
        }
        k = k + 1;
    }
    assert(ls.take(k as int) =~= ls);
    out
}

/// The views of spans: their texts and tones.
pub open spec fn span_views(v: Seq<Span>) -> Seq<(Seq<char>, Tone)> {
    v.map_values(|s: Span| (s.text@, s.tone))
}

/// Lines all in one tone.
pub open spec fn toned(lines: Seq<Seq<char>>, tone: Tone) -> Seq<(Seq<char>, Tone)> {
    lines.map_values(|l: Seq<char>| (l, tone))
}

/// `n` spaces.
pub open spec fn spaces(n: nat) -> Seq<char> {
    Seq::new(n, |i: int| ' ')
}

/// Appends spans of `lines`, all in one tone.
pub fn push_toned(out: &mut Vec<Span>, lines: Vec<String>, tone: Tone)
    ensures
        span_views(final(out)@) == span_views(old(out)@) + toned(crate::text::string_views(lines@), tone),
{
    let ghost start = span_views(out@);
    let ghost ls = crate::text::string_views(lines@);
    let mut lines = lines;
    let n = lines.len();
    let mut rest: Vec<String> = Vec::new();
    let mut i: usize = 0;
    proof {
        assert(toned(ls.take(0), tone) =~= Seq::<(Seq<char>, Tone)>::empty());
    }
    while i < n
        invariant
            n == lines@.len(),
            ls == crate::text::string_views(lines@),
            i <= n,
            span_views(out@) == start + toned(ls.take(i as int), tone),
        decreases n - i,
    {
        let text = lines[i].clone();
        let ghost before = span_views(out@);
        out.push(Span { text, tone });
        proof {
            assert(span_views(out@) =~= before.push((ls[i as int], tone)));
            assert(toned(ls.take(i + 1), tone) =~= toned(ls.take(i as int), tone).push((ls[i as int], tone)));
        }
        i = i + 1;
    }
    proof {
        assert(ls.take(n as int) =~= ls);
    }
}

/// A string of `n` spaces.
pub fn space_string(n: usize) -> (r: String)
    ensures
        r@ == spaces(n as nat),
{
    let mut s = String::new();
    let mut i: usize = 0;
    while i < n
        invariant
            i <= n,
            s@ == spaces(i as nat),
        decreases n - i,
    {
        crate::text::push_char(&mut s, ' ');
        i = i + 1;
        assert(s@ =~= spaces(i as nat));
    }
    s
}

} // verus!
