// The input bar: what it shows of the text being typed, where it is scrolled, and how
// tall it is.
use vstd::prelude::*;
use crate::tui::app::{App, AppView, InputMode};
use crate::tui::widgets::{Span, Tone};
use crate::wrap::{wrapped_lines, wrap_text};
use crate::text::{chars_of, string_views, string_from_chars};

verus! {

broadcast use vstd::string::group_string_axioms;

/// The input bar.
pub struct InputBarWidget;

/// The character that marks the cursor in the input bar.
pub const CURSOR_CHAR: char = '|';

/// Whether the input bar is being typed in: chat input or a system prompt.
pub open spec fn input_editing(a: App) -> bool {
    a.input_mode == InputMode::Editing || a.editing_system_prompt_for_model is Some
}

/// The text the input bar wraps: while typing, the input with the cursor mark at the
/// cursor (or at the end, if the cursor is past it); otherwise the input.
pub open spec fn shown_input(a: App) -> Seq<char> {
    if input_editing(a) {
        let len = a.current_input@.len();
        let p = if a.input_cursor_char_idx <= len { a.input_cursor_char_idx as int } else { len as int };
        a.current_input@.insert(p, CURSOR_CHAR)
    } else {
        a.current_input@
    }
}

/// The first of `lines`, from `i` on, that holds `c`; 0 when none does.
pub open spec fn first_line_with(lines: Seq<Seq<char>>, c: char, i: int) -> int
    decreases lines.len() - i,
{
    if i < 0 || i >= lines.len() {
        0
    } else if lines[i].contains(c) {
        i
    } else {
        first_line_with(lines, c, i + 1)
    }
}

/// The scroll that shows line `line` in a bar `height` lines tall scrolled to `scroll`:
/// unchanged if the line is in view, else the line at the top (above the view) or at the
/// bottom (below it).
pub open spec fn scroll_to_show(scroll: u16, line: int, height: u16) -> u16 {
    let bottom = scroll + (height - 1);
    if line < scroll {
        line as u16
    } else if line > bottom {
        (line - (height - 1)) as u16
    } else {
        scroll
    }
}

/// The width of the bar's text area for a bar `w` columns wide (borders off, at least 1).
pub open spec fn text_width(w: u16) -> u16 {
    if w >= 3 { (w - 2) as u16 } else { 1u16 }
}

/// Whether `b` is `a` after laying the input bar out in an area `w` by `h`, with `lines`
/// the lines it shows: it records the text width and height, wraps the shown text, keeps
/// the cursor's line in view if asked to (then no longer asked), and clamps the scroll to
/// the last line.
pub open spec fn laid_out(a: App, b: App, w: u16, h: u16, lines: Seq<Seq<char>>) -> bool {
    let tw = text_width(w);
    let th = text_width(h);
    let follow = a.input_bar_cursor_needs_to_be_visible && input_editing(a);
    let n = lines.len();
    let s1 = if follow {
        let c0 = first_line_with(lines, CURSOR_CHAR, 0);
        let c = if n > 0 && c0 > n - 1 { n - 1 } else { c0 };
        scroll_to_show(a.input_bar_scroll, c, th)
    } else {
        a.input_bar_scroll
    };
    let max_scroll = if (n as u16) >= th { ((n as u16) - th) as u16 } else { 0u16 };
    &&& lines == wrapped_lines(shown_input(a), tw as nat)
    &&& b == with_layout(a, tw, th, n as usize, follow, if s1 <= max_scroll { s1 } else { max_scroll })
}

/// The application with the input bar's layout stored: the text area's width and height,
/// the number of wrapped lines and the scroll offset; following the cursor is done once
/// it has been followed.
#[verifier::opaque]
pub open spec fn with_layout(a: App, tw: u16, th: u16, n: usize, follow: bool, scroll: u16) -> App {
    App {
        last_input_text_area_width: tw,
        input_bar_visible_height: th,
        input_bar_last_wrapped_line_count: n,
        input_bar_cursor_needs_to_be_visible: if follow { false } else { a.input_bar_cursor_needs_to_be_visible },
        input_bar_scroll: scroll,
        ..a
    }
}

fn line_has(s: &String, c: char) -> (r: bool)
    ensures
        r == s@.contains(c),
{
    let v = chars_of(s.as_str());
    let mut i: usize = 0;
    while i < v.len()
        invariant
            v@ == s@,
            i <= v@.len(),
            forall|k: int| 0 <= k < i ==> v@[k] != c,
        decreases v@.len() - i,
    {
        if v[i] == c {
            return true;
        }
        i = i + 1;
    }
    false
}

fn cursor_line(lines: &Vec<String>) -> (r: usize)
    ensures
        r as int == first_line_with(string_views(lines@), CURSOR_CHAR, 0),
{
    let ghost ls = string_views(lines@);
    let mut i: usize = 0;
    while i < lines.len()
        invariant
            ls == string_views(lines@),
            i <= lines@.len(),
            first_line_with(ls, CURSOR_CHAR, 0) == first_line_with(ls, CURSOR_CHAR, i as int),
        decreases lines@.len() - i,
    {
        assert(ls[i as int] == lines@[i as int]@);
        if line_has(&lines[i], CURSOR_CHAR) {
            return i;
        }
        i = i + 1;
    }
    0
}

fn store_layout(app: &mut App, tw: u16, th: u16, n: usize, follow: bool, scroll: u16)
    ensures
        *final(app) == with_layout(*old(app), tw, th, n, follow, scroll),
{
    proof {
        reveal(with_layout);
    }
    app.last_input_text_area_width = tw;
    app.input_bar_visible_height = th;
    app.input_bar_last_wrapped_line_count = n;
    if follow {
        app.input_bar_cursor_needs_to_be_visible = false;
    }
    app.input_bar_scroll = scroll;
}

impl InputBarWidget {
    /// The text the input bar wraps (see `shown_input`).
    pub fn shown_text(app: &App) -> (r: String)
        ensures
            r@ == shown_input(*app),
    {
        if app.input_mode == InputMode::Editing || app.editing_system_prompt_for_model.is_some() {
            let mut chars = chars_of(app.current_input.as_str());
            let p = if app.input_cursor_char_idx <= chars.len() { app.input_cursor_char_idx } else { chars.len() };
            chars.insert(p, CURSOR_CHAR);
            string_from_chars(&chars)
        } else {
            app.current_input.clone()
        }
    }

    /// Lays the input bar out in an area `width` by `height` and gives the lines it shows
    /// (see `laid_out`).
    pub fn layout(app: &mut App, width: u16, height: u16) -> (lines: Vec<String>)
        ensures
            laid_out(*old(app), *final(app), width, height, string_views(lines@)),
    {
        let tw: u16 = if width >= 3 { width - 2 } else { 1 };
        let th: u16 = if height >= 3 { height - 2 } else { 1 };
        let follow = app.input_bar_cursor_needs_to_be_visible
            && (app.input_mode == InputMode::Editing || app.editing_system_prompt_for_model.is_some());
        let text = InputBarWidget::shown_text(app);
        let lines = wrap_text(text.as_str(), tw as usize);
        let n = lines.len();
        let mut scroll = app.input_bar_scroll;
        if follow {
            let c0 = cursor_line(&lines);
            let c = if n > 0 && c0 > n - 1 { n - 1 } else { c0 };
            let top = scroll as usize;
            let bottom = top + (th as usize - 1);
            if c < top {
                scroll = c as u16;
            } else if c > bottom {
                scroll = (c - (th as usize - 1)) as u16;
            }
        }
        let nn = n as u16;
        let max_scroll = if nn >= th { nn - th } else { 0 };
        let kept = if scroll <= max_scroll { scroll } else { max_scroll };
        store_layout(app, tw, th, n, follow, kept);
        lines
    }

    /// How tall the input bar is in a frame `width` wide: 3 lines when there is nothing
    /// being typed, else its wrapped lines (at least one) and two borders, at most 10.
    pub fn calculate_height(app: &App, width: u16) -> (r: u16)
        ensures
            r == (if !input_editing(*app) || app.current_input@.len() == 0 {
                3u16
            } else {
                let n = wrapped_lines(app.current_input@, text_width(width) as nat).len() as u16;
                let lines = if n >= 1 { n } else { 1u16 };
                let total = if lines <= u16::MAX - 2 { (lines + 2) as u16 } else { u16::MAX };
                if total <= 10 { total } else { 10u16 }
            }),
    {
        let tw: u16 = if width >= 3 { width - 2 } else { 1 };
        let editing = app.editing_system_prompt_for_model.is_some() || app.input_mode == InputMode::Editing;
        if !editing || app.current_input.as_str().is_empty() {
            return 3;
        }
        let n = wrap_text(app.current_input.as_str(), tw as usize).len() as u16;
        let lines = if n >= 1 { n } else { 1 };
        let total = lines.saturating_add(2);
        if total <= 10 { total } else { 10 }
    }

    /// The bar's title: whose system prompt is edited, chat input, or plain input.
    pub fn title(app: &App) -> (r: Vec<Span>)
        ensures
            match app.editing_system_prompt_for_model {
                Some(name) => r@.len() == 3 && r@[0].text@ == "Editing System Prompt for "@
                    && r@[0].tone == Tone::Title && r@[1].text == name && r@[1].tone == Tone::Active
                    && r@[2].text@ == ":"@ && r@[2].tone == Tone::Title,
                None => r@.len() == 1 && r@[0].tone == Tone::Title && r@[0].text@ == (if app.active_view
                    == AppView::Chat && app.active_chat is Some && input_editing(*app) {
                    "Chat Input (Esc: Normal Mode):"@
                } else {
                    "Input:"@
                }),
            },
    {
        let mut out: Vec<Span> = Vec::new();
        match &app.editing_system_prompt_for_model {
            Some(name) => {
                out.push(Span { text: "Editing System Prompt for ".to_string(), tone: Tone::Title });
                out.push(Span { text: name.clone(), tone: Tone::Active });
                out.push(Span { text: ":".to_string(), tone: Tone::Title });
            },
            None => {
                let editing = app.input_mode == InputMode::Editing;
                let text = if app.active_view == AppView::Chat && app.active_chat.is_some() && editing {
                    "Chat Input (Esc: Normal Mode):".to_string()
                } else {
                    "Input:".to_string()
                };
                out.push(Span { text, tone: Tone::Title });
            },
        }
        out
    }
}

} // verus!
