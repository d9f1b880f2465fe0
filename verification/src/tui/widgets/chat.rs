// The chat view: the chat's particulars on the left, its messages on the right.
use vstd::prelude::*;
use crate::tui::app::{App, ChatMessage, ChatSession};
use crate::tui::widgets::{Span, Tone, span_views, toned, spaces, push_toned, space_string};
use crate::wrap::{filled_lines, fill_lines};
use crate::text::{push_all, push_decimal, decimal, str_eq, chars_of};

verus! {

broadcast use vstd::string::group_string_axioms;

/// The chat view.
pub struct ChatWidget;

/// The lines of one message in a message pane `area_width` columns wide: the sender
/// (with a colon), the timestamp pushed to the right, a blank line and the wrapped
/// reasoning if there is any, a blank line and the wrapped content (with "..." after an
/// answer still streaming) if there is content, and a closing blank line. The blank line
/// before the content is left out when the reasoning is present but empty.
pub open spec fn message_block(m: ChatMessage, streaming_tail: bool, area_width: nat) -> Seq<(Seq<char>, Tone)> {
    let user = m.sender@ == "user"@;
    let blank = (Seq::<char>::empty(), Tone::Plain);
    let eff = if area_width >= 3 { area_width - 3 } else { 0 };
    let ts_len = m.timestamp@.len();
    let pad = if ts_len < eff { (eff - ts_len) as nat } else { 0nat };
    let width = if area_width >= 2 { (area_width - 2) as nat } else { 0nat };
    let head = seq![
        (m.sender@ + ": "@, if user { Tone::UserSender } else { Tone::ModelSender }),
        (spaces(pad) + m.timestamp@, Tone::Timestamp),
    ];
    let thought = match m.thought {
        Some(t) => if t@.len() > 0 { seq![blank] + toned(filled_lines(t@, width), Tone::Thought) } else { Seq::empty() },
        None => Seq::empty(),
    };
    let content = m.content@ + (if streaming_tail && !user { "..."@ } else { Seq::<char>::empty() });
    let body = if content.len() > 0 {
        let gap = match m.thought {
            Some(t) => if t@.len() > 0 { seq![blank] } else { Seq::empty() },
            None => seq![blank],
        };
        gap + toned(filled_lines(content, width), if user { Tone::UserText } else { Tone::ModelText })
    } else {
        Seq::empty()
    };
    head + thought + body + seq![blank]
}

impl ChatWidget {
    /// The lines of one message (see `message_block`); `streaming_tail` says whether it is
    /// the last message of a chat still streaming.
    pub fn message_lines(msg: &ChatMessage, streaming_tail: bool, area_width: u16) -> (r: Vec<Span>)
        ensures
            span_views(r@) == message_block(*msg, streaming_tail, area_width as nat),
    {
        let user = str_eq(msg.sender.as_str(), "user");
        let area = area_width as usize;
        let eff = if area >= 3 { area - 3 } else { 0 };
        let ts_len = chars_of(msg.timestamp.as_str()).len();
        let pad = if ts_len < eff { eff - ts_len } else { 0 };
        let width = if area >= 2 { area - 2 } else { 0 };
        let mut out: Vec<Span> = Vec::new();
        let mut sender = msg.sender.clone();
        push_all(&mut sender, ": ");
        out.push(Span { text: sender, tone: if user { Tone::UserSender } else { Tone::ModelSender } });
        let mut stamp = space_string(pad);
        push_all(&mut stamp, msg.timestamp.as_str());
        out.push(Span { text: stamp, tone: Tone::Timestamp });
        let ghost head = span_views(out@);
        let ghost blank = (Seq::<char>::empty(), Tone::Plain);
        let ghost w = if area_width as nat >= 2 { (area_width as nat - 2) as nat } else { 0nat };
        assert(w == width as nat);
        let thought_present = match &msg.thought {
            Some(t) => !t.as_str().is_empty(),
            None => false,
        };
        match &msg.thought {
            Some(t) => {
                if !t.as_str().is_empty() {
                    out.push(Span { text: String::new(), tone: Tone::Plain });
                    push_toned(&mut out, fill_lines(t.as_str(), width), Tone::Thought);
                }
            },
            None => {},
        }
        let ghost thought_part = match &msg.thought {
            Some(t) => if t@.len() > 0 { seq![blank] + toned(filled_lines(t@, w), Tone::Thought) } else { Seq::empty() },
            None => Seq::empty(),
        };
        assert(span_views(out@) =~= head + thought_part);
        let ghost with_thought = span_views(out@);
        let mut content = msg.content.clone();
        if streaming_tail && !user {
            push_all(&mut content, "...");
        }
        let ghost spec_content = msg.content@ + (if streaming_tail && !user { "..."@ } else { Seq::<char>::empty() });
        assert(content@ =~= spec_content);
        if !content.as_str().is_empty() {
            if thought_present || msg.thought.is_none() {
                out.push(Span { text: String::new(), tone: Tone::Plain });
            }
            push_toned(&mut out, fill_lines(content.as_str(), width), if user { Tone::UserText } else { Tone::ModelText });
        }
        let ghost body = if spec_content.len() > 0 {
            let gap = match &msg.thought {
                Some(t) => if t@.len() > 0 { seq![blank] } else { Seq::empty() },
                None => seq![blank],
            };
            gap + toned(filled_lines(spec_content, w), if user { Tone::UserText } else { Tone::ModelText })
        } else {
            Seq::empty()
        };
        assert(span_views(out@) =~= with_thought + body);
        out.push(Span { text: String::new(), tone: Tone::Plain });
        proof {
            assert(head =~= seq![
                (msg.sender@ + ": "@, if user { Tone::UserSender } else { Tone::ModelSender }),
                (spaces(pad as nat) + msg.timestamp@, Tone::Timestamp),
            ]);
            assert(span_views(out@) =~= message_block(*msg, streaming_tail, area_width as nat));
        }
        out
    }

    /// The lines of every message of a chat, message by message; only the last message of
    /// a chat still streaming shows "...".
    pub fn chat_lines(chat: &ChatSession, area_width: u16) -> (r: Vec<Vec<Span>>)
        ensures
            r@.len() == chat.messages@.len(),
            forall|i: int| 0 <= i < r@.len() ==> span_views(#[trigger] r@[i]@) == message_block(
                chat.messages@[i],
                chat.is_streaming && i == chat.messages@.len() - 1,
                area_width as nat,
            ),
    {
        let mut out: Vec<Vec<Span>> = Vec::new();
        let n = chat.messages.len();
        let mut i: usize = 0;
        while i < n
            invariant
                n == chat.messages@.len(),
                i <= n,
                out@.len() == i,
                forall|k: int| 0 <= k < i ==> span_views(#[trigger] out@[k]@) == message_block(
                    chat.messages@[k],
                    chat.is_streaming && k == n - 1,
                    area_width as nat,
                ),
            decreases n - i,
        {
            let lines = ChatWidget::message_lines(&chat.messages[i], chat.is_streaming && i == n - 1, area_width);
            out.push(lines);
            i = i + 1;
        }
        out
    }

    /// The title of the message pane: the model and whether it is answering, or a
    /// placeholder without a chat.
    pub fn pane_title(app: &App) -> (r: String)
        ensures
            r@ == (match app.active_chat {
                Some(c) => "Chat with "@ + c.model_name@ + " ("@ + (if c.is_streaming {
                    "streaming..."@
                } else {
                    "idle"@
                }) + ")"@,
                None => "Chat Area"@,
            }),
    {
        match &app.active_chat {
            Some(c) => {
                let mut t = "Chat with ".to_string();
                push_all(&mut t, c.model_name.as_str());
                push_all(&mut t, " (");
                push_all(&mut t, if c.is_streaming { "streaming..." } else { "idle" });
                push_all(&mut t, ")");
                t
            },
            None => "Chat Area".to_string(),
        }
    }

    /// The chat's particulars as label and value: its model, its number of messages, and
    /// whether it is streaming; without a chat, a hint to start one.
    pub fn info_lines(app: &App) -> (r: Vec<(Span, Option<Span>)>)
        ensures
            match app.active_chat {
                Some(c) => {
                    &&& r@.len() == 3
                    &&& r@[0].0.text@ == "Model: "@ && r@[0].0.tone == Tone::Secondary
                    &&& r@[0].1 matches Some(v) && v.text == c.model_name && v.tone == Tone::ChatInfo
                    &&& r@[1].0.text@ == "Messages: "@ && r@[1].0.tone == Tone::Secondary
                    &&& r@[1].1 matches Some(v) && v.text@ == decimal(c.messages@.len()) && v.tone == Tone::ChatInfo
                    &&& r@[2].0.text@ == "Streaming: "@ && r@[2].0.tone == Tone::Secondary
                    &&& r@[2].1 matches Some(v) && v.text@ == (if c.is_streaming { "Yes"@ } else { "No"@ })
                        && v.tone == Tone::ChatInfo
                },
                None => {
                    &&& r@.len() == 1
                    &&& r@[0].0.text@ == "No active chat. Select model and press <Enter>."@
                    &&& r@[0].0.tone == Tone::Secondary
                    &&& r@[0].1 is None
                },
            },
    {
        let mut out: Vec<(Span, Option<Span>)> = Vec::new();
        match &app.active_chat {
            Some(c) => {
                let mut count = String::new();
                push_decimal(&mut count, c.messages.len() as u64);
                out.push((Span { text: "Model: ".to_string(), tone: Tone::Secondary },
                    Some(Span { text: c.model_name.clone(), tone: Tone::ChatInfo })));
                out.push((Span { text: "Messages: ".to_string(), tone: Tone::Secondary },
                    Some(Span { text: count, tone: Tone::ChatInfo })));
                out.push((Span { text: "Streaming: ".to_string(), tone: Tone::Secondary },
                    Some(Span { text: if c.is_streaming { "Yes".to_string() } else { "No".to_string() }, tone: Tone::ChatInfo })));
            },
            None => {
                out.push((Span { text: "No active chat. Select model and press <Enter>.".to_string(), tone: Tone::Secondary }, None));
            },
        }
        out
    }
}

} // verus!
