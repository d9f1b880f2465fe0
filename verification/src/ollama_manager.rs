// What the application sends to and takes from a local Ollama server: the model list
// entries, the messages of a chat request, and the server's address.
use vstd::prelude::*;
use crate::config::Config;
use crate::tui::app::ChatMessage;
use crate::text::str_eq;

verus! {

broadcast use vstd::string::group_string_axioms;

/// A model installed on the Ollama server.
#[derive(Debug, Clone)]
pub struct LocalModel {
    pub name: String,
    pub modified_at: String,
    pub size: u64,
}

/// Who wrote a message sent to Ollama.
#[derive(Clone, Copy, Debug, PartialEq, Eq, Structural)]
pub enum MessageRole {
    User,
    Assistant,
    System,
}

/// A message of a chat request to Ollama.
#[derive(Debug, Clone)]
pub struct OutgoingMessage {
    pub role: MessageRole,
    pub content: String,
}

/// Why a chat request could not be put together.
#[derive(Clone, Copy, Debug, PartialEq, Eq, Structural)]
pub enum ChatRequestError {
    /// No message was left to send.
    EmptyHistory,
    /// The last message to send was not the user's.
    LastNotFromUser,
}

impl ChatRequestError {
    /// The error's message.
    pub fn message(&self) -> (r: String)
        ensures
            r@ == (match self {
                ChatRequestError::EmptyHistory => "Message list for Ollama is empty after processing history."@,
                ChatRequestError::LastNotFromUser => "Last message to Ollama was not from User."@,
            }),
    {
        match self {
            ChatRequestError::EmptyHistory => "Message list for Ollama is empty after processing history.".to_string(),
            ChatRequestError::LastNotFromUser => "Last message to Ollama was not from User.".to_string(),
        }
    }
}

/// Whether a message of the chat history is an empty answer still waiting for the model,
/// which is not sent: not the user's, with no content and no reasoning.
pub open spec fn is_placeholder(m: ChatMessage) -> bool {
    m.sender@ != "user"@ && m.content@.len() == 0 && m.thought is None
}

/// The message sent for a message of the history: the user's as the user's, anyone
/// else's as the assistant's.
pub open spec fn outgoing_for(m: ChatMessage) -> (MessageRole, Seq<char>) {
    (if m.sender@ == "user"@ { MessageRole::User } else { MessageRole::Assistant }, m.content@)
}

/// The messages sent for a history, placeholders left out.
pub open spec fn outgoing_history(h: Seq<ChatMessage>) -> Seq<(MessageRole, Seq<char>)>
    decreases h.len(),
{
    if h.len() == 0 {
        Seq::empty()
    } else {
        let rest = outgoing_history(h.drop_last());
        if is_placeholder(h.last()) { rest } else { rest.push(outgoing_for(h.last())) }
    }
}

/// The messages of a chat request: a non-empty system prompt first, then the history.
pub open spec fn request_messages(h: Seq<ChatMessage>, system_prompt: Option<Seq<char>>) -> Seq<(MessageRole, Seq<char>)> {
    let head = match system_prompt {
        Some(p) => if p.len() > 0 { seq![(MessageRole::System, p)] } else { Seq::empty() },
        None => Seq::empty(),
    };
    head + outgoing_history(h)
}

/// The views of outgoing messages.
pub open spec fn outgoing_views(v: Seq<OutgoingMessage>) -> Seq<(MessageRole, Seq<char>)> {
    v.map_values(|m: OutgoingMessage| (m.role, m.content@))
}

/// Puts together the messages of a chat request (see `request_messages`); there must be
/// at least one, and the last must be the user's.
pub fn build_chat_messages(history: &Vec<ChatMessage>, system_prompt_override: Option<String>) -> (r: Result<Vec<OutgoingMessage>, ChatRequestError>)
    ensures
        ({
            let all = request_messages(history@, match system_prompt_override {
                Some(p) => Some(p@),
                None => None,
            });
            match r {
                Ok(v) => outgoing_views(v@) == all && all.len() > 0 && all.last().0 == MessageRole::User,
                Err(ChatRequestError::EmptyHistory) => all.len() == 0,
                Err(ChatRequestError::LastNotFromUser) => all.len() > 0 && all.last().0 != MessageRole::User,
            }
        }),
{
    let mut out: Vec<OutgoingMessage> = Vec::new();
    let ghost sp = match &system_prompt_override {
        Some(p) => Some(p@),
        None => None::<Seq<char>>,
    };
    match system_prompt_override {
        Some(sp) => {
            if !sp.as_str().is_empty() {
                out.push(OutgoingMessage { role: MessageRole::System, content: sp });
            }
        },
        None => {},
    }
    let ghost head = outgoing_views(out@);
    proof {
        assert(head =~= request_messages(Seq::empty(), sp));
    }
    let mut i: usize = 0;
    while i < history.len()
        invariant
            i <= history@.len(),
            outgoing_views(out@) == head + outgoing_history(history@.take(i as int)),
        decreases history@.len() - i,
    {
        let m = &history[i];
        let is_user = str_eq(m.sender.as_str(), "user");
        proof {
            assert(history@.take(i + 1).drop_last() =~= history@.take(i as int));
            assert(history@.take(i + 1).last() == history@[i as int]);
        }
        if !is_user && m.content.as_str().is_empty() && m.thought.is_none() {
        } else {
            let role = if is_user { MessageRole::User } else { MessageRole::Assistant };
            let ghost before = outgoing_views(out@);
            out.push(OutgoingMessage { role, content: m.content.clone() });
            proof {
                assert(outgoing_views(out@) =~= before.push((role, m.content@)));
            }
        }
        i = i + 1;
    }
    proof {
        assert(history@.take(i as int) =~= history@);
        assert(outgoing_views(out@) =~= request_messages(history@, sp));
    }
    if out.len() == 0 {
        return Err(ChatRequestError::EmptyHistory);
    }
    let last_role = out[out.len() - 1].role;
    proof {
        assert(outgoing_views(out@).last() == (out@.last().role, out@.last().content@));
    }
    if last_role != MessageRole::User {
        return Err(ChatRequestError::LastNotFromUser);
    }
    Ok(out)
}

/// The message reported for an item of the answer stream that Ollama failed to deliver.
pub fn map_stream_item_error(_err: ()) -> (r: String)
    ensures
        r@ == "Error processing stream item from Ollama"@,
{
    "Error processing stream item from Ollama".to_string()
}

/// The text an item of the answer stream contributes: the message's content (nothing if
/// the item carries no message), or the stream error's message.
pub fn stream_item_text(item: Result<Option<String>, ()>) -> (r: Result<String, String>)
    ensures
        match item {
            Ok(Some(c)) => r matches Ok(t) && t == c,
            Ok(None) => r matches Ok(t) && t@.len() == 0,
            Err(_) => r matches Err(m) && m@ == "Error processing stream item from Ollama"@,
        },
{
    match item {
        Ok(Some(c)) => Ok(c),
        Ok(None) => Ok(String::new()),
        Err(e) => Err(map_stream_item_error(e)),
    }
}

/// Where the Ollama server is reached: the configured host (by default
/// `http://localhost`) and port (by default 11434).
pub fn ollama_endpoint(config: &Config) -> (r: (String, u16))
    ensures
        r.0@ == (match config.ollama_host {
            Some(h) => h@,
            None => "http://localhost"@,
        }),
        r.1 == (match config.ollama_port {
            Some(p) => p,
            None => 11434u16,
        }),
{
    let host = match &config.ollama_host {
        Some(h) => h.clone(),
        None => "http://localhost".to_string(),
    };
    let port = match config.ollama_port {
        Some(p) => p,
        None => 11434,
    };
    (host, port)
}

} // verus!
