// The state of the terminal interface and the operations on it that do not depend on
// the terminal: view cycling, list navigation, scrolling, prompts, RAM sizes, and the VM
// that the new-VM form describes.
use vstd::prelude::*;
use crate::config::Config;
use crate::libvirt_manager::{VmConfig, VmStatus};
use crate::ollama_manager::LocalModel;
use crate::bedrock_manager::{BedrockModelSummary, BedrockFilter, BedrockSorter};
use crate::string_map::StringMap;
use crate::text::{lemma_decimal_digits, lemma_decimal_parses, is_ascii_digit, is_unicode_whitespace, trim_start_spec, trim_end_spec, parse_u32_value, u32_value_of, lines_from, join_lines, split_lines, string_views, chars_of, trim, trim_spec, to_uppercase, uppercase_of, parse_u64, parse_u64_spec, IntParseError, ends_with, has_suffix, string_from_range, push_char, push_all, push_decimal, decimal};
use crate::tui::keys::{KeyBinding, KeyCode, KeyModifiers, parse_keybinding, binding_of};
use crate::config::KeyBindingsConfig;
use crate::tui::list_state::{ListState, selecting};
use crate::tui::view_mode::list::ListViewMode;
use crate::vm_id::{fresh_vm_id, is_lower_hex};

verus! {

broadcast use vstd::string::group_string_axioms;

/// The views of the interface, in the order Tab visits them.
#[derive(Clone, Copy, Debug, PartialEq, Eq, Structural)]
pub enum AppView {
    VmList,
    OllamaModelList,
    BedrockModelList,
    Chat,
    Logs,
}

/// The view that follows `v` when cycling forward.
pub open spec fn view_after(v: AppView) -> AppView {
    match v {
        AppView::VmList => AppView::OllamaModelList,
        AppView::OllamaModelList => AppView::BedrockModelList,
        AppView::BedrockModelList => AppView::Chat,
        AppView::Chat => AppView::Logs,
        AppView::Logs => AppView::VmList,
    }
}

/// The view that precedes `v` when cycling backward.
pub open spec fn view_before(v: AppView) -> AppView {
    match v {
        AppView::VmList => AppView::Logs,
        AppView::OllamaModelList => AppView::VmList,
        AppView::BedrockModelList => AppView::OllamaModelList,
        AppView::Chat => AppView::BedrockModelList,
        AppView::Logs => AppView::Chat,
    }
}

impl AppView {
    pub fn next(&self) -> (r: Self)
        ensures
            r == view_after(*self),
    {
        match self {
            Self::VmList => Self::OllamaModelList,
            Self::OllamaModelList => Self::BedrockModelList,
            Self::BedrockModelList => Self::Chat,
            Self::Chat => Self::Logs,
            Self::Logs => Self::VmList,
        }
    }

    pub fn previous(&self) -> (r: Self)
        ensures
            r == view_before(*self),
    {
        match self {
            Self::VmList => Self::Logs,
            Self::OllamaModelList => Self::VmList,
            Self::BedrockModelList => Self::OllamaModelList,
            Self::Chat => Self::BedrockModelList,
            Self::Logs => Self::Chat,
        }
    }
}

/// Going to the next view and back, or back and then forward, returns to the view one
/// started from.
pub proof fn next_and_previous_are_inverse(v: AppView)
    ensures
        view_before(view_after(v)) == v,
        view_after(view_before(v)) == v,
{
}

/// Pressing Tab once per view visits every view and comes back to the first.
pub proof fn views_cycle(v: AppView)
    ensures
        view_after(view_after(view_after(view_after(view_after(v))))) == v,
        v != view_after(v),
        v != view_after(view_after(v)),
        v != view_after(view_after(view_after(v))),
        v != view_after(view_after(view_after(view_after(v)))),
{
}

/// What keys do: navigate, edit text, fill the new-VM form, or confirm a destruction.
#[derive(Clone, Copy, Debug, PartialEq, Eq, Structural)]
pub enum InputMode {
    Normal,
    Editing,
    VmWizard,
    ConfirmingDestroy,
}

/// A message of a chat with a model.
#[derive(Debug, Clone)]
pub struct ChatMessage {
    pub sender: String,
    pub content: String,
    pub timestamp: String,
    pub thought: Option<String>,
}

/// A chat with a model.
#[derive(Debug, Clone)]
pub struct ChatSession {
    pub model_name: String,
    pub messages: Vec<ChatMessage>,
    pub is_streaming: bool,
}

/// The severity of a log record.
#[derive(Clone, Copy, Debug, PartialEq, Eq, Structural)]
pub enum LogLevel {
    Trace,
    Debug,
    Info,
    Warn,
    Error,
}

/// A log record shown in the Logs view.
#[derive(Clone, Debug)]
pub struct UILogEntry {
    pub timestamp: String,
    pub level: LogLevel,
    pub target: String,
    pub message: String,
}

/// What arrives from a model while it answers.
#[derive(Clone, Debug)]
pub enum ChatStreamEvent {
    Chunk(String),
    Error(String),
    Completed,
}

/// What the new-VM form holds when Enter asks for the VM to be created: its fields as
/// typed, the numbers not yet read.
#[derive(Clone, Debug)]
pub struct NewVmRequest {
    pub name: String,
    pub use_iso: bool,
    pub iso_path: String,
    pub source_image_path: String,
    pub disk_path: String,
    pub cpu: String,
    pub ram: String,
    pub disk_gb: String,
}

/// Why the form's contents do not describe a VM.
#[derive(Clone, Copy, Debug, PartialEq, Eq, Structural)]
pub enum NewVmError {
    InvalidCpuCount,
    InvalidRamSize,
    RamSizeTooLarge,
    InvalidDiskSize,
}

/// Work that the interface asks the runtime to do.
#[derive(Clone, Debug)]
pub enum AppEvent {
    FetchVms,
    FetchOllamaModels,
    FetchBedrockModels,
    DestroyVm(String),
    ResumeVm(String),
    CreateVm(NewVmRequest),
}

/// The state of the interface.
pub struct App {
    pub should_quit: bool,
    pub show_menu: bool,
    pub menu_state: ListState,
    pub show_about_modal: bool,
    pub readme_content: String,
    pub ollama_models: Vec<LocalModel>,
    pub bedrock_models: Vec<BedrockModelSummary>,
    pub vms: Vec<VmStatus>,
    pub vm_list_state: ListState,
    pub ollama_model_list_state: ListState,
    pub bedrock_model_list_state: ListState,
    pub config: Config,
    pub active_view: AppView,
    pub input_mode: InputMode,
    pub current_input: String,
    pub active_chat: Option<ChatSession>,
    pub log_entries: Vec<UILogEntry>,
    pub log_list_state: ListState,
    pub chat_list_state: ListState,
    pub show_new_vm_popup: bool,
    pub new_vm_name: String,
    pub new_vm_use_iso: bool,
    pub new_vm_iso_path: String,
    pub new_vm_source_image_path: String,
    pub new_vm_disk_path: String,
    pub new_vm_cpu: String,
    pub new_vm_ram_mb: String,
    pub new_vm_disk_gb: String,
    pub active_new_vm_input_idx: usize,
    pub vm_to_destroy: Option<String>,
    pub editing_system_prompt_for_model: Option<String>,
    pub editable_ollama_model_prompts: StringMap<String>,
    pub input_bar_scroll: u16,
    pub input_bar_last_wrapped_line_count: usize,
    pub input_bar_visible_height: u16,
    pub input_bar_cursor_needs_to_be_visible: bool,
    pub input_cursor_char_idx: usize,
    pub last_input_text_area_width: u16,
    pub libvirt_connected: bool,
    pub ollama_connected: bool,
    pub bedrock_connected: bool,
    pub bedrock_model_view_mode: ListViewMode<BedrockModelSummary, BedrockFilter, BedrockSorter>,
    pub show_keybindings_modal: bool,
    pub menu_level: u8,
    pub menu_sub_state: ListState,
    pub keybinding_map: StringMap<KeyBinding>,
    pub current_bedrock_filter: String,
    pub current_bedrock_sort: String,
}

/// The selection after moving down a list of `len` items: wraps from the last item to
/// the first, starts at the first when nothing was selected, and is empty for an empty list.
pub open spec fn index_after(sel: Option<usize>, len: nat) -> Option<usize> {
    if len == 0 {
        None
    } else {
        match sel {
            Some(i) => if i >= len - 1 {
                Some(0usize)
            } else {
                Some((i + 1) as usize)
            },
            None => Some(0usize),
        }
    }
}

/// The selection after moving up a list of `len` items: wraps from the first item to
/// the last, starts at the first when nothing was selected, and is empty for an empty list.
pub open spec fn index_before(sel: Option<usize>, len: nat) -> Option<usize> {
    if len == 0 {
        None
    } else {
        match sel {
            Some(i) => if i == 0 {
                Some((len - 1) as usize)
            } else {
                Some((i - 1) as usize)
            },
            None => Some(0usize),
        }
    }
}

/// Moving down a non-empty list leaves the selection on an item of it, and so does moving
/// up from an item of it or from just past its end; moving
/// down and then up (or up and then down) from an item returns to it.
pub proof fn list_navigation_round_trip(sel: Option<usize>, len: nat)
    requires
        len <= usize::MAX,
    ensures
        len > 0 ==> (index_after(sel, len) matches Some(j) && j < len),
        len > 0 && (sel matches Some(i) ==> i <= len) ==> (index_before(sel, len) matches Some(j) && j < len),
        len == 0 ==> index_after(sel, len) is None && index_before(sel, len) is None,
        sel matches Some(i) && i < len ==> index_before(index_after(sel, len), len) == sel,
        sel matches Some(i) && i < len ==> index_after(index_before(sel, len), len) == sel,
{
}

fn next_index(sel: Option<usize>, len: usize) -> (r: Option<usize>)
    ensures
        r == index_after(sel, len as nat),
{
    if len == 0 {
        return None;
    }
    match sel {
        Some(i) => if i >= len - 1 {
            Some(0)
        } else {
            Some(i + 1)
        },
        None => Some(0),
    }
}

fn previous_index(sel: Option<usize>, len: usize) -> (r: Option<usize>)
    ensures
        r == index_before(sel, len as nat),
{
    if len == 0 {
        return None;
    }
    match sel {
        Some(i) => if i == 0 {
            Some(len - 1)
        } else {
            Some(i - 1)
        },
        None => Some(0),
    }
}

/// The selection after scrolling a chat or the logs up one line: it stops at the first line.
pub open spec fn scrolled_up(sel: Option<usize>) -> Option<usize> {
    let cur = match sel {
        Some(i) => i,
        None => 0,
    };
    if cur > 0 {
        Some((cur - 1) as usize)
    } else {
        sel
    }
}

/// The selection after scrolling `len` lines down one line: it stops at the last line.
pub open spec fn scrolled_down(sel: Option<usize>, len: nat) -> Option<usize> {
    let cur = match sel {
        Some(i) => i,
        None => 0,
    };
    if len == 0 {
        sel
    } else if cur < len - 1 {
        Some((cur + 1) as usize)
    } else {
        sel
    }
}

/// The menu entry after moving down the three-entry menu.
#[verifier::opaque]
pub open spec fn menu_index_after(sel: Option<usize>) -> Option<usize> {
    match sel {
        Some(i) => Some(((i + 1) % 3) as usize),
        None => Some(0usize),
    }
}

/// The menu entry after moving up the three-entry menu.
#[verifier::opaque]
pub open spec fn menu_index_before(sel: Option<usize>) -> Option<usize> {
    match sel {
        Some(i) => Some(((i + 3 - 1) % 3) as usize),
        None => Some(0usize),
    }
}

/// In the three-entry menu, moving down and then up (or up and then down) returns to the
/// entry one was on, three moves in one direction come back to it, and every move lands
/// on one of the three entries.
pub proof fn menu_navigation_round_trip(sel: Option<usize>)
    requires
        sel matches Some(i) ==> i < 3,
    ensures
        menu_index_after(sel) matches Some(j) && j < 3,
        menu_index_before(sel) matches Some(j) && j < 3,
        sel is Some ==> menu_index_before(menu_index_after(sel)) == sel,
        sel is Some ==> menu_index_after(menu_index_before(sel)) == sel,
        sel is Some ==> menu_index_after(menu_index_after(menu_index_after(sel))) == sel,
{
    reveal(menu_index_after);
    reveal(menu_index_before);
}

/// The system prompt in effect for a model: the one being edited in this session,
/// else the one configured for the model, else the default prompt, else empty.
pub open spec fn active_system_prompt(app: &App, model_name: Seq<char>) -> Seq<char> {
    if app.editable_ollama_model_prompts@.contains_key(model_name) {
        app.editable_ollama_model_prompts@[model_name]@
    } else {
        match app.config.spec_prompt_for_model(model_name) {
            Some(p) => p@,
            None => match app.config.default_system_prompt {
                Some(p) => p@,
                None => Seq::empty(),
            },
        }
    }
}

/// A prompt edited in this session is the one in effect for its model, whatever the
/// configuration holds for the model or as a default; without an edit, a prompt
/// configured for the model comes before the default one.
pub proof fn edited_prompt_takes_precedence(app: App, model_name: Seq<char>)
    ensures
        app.editable_ollama_model_prompts@.contains_key(model_name)
            ==> active_system_prompt(&app, model_name) == app.editable_ollama_model_prompts@[model_name]@,
        !app.editable_ollama_model_prompts@.contains_key(model_name) ==> match app.config.providers.ollama.model_system_prompts {
            Some(ps) => ps@.contains_key(model_name) ==> active_system_prompt(&app, model_name) == ps@[model_name]@,
            None => true,
        },
{
}

/// The interface after moving the menu's selection down.
#[verifier::opaque]
pub open spec fn menu_advanced(a: App) -> App {
    App { menu_state: selecting(a.menu_state, menu_index_after(a.menu_state.selected)), ..a }
}

/// The interface after moving the menu's selection up.
#[verifier::opaque]
pub open spec fn menu_retreated(a: App) -> App {
    App { menu_state: selecting(a.menu_state, menu_index_before(a.menu_state.selected)), ..a }
}

/// The interface after selecting the next VM (see `index_after`).
#[verifier::opaque]
pub open spec fn vm_next(a: App) -> App {
    App { vm_list_state: selecting(a.vm_list_state, index_after(a.vm_list_state.selected, a.vms@.len())), ..a }
}

/// The interface after selecting the previous VM (see `index_before`).
#[verifier::opaque]
pub open spec fn vm_previous(a: App) -> App {
    App { vm_list_state: selecting(a.vm_list_state, index_before(a.vm_list_state.selected, a.vms@.len())), ..a }
}

/// The interface after selecting the next Ollama model.
#[verifier::opaque]
pub open spec fn ollama_next(a: App) -> App {
    App {
        ollama_model_list_state: selecting(a.ollama_model_list_state, index_after(a.ollama_model_list_state.selected, a.ollama_models@.len())),
        ..a
    }
}

/// The interface after selecting the previous Ollama model.
#[verifier::opaque]
pub open spec fn ollama_previous(a: App) -> App {
    App {
        ollama_model_list_state: selecting(a.ollama_model_list_state, index_before(a.ollama_model_list_state.selected, a.ollama_models@.len())),
        ..a
    }
}

/// The interface after selecting the next Bedrock model.
#[verifier::opaque]
pub open spec fn bedrock_next(a: App) -> App {
    App {
        bedrock_model_list_state: selecting(a.bedrock_model_list_state, index_after(a.bedrock_model_list_state.selected, a.bedrock_models@.len())),
        ..a
    }
}

/// The interface after selecting the previous Bedrock model.
#[verifier::opaque]
pub open spec fn bedrock_previous(a: App) -> App {
    App {
        bedrock_model_list_state: selecting(a.bedrock_model_list_state, index_before(a.bedrock_model_list_state.selected, a.bedrock_models@.len())),
        ..a
    }
}

/// The interface after scrolling the chat up one message, when there is a chat.
#[verifier::opaque]
pub open spec fn chat_up(a: App) -> App {
    if a.active_chat is Some && scrolled_up(a.chat_list_state.selected) != a.chat_list_state.selected {
        App { chat_list_state: selecting(a.chat_list_state, scrolled_up(a.chat_list_state.selected)), ..a }
    } else {
        a
    }
}

/// The interface after scrolling the chat down one message, when there is a chat.
#[verifier::opaque]
pub open spec fn chat_down(a: App) -> App {
    match a.active_chat {
        Some(session) => if scrolled_down(a.chat_list_state.selected, session.messages@.len()) != a.chat_list_state.selected {
            App { chat_list_state: selecting(a.chat_list_state, scrolled_down(a.chat_list_state.selected, session.messages@.len())), ..a }
        } else {
            a
        },
        None => a,
    }
}

/// The interface after scrolling the logs up one entry.
#[verifier::opaque]
pub open spec fn logs_up(a: App) -> App {
    if scrolled_up(a.log_list_state.selected) != a.log_list_state.selected {
        App { log_list_state: selecting(a.log_list_state, scrolled_up(a.log_list_state.selected)), ..a }
    } else {
        a
    }
}

/// The interface after scrolling the logs down one entry.
#[verifier::opaque]
pub open spec fn logs_down(a: App) -> App {
    if scrolled_down(a.log_list_state.selected, a.log_entries@.len()) != a.log_list_state.selected {
        App { log_list_state: selecting(a.log_list_state, scrolled_down(a.log_list_state.selected, a.log_entries@.len())), ..a }
    } else {
        a
    }
}

impl App {
    pub fn tick(&mut self)
        ensures
            *final(self) == *old(self),
    {
    }

    /// The system prompt in effect for a model (see `active_system_prompt`).
    pub fn get_active_system_prompt(&self, model_name: &str) -> (r: String)
        ensures
            r@ == active_system_prompt(self, model_name@),
    {
        match self.editable_ollama_model_prompts.get(model_name) {
            Some(p) => p.clone(),
            None => match self.config.get_system_prompt_for_model(model_name) {
                Some(p) => p,
                None => match &self.config.default_system_prompt {
                    Some(p) => p.clone(),
                    None => String::new(),
                },
            },
        }
    }

    pub fn menu_next(&mut self)
        requires
            old(self).menu_state.selected matches Some(i) ==> i < usize::MAX,
        ensures
            *final(self) == menu_advanced(*old(self)),
    {
        proof {
            reveal(menu_advanced);
        }
        let i = match self.menu_state.selected() {
            Some(i) => (i + 1) % 3,
            None => 0,
        };
        proof {
            reveal(menu_index_after);
        }
        self.menu_state.select(Some(i));
    }

    pub fn menu_previous(&mut self)
        requires
            old(self).menu_state.selected matches Some(i) ==> i <= usize::MAX - 3,
        ensures
            *final(self) == menu_retreated(*old(self)),
    {
        proof {
            reveal(menu_retreated);
        }
        let i = match self.menu_state.selected() {
            Some(i) => (i + 3 - 1) % 3,
            None => 0,
        };
        proof {
            reveal(menu_index_before);
        }
        self.menu_state.select(Some(i));
    }

    pub fn select_next_item_in_vm_list(&mut self)
        ensures
            *final(self) == vm_next(*old(self)),
    {
        proof {
            reveal(vm_next);
        }
        let i = next_index(self.vm_list_state.selected(), self.vms.len());
        self.vm_list_state.select(i);
    }

    pub fn select_previous_item_in_vm_list(&mut self)
        ensures
            *final(self) == vm_previous(*old(self)),
    {
        proof {
            reveal(vm_previous);
        }
        let i = previous_index(self.vm_list_state.selected(), self.vms.len());
        self.vm_list_state.select(i);
    }

    pub fn select_next_item_in_ollama_list(&mut self)
        ensures
            *final(self) == ollama_next(*old(self)),
    {
        proof {
            reveal(ollama_next);
        }
        let i = next_index(self.ollama_model_list_state.selected(), self.ollama_models.len());
        self.ollama_model_list_state.select(i);
    }

    pub fn select_previous_item_in_ollama_list(&mut self)
        ensures
            *final(self) == ollama_previous(*old(self)),
    {
        proof {
            reveal(ollama_previous);
        }
        let i = previous_index(self.ollama_model_list_state.selected(), self.ollama_models.len());
        self.ollama_model_list_state.select(i);
    }

    pub fn select_next_item_in_bedrock_list(&mut self)
        ensures
            *final(self) == bedrock_next(*old(self)),
    {
        proof {
            reveal(bedrock_next);
        }
        let i = next_index(self.bedrock_model_list_state.selected(), self.bedrock_models.len());
        self.bedrock_model_list_state.select(i);
    }

    pub fn select_previous_item_in_bedrock_list(&mut self)
        ensures
            *final(self) == bedrock_previous(*old(self)),
    {
        proof {
            reveal(bedrock_previous);
        }
        let i = previous_index(self.bedrock_model_list_state.selected(), self.bedrock_models.len());
        self.bedrock_model_list_state.select(i);
    }

    pub fn scroll_chat_up(&mut self)
        ensures
            *final(self) == chat_up(*old(self)),
    {
        proof {
            reveal(chat_up);
        }
        if self.active_chat.is_some() {
            let current_selection = match self.chat_list_state.selected() {
                Some(i) => i,
                None => 0,
            };
            if current_selection > 0 {
                self.chat_list_state.select(Some(current_selection - 1));
            }
        }
    }

    pub fn scroll_chat_down(&mut self)
        ensures
            *final(self) == chat_down(*old(self)),
    {
        proof {
            reveal(chat_down);
        }
        match &self.active_chat {
            Some(session) => {
                if session.messages.len() == 0 {
                    return;
                }
                let max_index = session.messages.len() - 1;
                let current_selection = match self.chat_list_state.selected() {
                    Some(i) => i,
                    None => 0,
                };
                if current_selection < max_index {
                    self.chat_list_state.select(Some(current_selection + 1));
                }
            },
            None => {},
        }
    }

    pub fn scroll_logs_up(&mut self)
        ensures
            *final(self) == logs_up(*old(self)),
    {
        proof {
            reveal(logs_up);
        }
        let current_selection = match self.log_list_state.selected() {
            Some(i) => i,
            None => 0,
        };
        if current_selection > 0 {
            self.log_list_state.select(Some(current_selection - 1));
        }
    }

    pub fn scroll_logs_down(&mut self)
        ensures
            *final(self) == logs_down(*old(self)),
    {
        proof {
            reveal(logs_down);
        }
        if self.log_entries.len() == 0 {
            return;
        }
        let max_index = self.log_entries.len() - 1;
        let current_selection = match self.log_list_state.selected() {
            Some(i) => i,
            None => 0,
        };
        if current_selection < max_index {
            self.log_list_state.select(Some(current_selection + 1));
        }
    }

    pub fn reset_cursor_position(&mut self)
        ensures
            final(self).input_cursor_char_idx == old(self).current_input@.len(),
            *final(self) == (App {
                input_cursor_char_idx: old(self).current_input@.len() as usize,
                input_bar_cursor_needs_to_be_visible: true,
                ..*old(self)
            }),
    {
        let v = chars_of(self.current_input.as_str());
        self.input_cursor_char_idx = v.len();
        self.input_bar_cursor_needs_to_be_visible = true;
    }
}

/// The suffix of a RAM size given in gigabytes, in upper case.
pub open spec fn gb_suffix() -> Seq<char> {
    seq!['G', 'B']
}

/// The suffix of a RAM size given in megabytes, in upper case.
pub open spec fn mb_suffix() -> Seq<char> {
    seq!['M', 'B']
}

/// The size in MB that a RAM text denotes, read from its trimmed upper-case form `upper`
/// and its trimmed form `trimmed`: "<n>GB" is n * 1024, "<n>MB" is n, and a bare
/// number is itself.
pub open spec fn ram_mb_from(upper: Seq<char>, trimmed: Seq<char>) -> Result<u64, IntParseError> {
    if ends_with(upper, gb_suffix()) {
        match parse_u64_spec(trim_spec(upper.subrange(0, upper.len() - 2))) {
            Ok(n) => Ok((n * 1024) as u64),
            Err(e) => Err(e),
        }
    } else if ends_with(upper, mb_suffix()) {
        parse_u64_spec(trim_spec(upper.subrange(0, upper.len() - 2)))
    } else {
        parse_u64_spec(trimmed)
    }
}

proof fn lemma_digits_trimmed(d: Seq<char>, t: Seq<char>)
    requires
        d.len() >= 1,
        forall|i: int| 0 <= i < d.len() ==> is_ascii_digit(#[trigger] d[i]),
        t.len() == 0 || !is_unicode_whitespace(t.last()),
    ensures
        trim_spec(d + t) == d + t,
{
    let s = d + t;
    assert(s[0] == d[0]);
    assert(trim_start_spec(s) == s);
    if t.len() == 0 {
        assert(s.last() == d[d.len() - 1]);
    } else {
        assert(s.last() == t.last());
    }
    assert(trim_end_spec(s) == s);
}

/// A RAM size written as a number and "GB", as a number and "mb", or as a bare number
/// between spaces reads back as that number of gigabytes in megabytes, or of megabytes.
/// Each text is given as `parse_ram_parts` reads it: trimmed, and trimmed and upper-cased
/// for the suffix.
pub proof fn ram_size_round_trip(n: u64)
    ensures
        trim_spec(decimal(n as nat) + "GB"@) == decimal(n as nat) + "GB"@,
        n <= u64::MAX / 1024 ==> !ram_gb_overflows(decimal(n as nat) + "GB"@),
        n <= u64::MAX / 1024 ==> ram_mb_from(decimal(n as nat) + "GB"@, decimal(n as nat) + "GB"@)
            == Ok::<u64, IntParseError>((n * 1024) as u64),
        trim_spec(decimal(n as nat) + "mb"@) == decimal(n as nat) + "mb"@,
        ram_mb_from(decimal(n as nat) + "MB"@, decimal(n as nat) + "mb"@) == Ok::<u64, IntParseError>(n),
        trim_spec(" "@ + decimal(n as nat) + " "@) == decimal(n as nat),
        ram_mb_from(decimal(n as nat), decimal(n as nat)) == Ok::<u64, IntParseError>(n),
{
    reveal_strlit("GB");
    reveal_strlit("MB");
    reveal_strlit("mb");
    reveal_strlit(" ");
    let d = decimal(n as nat);
    lemma_decimal_digits(n as nat);
    lemma_decimal_parses(n);
    lemma_digits_trimmed(d, Seq::<char>::empty());
    assert(d + Seq::<char>::empty() =~= d);
    lemma_digits_trimmed(d, "GB"@);
    lemma_digits_trimmed(d, "mb"@);
    lemma_digits_trimmed(d, "MB"@);
    let g = d + "GB"@;
    assert(g.subrange(g.len() - 2, g.len() as int) =~= gb_suffix());
    assert(g.subrange(0, g.len() - 2) =~= d);
    let m = d + "MB"@;
    assert(!ends_with(m, gb_suffix())) by {
        assert(m.last() == 'B');
        assert(m[m.len() - 2] == 'M');
        assert(m.subrange(m.len() - 2, m.len() as int)[0] == 'M');
    }
    assert(m.subrange(m.len() - 2, m.len() as int) =~= mb_suffix());
    assert(m.subrange(0, m.len() - 2) =~= d);
    assert(!ends_with(d, gb_suffix())) by {
        if d.len() >= 2 {
            assert(d.subrange(d.len() - 2, d.len() as int)[1] == d[d.len() - 1]);
            assert(is_ascii_digit(d[d.len() - 1]));
        }
    }
    assert(!ends_with(d, mb_suffix())) by {
        if d.len() >= 2 {
            assert(d.subrange(d.len() - 2, d.len() as int)[1] == d[d.len() - 1]);
            assert(is_ascii_digit(d[d.len() - 1]));
        }
    }
    let w = " "@ + d + " "@;
    assert(is_unicode_whitespace(w[0]));
    assert(w.drop_first() =~= d + " "@);
    let w1 = d + " "@;
    assert(w1[0] == d[0]);
    assert(trim_start_spec(w1) == w1);
    assert(trim_start_spec(w) == w1);
    assert(is_unicode_whitespace(w1.last()));
    assert(w1.drop_last() =~= d);
    assert(d.last() == d[d.len() - 1]);
    assert(trim_end_spec(d) == d);
    assert(trim_end_spec(w1) == d);
}

/// Whether a gigabyte count is too large to express in megabytes in a `u64`.
pub open spec fn ram_gb_overflows(upper: Seq<char>) -> bool {
    ends_with(upper, gb_suffix()) && (parse_u64_spec(trim_spec(upper.subrange(0, upper.len() - 2))) matches Ok(n) && n * 1024 > u64::MAX)
}

/// The size in MB that a RAM text denotes, from its trimmed upper-case form and its
/// trimmed form (see `ram_mb_from`).
pub fn parse_ram_parts(upper: &str, trimmed: &str) -> (r: Result<u64, IntParseError>)
    requires
        !ram_gb_overflows(upper@),
    ensures
        r == ram_mb_from(upper@, trimmed@),
{
    let v = chars_of(upper);
    assert(gb_suffix() == "GB"@) by { reveal_strlit("GB"); }
    assert(mb_suffix() == "MB"@) by { reveal_strlit("MB"); }
    if has_suffix(&v, "GB") {
        let head = string_from_range(&v, 0, v.len() - 2);
        let num = trim(head.as_str());
        match parse_u64(num.as_str()) {
            Ok(n) => Ok(n * 1024),
            Err(e) => Err(e),
        }
    } else if has_suffix(&v, "MB") {
        let head = string_from_range(&v, 0, v.len() - 2);
        let num = trim(head.as_str());
        parse_u64(num.as_str())
    } else {
        parse_u64(trimmed)
    }
}

/// Parses a RAM size such as "4GB", "2048MB" or "512" into megabytes.
pub fn parse_ram_str(ram_str: &str) -> (r: Result<u64, IntParseError>)
    requires
        !ram_gb_overflows(uppercase_of(trim_spec(ram_str@))),
    ensures
        r == ram_mb_from(uppercase_of(trim_spec(ram_str@)), trim_spec(ram_str@)),
{
    let t = trim(ram_str);
    let s = to_uppercase(t.as_str());
    parse_ram_parts(s.as_str(), t.as_str())
}

/// Parses a RAM size into megabytes, or gives `None` when a gigabyte count is too
/// large to express in megabytes.
pub fn try_parse_ram_str(ram_str: &str) -> (r: Option<Result<u64, IntParseError>>)
    ensures
        r is None <==> ram_gb_overflows(uppercase_of(trim_spec(ram_str@))),
        r matches Some(x) ==> x == ram_mb_from(uppercase_of(trim_spec(ram_str@)), trim_spec(ram_str@)),
{
    let t = trim(ram_str);
    let s = to_uppercase(t.as_str());
    let v = chars_of(s.as_str());
    assert(gb_suffix() == "GB"@) by { reveal_strlit("GB"); }
    if has_suffix(&v, "GB") {
        let head = string_from_range(&v, 0, v.len() - 2);
        let num = trim(head.as_str());
        match parse_u64(num.as_str()) {
            Ok(n) => if n > u64::MAX / 1024 {
                return None;
            },
            Err(_) => {},
        }
    }
    Some(parse_ram_str(ram_str))
}

/// The first `n` lines of a text, joined with `\n`.
pub open spec fn excerpt(text: Seq<char>, n: nat) -> Seq<char> {
    let ls = lines_from(text, seq![]);
    join_lines(ls.take(if n < ls.len() { n as int } else { ls.len() as int }))
}

/// The first `n` lines of a text joined with `\n` (the About box shows the README so).
pub fn readme_excerpt(text: &str, n: usize) -> (r: String)
    ensures
        r@ == excerpt(text@, n as nat),
{
    let lines = split_lines(text);
    let ghost all = lines_from(text@, seq![]);
    let count: usize = if n < lines.len() { n } else { lines.len() };
    let mut out = String::new();
    let mut k: usize = 0;
    while k < count
        invariant
            count <= lines@.len(),
            string_views(lines@) == all,
            k <= count,
            out@ == join_lines(all.take(k as int)),
        decreases count - k,
    {
        if k > 0 {
            push_char(&mut out, '\n');
        }
        push_all(&mut out, lines[k].as_str());
        proof {
            let t = all.take(k + 1);
            assert(t.drop_last() =~= all.take(k as int));
            assert(t.last() == lines@[k as int]@);
            if k == 0 {
                assert(t.len() == 1);
            }
        }
        k = k + 1;
    }
    out
}

/// The binding used for the list filter action when its description does not parse.
pub open spec fn fallback_filter() -> KeyBinding {
    (KeyCode::Char('F'), KeyModifiers { bits: 0 })
}

/// The binding used for the list sort action when its description does not parse.
pub open spec fn fallback_sort() -> KeyBinding {
    (KeyCode::Char('S'), KeyModifiers { bits: 0 })
}

/// The binding used for the Bedrock filter action when its description does not parse.
pub open spec fn fallback_bedrock_filter() -> KeyBinding {
    (KeyCode::Char('f'), KeyModifiers { bits: 0 })
}

/// The binding used for the Bedrock sort action when its description does not parse.
pub open spec fn fallback_bedrock_sort() -> KeyBinding {
    (KeyCode::Char('s'), KeyModifiers { bits: 0 })
}

/// `m` with `action` bound to what `desc` describes, or `m` itself when `desc` does not parse.
pub open spec fn bind_if_parsed(m: Map<Seq<char>, KeyBinding>, action: Seq<char>, desc: Seq<char>) -> Map<Seq<char>, KeyBinding> {
    match binding_of(desc) {
        Some(b) => m.insert(action, b),
        None => m,
    }
}

/// A binding, or a fallback when there is none.
pub open spec fn binding_or(b: Option<KeyBinding>, fallback: KeyBinding) -> KeyBinding {
    match b {
        Some(x) => x,
        None => fallback,
    }
}

/// The action table built from the `[keybindings]` section: the eleven actions quit to
/// down are bound when their description parses, and the four list actions are always
/// bound, to their fallback when their description does not parse.
pub open spec fn bindings_of(cfg: KeyBindingsConfig) -> Map<Seq<char>, KeyBinding> {
    let m = Map::<Seq<char>, KeyBinding>::empty();
    let m = bind_if_parsed(m, "quit"@, cfg.quit@);
    let m = bind_if_parsed(m, "help"@, cfg.help@);
    let m = bind_if_parsed(m, "menu"@, cfg.menu@);
    let m = bind_if_parsed(m, "next_tab"@, cfg.next_tab@);
    let m = bind_if_parsed(m, "prev_tab"@, cfg.prev_tab@);
    let m = bind_if_parsed(m, "new_vm"@, cfg.new_vm@);
    let m = bind_if_parsed(m, "destroy_vm"@, cfg.destroy_vm@);
    let m = bind_if_parsed(m, "edit"@, cfg.edit@);
    let m = bind_if_parsed(m, "enter"@, cfg.enter@);
    let m = bind_if_parsed(m, "up"@, cfg.up@);
    let m = bind_if_parsed(m, "down"@, cfg.down@);
    m.insert("filter"@, binding_or(binding_of(cfg.filter@), fallback_filter()))
        .insert("sort"@, binding_or(binding_of(cfg.sort@), fallback_sort()))
        .insert("bedrock_filter"@, binding_or(binding_of(cfg.bedrock.filter@), fallback_bedrock_filter()))
        .insert("bedrock_sort"@, binding_or(binding_of(cfg.bedrock.sort@), fallback_bedrock_sort()))
}

fn default_parsed_up() -> (r: KeyBinding)
    ensures
        r == (KeyCode::Up, KeyModifiers { bits: 0 }),
{
    (KeyCode::Up, KeyModifiers::none())
}

fn default_parsed_down() -> (r: KeyBinding)
    ensures
        r == (KeyCode::Down, KeyModifiers { bits: 0 }),
{
    (KeyCode::Down, KeyModifiers::none())
}

fn default_parsed_filter() -> (r: KeyBinding)
    ensures
        r == fallback_filter(),
{
    (KeyCode::Char('F'), KeyModifiers::none())
}

fn default_parsed_sort() -> (r: KeyBinding)
    ensures
        r == fallback_sort(),
{
    (KeyCode::Char('S'), KeyModifiers::none())
}

fn default_parsed_bedrock_filter() -> (r: KeyBinding)
    ensures
        r == fallback_bedrock_filter(),
{
    (KeyCode::Char('f'), KeyModifiers::none())
}

fn default_parsed_bedrock_sort() -> (r: KeyBinding)
    ensures
        r == fallback_bedrock_sort(),
{
    (KeyCode::Char('s'), KeyModifiers::none())
}

fn insert_if_parsed(map: &mut StringMap<KeyBinding>, action: &str, desc: &str)
    ensures
        final(map)@ == bind_if_parsed(old(map)@, action@, desc@),
{
    match parse_keybinding(desc) {
        Some(b) => map.insert(action.to_string(), b),
        None => {},
    }
}

fn parsed_or(desc: &str, fallback: KeyBinding) -> (r: KeyBinding)
    ensures
        r == binding_or(binding_of(desc@), fallback),
{
    match parse_keybinding(desc) {
        Some(b) => b,
        None => fallback,
    }
}

/// Builds the action table from the `[keybindings]` section (see `bindings_of`).
pub fn parse_keybindings(cfg: &KeyBindingsConfig) -> (r: StringMap<KeyBinding>)
    ensures
        r@ == bindings_of(*cfg),
{
    let mut map: StringMap<KeyBinding> = StringMap::new();
    insert_if_parsed(&mut map, "quit", cfg.quit.as_str());
    insert_if_parsed(&mut map, "help", cfg.help.as_str());
    insert_if_parsed(&mut map, "menu", cfg.menu.as_str());
    insert_if_parsed(&mut map, "next_tab", cfg.next_tab.as_str());
    insert_if_parsed(&mut map, "prev_tab", cfg.prev_tab.as_str());
    insert_if_parsed(&mut map, "new_vm", cfg.new_vm.as_str());
    insert_if_parsed(&mut map, "destroy_vm", cfg.destroy_vm.as_str());
    insert_if_parsed(&mut map, "edit", cfg.edit.as_str());
    insert_if_parsed(&mut map, "enter", cfg.enter.as_str());
    insert_if_parsed(&mut map, "up", cfg.up.as_str());
    insert_if_parsed(&mut map, "down", cfg.down.as_str());
    map.insert("filter".to_string(), parsed_or(cfg.filter.as_str(), default_parsed_filter()));
    map.insert("sort".to_string(), parsed_or(cfg.sort.as_str(), default_parsed_sort()));
    map.insert("bedrock_filter".to_string(), parsed_or(cfg.bedrock.filter.as_str(), default_parsed_bedrock_filter()));
    map.insert("bedrock_sort".to_string(), parsed_or(cfg.bedrock.sort.as_str(), default_parsed_bedrock_sort()));
    map
}

/// The text of the About box: the first lines of the README, or why it could not be read.
pub open spec fn about_text(readme: Result<String, String>, n: usize) -> Seq<char> {
    match readme {
        Ok(t) => excerpt(t@, n as nat),
        Err(e) => "Could not read README.md: "@ + e@,
    }
}

/// A list state with nothing selected, shown from its start.
pub open spec fn fresh_list(s: ListState) -> bool {
    s.offset == 0 && s.selected is None
}

/// The prompts a new interface starts editing from: those of the configuration, if any.
pub open spec fn initial_prompts(config: Config) -> Map<Seq<char>, String> {
    match config.providers.ollama.model_system_prompts {
        Some(m) => m@,
        None => Map::empty(),
    }
}

/// The state of a new interface over `config`, with `vm_id` naming its first VM and
/// `readme` the README's text or why it could not be read.
pub open spec fn is_initial_app(a: App, config: Config, vm_id: Seq<char>, readme: Result<String, String>) -> bool {
    &&& !a.should_quit && !a.show_menu && !a.show_about_modal
    &&& fresh_list(a.menu_state) && fresh_list(a.vm_list_state) && fresh_list(a.ollama_model_list_state)
    &&& fresh_list(a.bedrock_model_list_state) && fresh_list(a.log_list_state) && fresh_list(a.chat_list_state)
    &&& fresh_list(a.menu_sub_state)
    &&& a.readme_content@ == about_text(readme, config.interface.about_modal_readme_lines)
    &&& a.ollama_models@.len() == 0 && a.bedrock_models@.len() == 0 && a.vms@.len() == 0
    &&& a.config == config
    &&& a.active_view == AppView::VmList && a.input_mode == InputMode::Normal
    &&& a.current_input@.len() == 0 && a.active_chat is None && a.log_entries@.len() == 0
    &&& !a.show_new_vm_popup
    &&& a.new_vm_name@ == config.defaults.default_vm_image@ + "-"@ + vm_id
    &&& a.new_vm_use_iso
    &&& a.new_vm_iso_path@ == config.defaults.default_vm_iso@
    &&& a.new_vm_source_image_path@ == (match config.defaults.default_source_image {
        Some(p) => p@,
        None => Seq::<char>::empty(),
    })
    &&& a.new_vm_disk_path@.len() == 0
    &&& a.new_vm_cpu@ == decimal(config.defaults.default_cpu as nat)
    &&& a.new_vm_ram_mb@ == config.defaults.default_ram@
    &&& a.new_vm_disk_gb@ == decimal(config.defaults.default_disk_gb as nat)
    &&& a.active_new_vm_input_idx == 0 && a.vm_to_destroy is None
    &&& a.editing_system_prompt_for_model is None
    &&& a.editable_ollama_model_prompts@ == initial_prompts(config)
    &&& a.input_bar_scroll == 0 && a.input_bar_last_wrapped_line_count == 0
    &&& a.input_bar_visible_height == 1 && a.input_bar_cursor_needs_to_be_visible
    &&& a.input_cursor_char_idx == 0 && a.last_input_text_area_width == 1
    &&& !a.libvirt_connected && !a.ollama_connected && !a.bedrock_connected
    &&& a.bedrock_model_view_mode.filters@.len() == 0 && a.bedrock_model_view_mode.sorters@.len() == 0
    &&& !a.show_keybindings_modal && a.menu_level == 0
    &&& a.keybinding_map@ == bindings_of(config.keybindings)
    &&& a.current_bedrock_filter@ == config.providers.bedrock.filters.default@
    &&& a.current_bedrock_sort@ == "alphabetical"@
}

impl App {
    /// A new interface over `config`; the first VM it proposes is named after the default
    /// image and a fresh random identifier, and `readme` is the README's text or why it
    /// could not be read.
    pub fn new(config: Config, readme: Result<String, String>) -> (r: App)
        ensures
            exists|id: Seq<char>| #![trigger is_initial_app(r, config, id, readme)]
                id.len() == 32 && (forall|i: int| 0 <= i < 32 ==> is_lower_hex(#[trigger] id[i]))
                    && is_initial_app(r, config, id, readme),
    {
        let id = fresh_vm_id();
        let r = App::new_with_vm_id(config, id.as_str(), readme);
        assert(is_initial_app(r, config, id@, readme));
        r
    }

    /// A new interface over `config` whose first proposed VM is named after the default
    /// image and `vm_id`.
    pub fn new_with_vm_id(config: Config, vm_id: &str, readme: Result<String, String>) -> (r: App)
        ensures
            is_initial_app(r, config, vm_id@, readme),
    {
        let prompts = match &config.providers.ollama.model_system_prompts {
            Some(m) => m.duplicate(),
            None => StringMap::new(),
        };
        let mut new_vm_name = config.defaults.default_vm_image.clone();
        push_char(&mut new_vm_name, '-');
        push_all(&mut new_vm_name, vm_id);
        let source = match &config.defaults.default_source_image {
            Some(p) => p.clone(),
            None => String::new(),
        };
        let mut cpu = String::new();
        push_decimal(&mut cpu, config.defaults.default_cpu as u64);
        let mut disk = String::new();
        push_decimal(&mut disk, config.defaults.default_disk_gb);
        let readme_content = match &readme {
            Ok(text) => readme_excerpt(text.as_str(), config.interface.about_modal_readme_lines),
            Err(e) => {
                let mut m = "Could not read README.md: ".to_string();
                push_all(&mut m, e.as_str());
                m
            },
        };
        let keybinding_map = parse_keybindings(&config.keybindings);
        let iso = config.defaults.default_vm_iso.clone();
        let ram = config.defaults.default_ram.clone();
        let filter = config.providers.bedrock.filters.default.clone();
        proof {
            assert(new_vm_name@ =~= config.defaults.default_vm_image@ + "-"@ + vm_id@) by {
                reveal_strlit("-");
            }
            assert(cpu@ =~= decimal(config.defaults.default_cpu as nat));
            assert(disk@ =~= decimal(config.defaults.default_disk_gb as nat));
        }
        App {
            should_quit: false,
            show_menu: false,
            menu_state: ListState::new(),
            show_about_modal: false,
            readme_content,
            ollama_models: Vec::new(),
            bedrock_models: Vec::new(),
            vms: Vec::new(),
            vm_list_state: ListState::new(),
            ollama_model_list_state: ListState::new(),
            bedrock_model_list_state: ListState::new(),
            config,
            active_view: AppView::VmList,
            input_mode: InputMode::Normal,
            current_input: String::new(),
            active_chat: None,
            log_entries: Vec::new(),
            log_list_state: ListState::new(),
            chat_list_state: ListState::new(),
            show_new_vm_popup: false,
            new_vm_name,
            new_vm_use_iso: true,
            new_vm_iso_path: iso,
            new_vm_source_image_path: source,
            new_vm_disk_path: String::new(),
            new_vm_cpu: cpu,
            new_vm_ram_mb: ram,
            new_vm_disk_gb: disk,
            active_new_vm_input_idx: 0,
            vm_to_destroy: None,
            editing_system_prompt_for_model: None,
            editable_ollama_model_prompts: prompts,
            input_bar_scroll: 0,
            input_bar_last_wrapped_line_count: 0,
            input_bar_visible_height: 1,
            input_bar_cursor_needs_to_be_visible: true,
            input_cursor_char_idx: 0,
            last_input_text_area_width: 1,
            libvirt_connected: false,
            ollama_connected: false,
            bedrock_connected: false,
            bedrock_model_view_mode: ListViewMode::new(),
            show_keybindings_modal: false,
            menu_level: 0,
            menu_sub_state: ListState::new(),
            keybinding_map,
            current_bedrock_filter: filter,
            current_bedrock_sort: "alphabetical".to_string(),
        }
    }
}

/// The selection of a list after its items were replaced by `len` new ones: none for an
/// empty list, the first item when nothing was selected, else unchanged.
pub open spec fn after_listing(s: ListState, len: nat) -> ListState {
    if len == 0 {
        selecting(s, None)
    } else if s.selected is None {
        selecting(s, Some(0usize))
    } else {
        s
    }
}

/// The most log entries the Logs view keeps.
pub const MAX_LOG_ENTRIES: usize = 1000;

/// The log entries kept of `all`: the newest `MAX_LOG_ENTRIES`.
pub open spec fn kept_logs(all: Seq<UILogEntry>) -> Seq<UILogEntry> {
    if all.len() > MAX_LOG_ENTRIES {
        all.subrange(all.len() - MAX_LOG_ENTRIES, all.len() as int)
    } else {
        all
    }
}

/// The log buffer holds at most `MAX_LOG_ENTRIES` records, and they are the newest ones,
/// in the order they came: however many arrive, the buffer keeps the last of them.
pub proof fn log_buffer_keeps_newest(all: Seq<UILogEntry>)
    ensures
        kept_logs(all).len() == (if all.len() > MAX_LOG_ENTRIES { MAX_LOG_ENTRIES as nat } else { all.len() }),
        forall|i: int| 0 <= i < kept_logs(all).len() ==> #[trigger] kept_logs(all)[i] == all[all.len() - kept_logs(all).len() + i],
{
}

/// Whether the Logs view follows the newest entry: nothing is selected, or the selection
/// is at or past the last of `len` entries.
pub open spec fn follows_newest(sel: Option<usize>, len: nat) -> bool {
    match sel {
        Some(i) => i >= (if len == 0 { 0 } else { len - 1 }),
        None => true,
    }
}

fn merge_logs(entries: Vec<UILogEntry>, incoming: Vec<UILogEntry>) -> (r: Vec<UILogEntry>)
    requires
        entries@.len() + incoming@.len() <= usize::MAX,
    ensures
        r@ == kept_logs(entries@ + incoming@),
{
    let mut entries = entries;
    let mut incoming = incoming;
    entries.append(&mut incoming);
    if entries.len() > MAX_LOG_ENTRIES {
        let overflow = entries.len() - MAX_LOG_ENTRIES;
        entries.split_off(overflow)
    } else {
        entries
    }
}

impl App {
    /// Takes in the outcome of asking libvirt for the VMs: whether it is connected, and
    /// the listing or why it failed. Without a connection or a listing the VM list empties.
    pub fn apply_vm_listing(&mut self, connected: bool, listing: Result<Vec<VmStatus>, String>)
        ensures
            final(self).libvirt_connected == connected,
            match listing {
                Ok(vms) => connected ==> final(self).vms@ == vms@,
                Err(_) => true,
            },
            (connected && listing is Ok) ==> final(self).vm_list_state == after_listing(
                old(self).vm_list_state,
                final(self).vms@.len(),
            ),
            !(connected && listing is Ok) ==> final(self).vms@.len() == 0
                && final(self).vm_list_state == selecting(old(self).vm_list_state, None),
            *final(self) == (App {
                libvirt_connected: connected,
                vms: final(self).vms,
                vm_list_state: final(self).vm_list_state,
                ..*old(self)
            }),
    {
        self.libvirt_connected = connected;
        if connected {
            match listing {
                Ok(vms) => {
                    self.vms = vms;
                    if self.vms.len() == 0 {
                        self.vm_list_state.select(None);
                    } else if self.vm_list_state.selected().is_none() {
                        self.vm_list_state.select(Some(0));
                    }
                },
                Err(_) => {
                    self.vms = Vec::new();
                    self.vm_list_state.select(None);
                },
            }
        } else {
            self.vms = Vec::new();
            self.vm_list_state.select(None);
        }
    }

    /// Takes in the outcome of asking Ollama for its local models: whether it is
    /// connected, and the models or why listing failed. A failed listing empties the model
    /// list; without a connection only the connection flag changes.
    pub fn apply_ollama_models(&mut self, connected: bool, listing: Result<Vec<LocalModel>, String>)
        ensures
            final(self).ollama_connected == connected,
            !connected ==> final(self).ollama_models == old(self).ollama_models
                && final(self).ollama_model_list_state == old(self).ollama_model_list_state,
            match listing {
                Ok(models) => connected ==> final(self).ollama_models@ == models@
                    && final(self).ollama_model_list_state == after_listing(
                    old(self).ollama_model_list_state,
                    models@.len(),
                ),
                Err(_) => connected ==> final(self).ollama_models@.len() == 0
                    && final(self).ollama_model_list_state == old(self).ollama_model_list_state,
            },
            *final(self) == (App {
                ollama_connected: connected,
                ollama_models: final(self).ollama_models,
                ollama_model_list_state: final(self).ollama_model_list_state,
                ..*old(self)
            }),
    {
        self.ollama_connected = connected;
        if connected {
            match listing {
                Ok(models) => {
                    self.ollama_models = models;
                    if self.ollama_models.len() == 0 {
                        self.ollama_model_list_state.select(None);
                    } else if self.ollama_model_list_state.selected().is_none() {
                        self.ollama_model_list_state.select(Some(0));
                    }
                },
                Err(_) => {
                    self.ollama_models = Vec::new();
                },
            }
        }
    }

    /// Takes in the outcome of asking Bedrock for its foundation models: whether it is
    /// connected, and the models or why listing failed. A failed listing changes nothing
    /// but the connection flag.
    pub fn apply_bedrock_models(&mut self, connected: bool, listing: Result<Vec<BedrockModelSummary>, String>)
        ensures
            final(self).bedrock_connected == connected,
            match listing {
                Ok(models) => connected ==> final(self).bedrock_models@ == models@
                    && final(self).bedrock_model_list_state == after_listing(
                    old(self).bedrock_model_list_state,
                    models@.len(),
                ),
                Err(_) => true,
            },
            !(connected && listing is Ok) ==> final(self).bedrock_models == old(self).bedrock_models
                && final(self).bedrock_model_list_state == old(self).bedrock_model_list_state,
            *final(self) == (App {
                bedrock_connected: connected,
                bedrock_models: final(self).bedrock_models,
                bedrock_model_list_state: final(self).bedrock_model_list_state,
                ..*old(self)
            }),
    {
        self.bedrock_connected = connected;
        if connected {
            match listing {
                Ok(models) => {
                    self.bedrock_models = models;
                    if self.bedrock_models.len() == 0 {
                        self.bedrock_model_list_state.select(None);
                    } else if self.bedrock_model_list_state.selected().is_none() {
                        self.bedrock_model_list_state.select(Some(0));
                    }
                },
                Err(_) => {},
            }
        }
    }

    /// Appends newly collected log entries, keeps the newest `MAX_LOG_ENTRIES`, and in the
    /// Logs view moves the selection to the newest entry when it was following the end.
    pub fn absorb_log_entries(&mut self, incoming: Vec<UILogEntry>)
        requires
            old(self).log_entries@.len() + incoming@.len() <= usize::MAX,
        ensures
            final(self).log_entries@ == kept_logs(old(self).log_entries@ + incoming@),
            final(self).log_list_state == (if old(self).active_view == AppView::Logs
                && follows_newest(old(self).log_list_state.selected, final(self).log_entries@.len())
                && final(self).log_entries@.len() > 0 {
                selecting(old(self).log_list_state, Some((final(self).log_entries@.len() - 1) as usize))
            } else {
                old(self).log_list_state
            }),
            *final(self) == (App {
                log_entries: final(self).log_entries,
                log_list_state: final(self).log_list_state,
                ..*old(self)
            }),
    {
        let mut entries: Vec<UILogEntry> = Vec::new();
        std::mem::swap(&mut entries, &mut self.log_entries);
        let entries = merge_logs(entries, incoming);
        let len = entries.len();
        self.log_entries = entries;
        if self.active_view == AppView::Logs {
            let at_bottom = match self.log_list_state.selected() {
                Some(index) => index >= (if len == 0 { 0 } else { len - 1 }),
                None => true,
            };
            if at_bottom && len > 0 {
                self.log_list_state.select(Some(len - 1));
            }
        }
    }
}

/// The refreshes asked for at each tick of the interface loop: VMs, Ollama models and
/// Bedrock models, in that order.
pub fn tick_requests() -> (r: Vec<AppEvent>)
    ensures
        r@ == seq![AppEvent::FetchVms, AppEvent::FetchOllamaModels, AppEvent::FetchBedrockModels],
{
    let mut v: Vec<AppEvent> = Vec::new();
    v.push(AppEvent::FetchVms);
    v.push(AppEvent::FetchOllamaModels);
    v.push(AppEvent::FetchBedrockModels);
    v
}

/// The requests that follow handling `event`: destroying or creating a VM asks for the
/// VM list again; nothing else asks for anything.
pub fn requests_after(event: &AppEvent) -> (r: Vec<AppEvent>)
    ensures
        r@ == (if event is DestroyVm || event is CreateVm {
            seq![AppEvent::FetchVms]
        } else {
            Seq::<AppEvent>::empty()
        }),
{
    let mut v: Vec<AppEvent> = Vec::new();
    match event {
        AppEvent::DestroyVm(_) => v.push(AppEvent::FetchVms),
        AppEvent::CreateVm(_) => v.push(AppEvent::FetchVms),
        _ => {},
    }
    v
}

/// The memory size in MB that the form's RAM text gives, or why it gives none.
pub open spec fn request_ram(ram: Seq<char>) -> Result<u64, NewVmError> {
    if ram_gb_overflows(uppercase_of(trim_spec(ram))) {
        Err(NewVmError::RamSizeTooLarge)
    } else {
        match ram_mb_from(uppercase_of(trim_spec(ram)), trim_spec(ram)) {
            Ok(n) => Ok(n),
            Err(_) => Err(NewVmError::InvalidRamSize),
        }
    }
}

/// Whether `c` is the VM that the form's contents describe: named after the form's name,
/// from its source image, booting its ISO when the box is ticked, with its CPU count, RAM
/// and disk size, under the default policies.
pub open spec fn describes_vm(req: NewVmRequest, c: VmConfig) -> bool {
    &&& c.instance_id@ == req.name@
    &&& c.base_image@ == req.source_image_path@
    &&& (match c.boot_iso {
        Some(p) => req.use_iso && p@ == req.iso_path@,
        None => !req.use_iso,
    })
    &&& Some(c.cpu_cores) == u32_value_of(req.cpu@)
    &&& Ok::<u64, NewVmError>(c.memory_mb) == request_ram(req.ram@)
    &&& c.disk_gb matches Some(d) && Ok::<u64, IntParseError>(d) == parse_u64_spec(req.disk_gb@)
    &&& c.network_policy@ == seq!['d', 'e', 'f', 'a', 'u', 'l', 't']
    &&& c.security_policy@ == seq!['d', 'e', 'f', 'a', 'u', 'l', 't']
    &&& c.custom_script is None && c.template_name is None && c.labels is None
}

/// Reads the new-VM form's contents into the VM to create. The CPU count must be a
/// decimal `u32`, the RAM a size as `parse_ram_str` reads it that fits in MB, and the disk
/// size a decimal `u64`; the first of these that fails is the error. The form's disk path
/// has no place in a `VmConfig`, which names the disk after the VM.
pub fn vm_config_from_request(req: &NewVmRequest) -> (r: Result<VmConfig, NewVmError>)
    ensures
        u32_value_of(req.cpu@) is None ==> r == Err::<VmConfig, NewVmError>(NewVmError::InvalidCpuCount),
        u32_value_of(req.cpu@) is Some ==> match request_ram(req.ram@) {
            Err(e) => r == Err::<VmConfig, NewVmError>(e),
            Ok(_) => if parse_u64_spec(req.disk_gb@) is Err {
                r == Err::<VmConfig, NewVmError>(NewVmError::InvalidDiskSize)
            } else {
                r matches Ok(c) && describes_vm(*req, c)
            },
        },
{
    let cpu_cores = match parse_u32_value(req.cpu.as_str()) {
        Some(n) => n,
        None => return Err(NewVmError::InvalidCpuCount),
    };
    let memory_mb = match try_parse_ram_str(req.ram.as_str()) {
        None => return Err(NewVmError::RamSizeTooLarge),
        Some(Err(_)) => return Err(NewVmError::InvalidRamSize),
        Some(Ok(n)) => n,
    };
    let disk_gb = match parse_u64(req.disk_gb.as_str()) {
        Ok(n) => n,
        Err(_) => return Err(NewVmError::InvalidDiskSize),
    };
    let boot_iso = if req.use_iso { Some(req.iso_path.clone()) } else { None };
    let network_policy = String::from_str("default");
    let security_policy = String::from_str("default");
    proof {
        reveal_strlit("default");
    }
    let c = VmConfig {
        instance_id: req.name.clone(),
        base_image: req.source_image_path.clone(),
        boot_iso,
        cpu_cores,
        memory_mb,
        disk_gb: Some(disk_gb),
        network_policy,
        security_policy,
        custom_script: None,
        template_name: None,
        labels: None,
    };
    assert(c.instance_id@ == req.name@);
    assert(c.base_image@ == req.source_image_path@);
    assert(Some(c.cpu_cores) == u32_value_of(req.cpu@));
    assert(Ok::<u64, NewVmError>(c.memory_mb) == request_ram(req.ram@));
    assert(c.network_policy@ == seq!['d', 'e', 'f', 'a', 'u', 'l', 't']);
    assert(describes_vm(*req, c));
    Ok(c)
}

} // verus!
