// The terminal interface over the environment manager: VM list, Ollama models, chat and
// logs, with a new-VM form, destruction confirmation and system-prompt editing. Handlers
// return what the runtime has to do (save the configuration, start a chat stream, create
// or destroy a VM) instead of doing it.
use vstd::prelude::*;
use crate::config::Config;
use crate::env_manager::{EnvironmentConfig, EnvironmentStatus, EnvironmentType};
use crate::ollama_manager::LocalModel;
use crate::string_map::StringMap;
use crate::text::{
    chars_of, decimal, parse_u64, parse_u64_spec, push_all, push_char, push_decimal, pop_char,
    string_from_chars, string_views, trim, trim_spec, to_uppercase, uppercase_of, ends_with,
    has_suffix, string_from_range, IntParseError, trim_start_spec, str_eq,
};
use crate::tui::keys::{KeyCode, KeyEvent, KeyModifiers, MouseEvent, MouseEventKind};
use crate::tui::list_state::{ListState, selecting};
use crate::clock::{is_clock_time, local_clock_time};
use crate::wrap::{total_chars, wrapped_lines, wrap_text};
use crate::vm_id::{fresh_vm_id, is_lower_hex};
pub use crate::tui::app::{InputMode, ChatMessage, ChatSession, UILogEntry, ChatStreamEvent};

verus! {

broadcast use vstd::string::group_string_axioms;

/// The views of this interface, in the order Tab visits them.
#[derive(Clone, Copy, Debug, PartialEq, Eq, Structural)]
pub enum TuiView {
    VmList,
    OllamaModelList,
    Chat,
    Logs,
}

/// The view that Tab goes to from `v`.
pub open spec fn tui_view_after(v: TuiView) -> TuiView {
    match v {
        TuiView::VmList => TuiView::OllamaModelList,
        TuiView::OllamaModelList => TuiView::Chat,
        TuiView::Chat => TuiView::Logs,
        TuiView::Logs => TuiView::VmList,
    }
}

/// The view that Shift-Tab goes to from `v`.
pub open spec fn tui_view_before(v: TuiView) -> TuiView {
    match v {
        TuiView::VmList => TuiView::Logs,
        TuiView::OllamaModelList => TuiView::VmList,
        TuiView::Chat => TuiView::OllamaModelList,
        TuiView::Logs => TuiView::Chat,
    }
}

/// Tab and Shift-Tab undo each other, and four Tabs come back to the starting view.
pub proof fn tui_views_cycle(v: TuiView)
    ensures
        tui_view_before(tui_view_after(v)) == v,
        tui_view_after(tui_view_before(v)) == v,
        tui_view_after(tui_view_after(tui_view_after(tui_view_after(v)))) == v,
{
}

/// What the runtime is asked to do after a key.
pub enum TuiAction {
    /// Save the configuration with these system prompts for the Ollama models; report
    /// back with `App::config_saved`.
    SaveSystemPrompts(StringMap<String>),
    /// Stream the model's answer to the chat so far, with a system prompt; the answer
    /// comes back through `App::on_tick`.
    StartChat { model_name: String, messages: Vec<ChatMessage>, system_prompt: String },
    /// Create this environment, then list the VMs again (`App::refresh_vms`).
    CreateEnvironment(EnvironmentConfig),
    /// Destroy the environment with this instance, then list the VMs again.
    DestroyEnvironment(String),
}

/// The state of the interface.
pub struct App {
    pub should_quit: bool,
    pub ollama_models: Vec<LocalModel>,
    pub vms: Vec<EnvironmentStatus>,
    pub vm_list_state: ListState,
    pub ollama_model_list_state: ListState,
    pub config: Config,
    pub active_view: TuiView,
    pub input_mode: InputMode,
    pub current_input: String,
    pub active_chat: Option<ChatSession>,
    pub log_entries: Vec<UILogEntry>,
    pub log_list_state: ListState,
    pub chat_list_state: ListState,
    pub show_new_vm_popup: bool,
    pub new_vm_name: String,
    pub new_vm_use_iso: bool,
    pub new_vm_iso_path: String,
    pub new_vm_source_image_path: String,
    pub new_vm_disk_path: String,
    pub new_vm_cpu: String,
    pub new_vm_ram_mb: String,
    pub new_vm_disk_gb: String,
    pub active_new_vm_input_idx: usize,
    pub vm_to_destroy: Option<String>,
    pub editing_system_prompt_for_model: Option<String>,
    pub editable_ollama_model_prompts: StringMap<String>,
    pub input_bar_scroll: u16,
    pub input_bar_last_wrapped_line_count: usize,
    pub input_bar_visible_height: u16,
    pub input_bar_cursor_needs_to_be_visible: bool,
    pub input_cursor_char_idx: usize,
    pub last_input_text_area_width: u16,
}

/// How listing the Ollama models went when the interface started.
pub enum OllamaStartup {
    /// The models listed.
    Models(Vec<LocalModel>),
    /// Listing failed (the failure is logged).
    Failed,
    /// There was no async runtime to list them in.
    NoRuntime,
}

/// The fallback system prompt of this interface.
pub open spec fn fallback_prompt() -> Seq<char> {
    "You are a helpful AI assistant."@
}

/// The system prompt in effect for a model here: the one being edited in this session,
/// else the configured default prompt, else the fallback prompt.
pub open spec fn tui_system_prompt(a: App, model_name: Seq<char>) -> Seq<char> {
    if a.editable_ollama_model_prompts@.contains_key(model_name) {
        a.editable_ollama_model_prompts@[model_name]@
    } else {
        match a.config.default_system_prompt {
            Some(p) => p@,
            None => fallback_prompt(),
        }
    }
}

/// A prompt edited in this session is the one in effect for its model, whatever the
/// configuration's default holds.
pub proof fn classic_edited_prompt_takes_precedence(a: App, model_name: Seq<char>)
    ensures
        a.editable_ollama_model_prompts@.contains_key(model_name)
            ==> tui_system_prompt(a, model_name) == a.editable_ollama_model_prompts@[model_name]@,
{
}

/// After Enter saves the prompt being edited for a model, the text saved is that model's
/// system prompt in effect.
pub proof fn classic_saved_prompt_takes_effect(a: App, b: App, k: KeyEvent, act: Option<TuiAction>)
    requires
        a.editing_system_prompt_for_model is Some,
        k.code == KeyCode::Enter,
        tui_key_handled(a, b, k, act),
    ensures
        tui_system_prompt(b, a.editing_system_prompt_for_model.unwrap()@) == a.current_input@,
{
    reveal(prompt_saved);
}

/// The text that `strip_ansi_escapes::strip_str` leaves of `s`: `s` without its ANSI
/// escape sequences.
pub uninterp spec fn ansi_stripped(s: Seq<char>) -> Seq<char>;

/// `strip_ansi_escapes::strip_str`: a text without its ANSI escape sequences.
#[verifier::external_body]
pub(crate) fn strip_ansi(s: &str) -> (r: String)
    ensures
        r@ == ansi_stripped(s@),
{
    strip_ansi_escapes::strip_str(s)
}

/// A list state with nothing selected, shown from its start.
pub open spec fn fresh_list(s: ListState) -> bool {
    s.offset == 0 && s.selected is None
}

/// The prompts a new interface starts editing from: those of the configuration, if any.
pub open spec fn configured_prompts(config: Config) -> Map<Seq<char>, String> {
    match config.providers.ollama.model_system_prompts {
        Some(m) => m@,
        None => Map::empty(),
    }
}

/// The model list a new interface starts with: the listed models, none when listing
/// failed, and a single stand-in entry explaining that there was no async runtime.
pub open spec fn startup_models(startup: OllamaStartup, models: Seq<LocalModel>) -> bool {
    match startup {
        OllamaStartup::Models(m) => models == m@,
        OllamaStartup::Failed => models.len() == 0,
        OllamaStartup::NoRuntime => {
            &&& models.len() == 1
            &&& models[0].name@ == "Tokio runtime error - No models loaded"@
            &&& models[0].modified_at@ == "N/A"@
            &&& models[0].size == 0
        },
    }
}

/// The state of a new interface over `config`, with `vm_id` naming its first proposed VM.
pub open spec fn is_new_tui(a: App, config: Config, vm_id: Seq<char>, startup: OllamaStartup, vms: Result<Vec<EnvironmentStatus>, String>) -> bool {
    &&& !a.should_quit
    &&& startup_models(startup, a.ollama_models@)
    &&& a.vms@ == (match vms {
        Ok(v) => v@,
        Err(_) => Seq::<EnvironmentStatus>::empty(),
    })
    &&& a.vm_list_state == (ListState { offset: 0, selected: if a.vms@.len() > 0 { Some(0usize) } else { None } })
    &&& a.ollama_model_list_state == (ListState {
        offset: 0,
        selected: if a.ollama_models@.len() > 0 { Some(0usize) } else { None },
    })
    &&& a.config == config
    &&& a.active_view == TuiView::VmList && a.input_mode == InputMode::Normal
    &&& a.current_input@.len() == 0 && a.active_chat is None && a.log_entries@.len() == 0
    &&& fresh_list(a.log_list_state) && fresh_list(a.chat_list_state)
    &&& !a.show_new_vm_popup
    &&& a.new_vm_name@ == config.defaults.default_vm_image@ + "-"@ + vm_id
    &&& a.new_vm_use_iso
    &&& a.new_vm_iso_path@ == config.defaults.default_vm_iso@
    &&& a.new_vm_source_image_path@ == (match config.defaults.default_source_image {
        Some(p) => p@,
        None => Seq::<char>::empty(),
    })
    &&& a.new_vm_disk_path@.len() == 0
    &&& a.new_vm_cpu@ == decimal(config.defaults.default_cpu as nat)
    &&& a.new_vm_ram_mb@ == config.defaults.default_ram@
    &&& a.new_vm_disk_gb@ == decimal(config.defaults.default_disk_gb as nat)
    &&& a.active_new_vm_input_idx == 0 && a.vm_to_destroy is None
    &&& a.editing_system_prompt_for_model is None
    &&& a.editable_ollama_model_prompts@ == configured_prompts(config)
    &&& a.input_bar_scroll == 0 && a.input_bar_last_wrapped_line_count == 0
    &&& a.input_bar_visible_height == 1 && a.input_bar_cursor_needs_to_be_visible
    &&& a.input_cursor_char_idx == 0 && a.last_input_text_area_width == 1
}

impl App {
    /// A new interface over `config`, given how listing the Ollama models and the VMs went;
    /// the first VM it proposes is named after the default image and a fresh random
    /// identifier. Where that VM's disk goes is left for the caller to fill in.
    pub fn new(config: Config, startup: OllamaStartup, vms: Result<Vec<EnvironmentStatus>, String>) -> (r: App)
        ensures
            exists|id: Seq<char>| #![trigger is_new_tui(r, config, id, startup, vms)]
                id.len() == 32 && (forall|i: int| 0 <= i < 32 ==> is_lower_hex(#[trigger] id[i]))
                    && is_new_tui(r, config, id, startup, vms),
    {
        let id = fresh_vm_id();
        let r = App::new_with_vm_id(config, id.as_str(), startup, vms);
        assert(is_new_tui(r, config, id@, startup, vms));
        r
    }

    /// A new interface whose first proposed VM is named after the default image and `vm_id`.
    pub fn new_with_vm_id(config: Config, vm_id: &str, startup: OllamaStartup, vms: Result<Vec<EnvironmentStatus>, String>) -> (r: App)
        ensures
            is_new_tui(r, config, vm_id@, startup, vms),
    {
        let prompts = match &config.providers.ollama.model_system_prompts {
            Some(m) => m.duplicate(),
            None => StringMap::new(),
        };
        let mut new_vm_name = config.defaults.default_vm_image.clone();
        push_char(&mut new_vm_name, '-');
        push_all(&mut new_vm_name, vm_id);
        let source = match &config.defaults.default_source_image {
            Some(p) => p.clone(),
            None => String::new(),
        };
        let mut cpu = String::new();
        push_decimal(&mut cpu, config.defaults.default_cpu as u64);
        let mut disk = String::new();
        push_decimal(&mut disk, config.defaults.default_disk_gb);
        let iso = config.defaults.default_vm_iso.clone();
        let ram = config.defaults.default_ram.clone();
        let models = match startup {
            OllamaStartup::Models(m) => m,
            OllamaStartup::Failed => Vec::new(),
            OllamaStartup::NoRuntime => {
                let mut m: Vec<LocalModel> = Vec::new();
                m.push(LocalModel {
                    name: "Tokio runtime error - No models loaded".to_string(),
                    modified_at: "N/A".to_string(),
                    size: 0,
                });
                m
            },
        };
        let vm_list = match vms {
            Ok(v) => v,
            Err(_) => Vec::new(),
        };
        let mut ollama_state = ListState::new();
        if models.len() > 0 {
            ollama_state.select(Some(0));
        }
        let mut vm_state = ListState::new();
        if vm_list.len() > 0 {
            vm_state.select(Some(0));
        }
        proof {
            assert(new_vm_name@ =~= config.defaults.default_vm_image@ + "-"@ + vm_id@) by {
                reveal_strlit("-");
            }
            assert(cpu@ =~= decimal(config.defaults.default_cpu as nat));
            assert(disk@ =~= decimal(config.defaults.default_disk_gb as nat));
        }
        App {
            should_quit: false,
            ollama_models: models,
            vms: vm_list,
            vm_list_state: vm_state,
            ollama_model_list_state: ollama_state,
            config,
            active_view: TuiView::VmList,
            input_mode: InputMode::Normal,
            current_input: String::new(),
            active_chat: None,
            log_entries: Vec::new(),
            log_list_state: ListState::new(),
            chat_list_state: ListState::new(),
            show_new_vm_popup: false,
            new_vm_name,
            new_vm_use_iso: true,
            new_vm_iso_path: iso,
            new_vm_source_image_path: source,
            new_vm_disk_path: String::new(),
            new_vm_cpu: cpu,
            new_vm_ram_mb: ram,
            new_vm_disk_gb: disk,
            active_new_vm_input_idx: 0,
            vm_to_destroy: None,
            editing_system_prompt_for_model: None,
            editable_ollama_model_prompts: prompts,
            input_bar_scroll: 0,
            input_bar_last_wrapped_line_count: 0,
            input_bar_visible_height: 1,
            input_bar_cursor_needs_to_be_visible: true,
            input_cursor_char_idx: 0,
            last_input_text_area_width: 1,
        }
    }

    /// The system prompt in effect for a model (see `tui_system_prompt`).
    pub fn get_active_system_prompt(&self, model_name: &str) -> (r: String)
        ensures
            r@ == tui_system_prompt(*self, model_name@),
    {
        match self.editable_ollama_model_prompts.get(model_name) {
            Some(p) => p.clone(),
            None => match &self.config.default_system_prompt {
                Some(p) => p.clone(),
                None => "You are a helpful AI assistant.".to_string(),
            },
        }
    }

    /// Takes in the outcome of listing the VMs: the listing, or none when it failed.
    pub fn refresh_vms(&mut self, listing: Result<Vec<EnvironmentStatus>, String>)
        ensures
            final(self).vms@ == (match listing {
                Ok(v) => v@,
                Err(_) => Seq::<EnvironmentStatus>::empty(),
            }),
            *final(self) == (App { vms: final(self).vms, ..*old(self) }),
    {
        match listing {
            Ok(v) => self.vms = v,
            Err(_) => self.vms = Vec::new(),
        }
    }

    /// Takes in whether saving the configuration with `prompts` worked; if it did, the
    /// interface's configuration holds those prompts from now on.
    pub fn config_saved(&mut self, prompts: StringMap<String>, saved: bool)
        ensures
            saved ==> final(self).config.providers.ollama.model_system_prompts == Some(prompts),
            saved ==> *final(self) == (App { config: final(self).config, ..*old(self) }),
            saved ==> final(self).config == (Config {
                providers: final(self).config.providers,
                ..old(self).config
            }),
            saved ==> final(self).config.providers == (crate::config::ProvidersConfig {
                ollama: final(self).config.providers.ollama,
                ..old(self).config.providers
            }),
            saved ==> final(self).config.providers.ollama == (crate::config::OllamaConfig {
                model_system_prompts: Some(prompts),
                ..old(self).config.providers.ollama
            }),
            !saved ==> *final(self) == *old(self),
    {
        if saved {
            self.config.providers.ollama.model_system_prompts = Some(prompts);
        }
    }
}

/// Whether a key moves through a list: the arrows up and down, page up and down, home, end.
pub open spec fn is_nav_key(code: KeyCode) -> bool {
    code == KeyCode::Up || code == KeyCode::Down || code == KeyCode::PageUp || code == KeyCode::PageDown
        || code == KeyCode::Home || code == KeyCode::End
}

/// The selection in the logs (`n` entries, at least one) after a navigation key: up and
/// down move one entry (from nothing selected, up goes to the last and down to the first),
/// page up and down move ten (page down from nothing to the tenth or the last), home and
/// end go to the first and the last.
pub open spec fn log_selection_after(sel: Option<usize>, n: nat, code: KeyCode) -> Option<usize> {
    let last = (n - 1) as usize;
    if code == KeyCode::Up {
        match sel {
            Some(s) => if s > 0 { Some((s - 1) as usize) } else { sel },
            None => Some(last),
        }
    } else if code == KeyCode::Down {
        match sel {
            Some(s) => if s < n - 1 { Some((s + 1) as usize) } else { sel },
            None => Some(0usize),
        }
    } else if code == KeyCode::PageUp {
        match sel {
            Some(s) => Some(if s >= 10 { (s - 10) as usize } else { 0usize }),
            None => Some(0usize),
        }
    } else if code == KeyCode::PageDown {
        match sel {
            Some(s) => Some(if s + 10 <= n - 1 { (s + 10) as usize } else { last }),
            None => Some(if 10 <= n - 1 { 10usize } else { last }),
        }
    } else if code == KeyCode::Home {
        Some(0usize)
    } else {
        Some(last)
    }
}

/// The selection in a chat of `n` messages (at least one) after a navigation key, counting
/// from the first message when nothing is selected: up and down move one message, page up
/// and down move ten, home and end go to the first and the last; all stop at the ends.
pub open spec fn chat_selection_after(sel: Option<usize>, n: nat, code: KeyCode) -> Option<usize> {
    let cur = match sel {
        Some(s) => s,
        None => 0usize,
    };
    let last = (n - 1) as usize;
    if code == KeyCode::Up {
        Some(if cur > 0 { (cur - 1) as usize } else { 0usize })
    } else if code == KeyCode::Down {
        Some(if cur < n - 1 { (cur + 1) as usize } else { last })
    } else if code == KeyCode::PageUp {
        Some(if cur >= 10 { (cur - 10) as usize } else { 0usize })
    } else if code == KeyCode::PageDown {
        Some(if cur + 10 <= n - 1 { (cur + 10) as usize } else { last })
    } else if code == KeyCode::Home {
        Some(0usize)
    } else {
        Some(last)
    }
}

/// Moving through the logs (`n` entries, at least one) always leaves an entry selected:
/// Home goes to the first and End to the last, Up and Down move one entry and stop at the
/// first and the last, and page up and down move ten and stop there.
pub proof fn log_navigation_moves_within(sel: Option<usize>, n: nat)
    requires
        1 <= n <= usize::MAX,
        sel matches Some(s) ==> s < n,
    ensures
        log_selection_after(sel, n, KeyCode::Home) == Some(0usize),
        log_selection_after(sel, n, KeyCode::End) == Some((n - 1) as usize),
        forall|code: KeyCode| is_nav_key(code) ==> (#[trigger] log_selection_after(sel, n, code) matches Some(j) && j < n),
        sel matches Some(s) ==> {
            &&& log_selection_after(sel, n, KeyCode::Down) == Some((if s + 1 < n { s + 1 } else { s as int }) as usize)
            &&& log_selection_after(sel, n, KeyCode::Up) == Some((if s > 0 { s - 1 } else { 0int }) as usize)
            &&& log_selection_after(sel, n, KeyCode::PageDown) == Some((if s + 10 < n { s + 10 } else { n - 1 }) as usize)
            &&& log_selection_after(sel, n, KeyCode::PageUp) == Some((if s >= 10 { s - 10 } else { 0int }) as usize)
        },
{
}

/// Moving through a chat (`n` messages, at least one) always leaves a message selected:
/// Home goes to the first and End to the last, and the other keys stop at the ends.
pub proof fn chat_navigation_moves_within(sel: Option<usize>, n: nat)
    requires
        1 <= n <= usize::MAX,
        sel matches Some(s) ==> s < n,
    ensures
        chat_selection_after(sel, n, KeyCode::Home) == Some(0usize),
        chat_selection_after(sel, n, KeyCode::End) == Some((n - 1) as usize),
        forall|code: KeyCode| is_nav_key(code) ==> (#[trigger] chat_selection_after(sel, n, code) matches Some(j) && j < n),
{
}

/// Whether the logs are shown, in normal mode, with entries to move through.
pub open spec fn logs_navigable(a: App) -> bool {
    a.active_view == TuiView::Logs && a.input_mode == InputMode::Normal && a.log_entries@.len() > 0
}

/// Whether the chat is shown, in normal mode, with messages to move through.
pub open spec fn chat_navigable(a: App) -> bool {
    &&& a.active_view == TuiView::Chat && a.input_mode == InputMode::Normal
    &&& a.active_chat matches Some(c) && c.messages@.len() > 0
}

/// The number of messages of the chat, if there is one.
pub open spec fn chat_len(a: App) -> nat {
    match a.active_chat {
        Some(c) => c.messages@.len(),
        None => 0,
    }
}

/// Whether a navigation key is taken by the logs or the chat (and goes no further).
pub open spec fn scroll_consumes(a: App, k: KeyEvent) -> bool {
    is_nav_key(k.code) && (logs_navigable(a) || chat_navigable(a))
}

/// The interface after a navigation key that the logs or the chat take.
#[verifier::opaque]
pub open spec fn after_scroll_key(a: App, k: KeyEvent) -> App {
    if logs_navigable(a) {
        App {
            log_list_state: selecting(a.log_list_state, log_selection_after(a.log_list_state.selected, a.log_entries@.len(), k.code)),
            ..a
        }
    } else {
        App {
            chat_list_state: selecting(a.chat_list_state, chat_selection_after(a.chat_list_state.selected, chat_len(a), k.code)),
            ..a
        }
    }
}

/// Whether page down can be taken without overflow.
pub open spec fn scroll_key_safe(a: App, k: KeyEvent) -> bool {
    k.code == KeyCode::PageDown ==> {
        &&& (logs_navigable(a) ==> (a.log_list_state.selected matches Some(s) ==> s + 10 <= usize::MAX))
        &&& (chat_navigable(a) ==> (a.chat_list_state.selected matches Some(s) ==> s + 10 <= usize::MAX))
    }
}

fn log_selection(sel: Option<usize>, n: usize, code: KeyCode) -> (r: Option<usize>)
    requires
        n > 0,
        code == KeyCode::PageDown ==> (sel matches Some(s) ==> s + 10 <= usize::MAX),
    ensures
        r == log_selection_after(sel, n as nat, code),
{
    let last = n - 1;
    if code == KeyCode::Up {
        match sel {
            Some(s) => if s > 0 { Some(s - 1) } else { sel },
            None => Some(last),
        }
    } else if code == KeyCode::Down {
        match sel {
            Some(s) => if s < last { Some(s + 1) } else { sel },
            None => Some(0),
        }
    } else if code == KeyCode::PageUp {
        match sel {
            Some(s) => Some(s.saturating_sub(10)),
            None => Some(0),
        }
    } else if code == KeyCode::PageDown {
        match sel {
            Some(s) => Some(if s + 10 <= last { s + 10 } else { last }),
            None => Some(if 10 <= last { 10 } else { last }),
        }
    } else if code == KeyCode::Home {
        Some(0)
    } else {
        Some(last)
    }
}

fn chat_selection(sel: Option<usize>, n: usize, code: KeyCode) -> (r: Option<usize>)
    requires
        n > 0,
        code == KeyCode::PageDown ==> (sel matches Some(s) ==> s + 10 <= usize::MAX),
    ensures
        r == chat_selection_after(sel, n as nat, code),
{
    let cur = match sel {
        Some(s) => s,
        None => 0,
    };
    let last = n - 1;
    if code == KeyCode::Up {
        Some(if cur > 0 { cur - 1 } else { 0 })
    } else if code == KeyCode::Down {
        Some(if cur < last { cur + 1 } else { last })
    } else if code == KeyCode::PageUp {
        Some(cur.saturating_sub(10))
    } else if code == KeyCode::PageDown {
        Some(if cur + 10 <= last { cur + 10 } else { last })
    } else if code == KeyCode::Home {
        Some(0)
    } else {
        Some(last)
    }
}

fn nav_key(code: KeyCode) -> (r: bool)
    ensures
        r == is_nav_key(code),
{
    code == KeyCode::Up || code == KeyCode::Down || code == KeyCode::PageUp || code == KeyCode::PageDown
        || code == KeyCode::Home || code == KeyCode::End
}

fn chat_messages_len(app: &App) -> (r: usize)
    ensures
        r == chat_len(*app),
{
    match &app.active_chat {
        Some(c) => c.messages.len(),
        None => 0,
    }
}

/// Lets the logs or the chat take a navigation key; says whether they did.
fn scroll_with_key(app: &mut App, key_event: &KeyEvent) -> (consumed: bool)
    requires
        scroll_key_safe(*old(app), *key_event),
    ensures
        consumed == scroll_consumes(*old(app), *key_event),
        consumed ==> *final(app) == after_scroll_key(*old(app), *key_event),
        !consumed ==> *final(app) == *old(app),
{
    proof {
        reveal(after_scroll_key);
    }
    if !nav_key(key_event.code) || !(app.input_mode == InputMode::Normal) {
        return false;
    }
    if app.active_view == TuiView::Logs && app.log_entries.len() > 0 {
        let sel = log_selection(app.log_list_state.selected(), app.log_entries.len(), key_event.code);
        app.log_list_state.select(sel);
        return true;
    }
    let n = chat_messages_len(app);
    if app.active_view == TuiView::Chat && n > 0 {
        let sel = chat_selection(app.chat_list_state.selected(), n, key_event.code);
        app.chat_list_state.select(sel);
        return true;
    }
    false
}

/// The number of characters in the first `k` lines.
pub open spec fn chars_before(lines: Seq<Seq<char>>, k: int) -> int
    decreases k,
{
    if k <= 0 || k > lines.len() {
        0
    } else {
        chars_before(lines, k - 1) + lines[k - 1].len()
    }
}

/// The line and column of the cursor among wrapped lines, looking from line `i` on: the
/// first line whose end is at or past the cursor; line 0, column 0 when there is none.
pub open spec fn first_line_at(lines: Seq<Seq<char>>, cursor: int, i: int) -> (int, int)
    decreases lines.len() - i,
{
    if i < 0 || i >= lines.len() {
        (0, 0)
    } else if cursor <= chars_before(lines, i) + lines[i].len() {
        (i, cursor - chars_before(lines, i))
    } else {
        first_line_at(lines, cursor, i + 1)
    }
}

/// The line and column of the cursor among wrapped lines; a cursor at the end of the text
/// (`total` characters) is at the end of the last line.
pub open spec fn cursor_line(lines: Seq<Seq<char>>, cursor: int, total: int) -> (int, int) {
    if cursor == total && lines.len() > 0 {
        (lines.len() - 1, lines.last().len() as int)
    } else {
        first_line_at(lines, cursor, 0)
    }
}

/// The cursor on line `t` at column `col`, or at the line's end if it is shorter.
pub open spec fn cursor_on_line(lines: Seq<Seq<char>>, t: int, col: int) -> int {
    chars_before(lines, t) + if col <= lines[t].len() { col } else { lines[t].len() as int }
}

/// The cursor after moving up a wrapped line, keeping its column where the line allows;
/// on the first line it stays.
pub open spec fn cursor_after_up(lines: Seq<Seq<char>>, cursor: int, total: int) -> int {
    let (li, col) = cursor_line(lines, cursor, total);
    if li > 0 { cursor_on_line(lines, li - 1, col) } else { cursor }
}

/// The cursor after moving down a wrapped line, keeping its column where the line allows;
/// on the last line it stays.
pub open spec fn cursor_after_down(lines: Seq<Seq<char>>, cursor: int, total: int) -> int {
    let (li, col) = cursor_line(lines, cursor, total);
    if li < lines.len() - 1 { cursor_on_line(lines, li + 1, col) } else { cursor }
}

proof fn lemma_chars_before_nonneg(lines: Seq<Seq<char>>, k: int)
    ensures
        0 <= chars_before(lines, k),
    decreases k,
{
    if k > 0 && k <= lines.len() {
        lemma_chars_before_nonneg(lines, k - 1);
    }
}

proof fn lemma_chars_before_mono(lines: Seq<Seq<char>>, i: int, k: int)
    requires
        0 <= i <= k <= lines.len(),
    ensures
        chars_before(lines, i) <= chars_before(lines, k),
        0 <= chars_before(lines, i),
    decreases k - i,
{
    lemma_chars_before_nonneg(lines, i);
    if k > i {
        lemma_chars_before_mono(lines, i, k - 1);
    }
}

proof fn lemma_first_line_bounds(lines: Seq<Seq<char>>, cursor: int, i: int)
    requires
        0 <= i,
        i <= lines.len(),
        cursor >= chars_before(lines, i),
    ensures
        0 <= first_line_at(lines, cursor, i).0 < lines.len() || (first_line_at(lines, cursor, i) == (0int, 0int)),
        0 <= first_line_at(lines, cursor, i).1,
        first_line_at(lines, cursor, i).0 > 0 ==> first_line_at(lines, cursor, i).0 < lines.len(),
    decreases lines.len() - i,
{
    if i < lines.len() && !(cursor <= chars_before(lines, i) + lines[i].len()) {
        lemma_first_line_bounds(lines, cursor, i + 1);
    }
}

/// Whether the wrapped lines hold few enough characters in all to count them in a `usize`.
pub open spec fn lines_countable(lines: Seq<Seq<char>>) -> bool {
    chars_before(lines, lines.len() as int) <= usize::MAX
}

/// Whether the cursor of the input bar is within its text: a character position, at most
/// the text's end.
pub open spec fn cursor_within_text(a: App) -> bool {
    a.input_cursor_char_idx <= a.current_input@.len()
}

proof fn lemma_chars_before_total(lines: Seq<Seq<char>>, k: int)
    requires
        0 <= k <= lines.len(),
    ensures
        chars_before(lines, k) == total_chars(lines.subrange(0, k)),
    decreases k,
{
    if k > 0 {
        lemma_chars_before_total(lines, k - 1);
        let s = lines.subrange(0, k);
        assert(s.drop_last() =~= lines.subrange(0, k - 1));
        assert(s.last() == lines[k - 1]);
    } else {
        assert(lines.subrange(0, 0).len() == 0);
    }
}

proof fn lemma_cursor_on_line_bounds(lines: Seq<Seq<char>>, t: int, col: int)
    requires
        0 <= t < lines.len(),
        0 <= col,
    ensures
        0 <= cursor_on_line(lines, t, col) <= chars_before(lines, lines.len() as int),
{
    lemma_chars_before_mono(lines, t, t + 1);
    lemma_chars_before_mono(lines, t + 1, lines.len() as int);
}

/// Moving the cursor up or down a line of the wrapped text leaves it within the text, when
/// the lines hold no more characters than the text.
proof fn lemma_vertical_move_bounds(lines: Seq<Seq<char>>, cursor: int, total: int)
    requires
        0 <= cursor <= total,
        chars_before(lines, lines.len() as int) <= total,
    ensures
        0 <= cursor_after_up(lines, cursor, total) <= total,
        0 <= cursor_after_down(lines, cursor, total) <= total,
{
    lemma_first_line_bounds(lines, cursor, 0);
    let (li, col) = cursor_line(lines, cursor, total);
    if li > 0 {
        lemma_cursor_on_line_bounds(lines, li - 1, col);
    }
    if li < lines.len() - 1 {
        lemma_cursor_on_line_bounds(lines, li + 1, col);
    }
}

fn char_count(s: &String) -> (r: usize)
    ensures
        r == s@.len(),
{
    chars_of(s.as_str()).len()
}

/// Whether the lines hold few enough characters in all to count them in a `usize`.
pub fn lines_fit(lines: &Vec<String>) -> (r: bool)
    ensures
        r == lines_countable(string_views(lines@)),
{
    let ghost ls = string_views(lines@);
    let mut total: usize = 0;
    let mut i: usize = 0;
    while i < lines.len()
        invariant
            ls == string_views(lines@),
            i <= lines@.len(),
            total == chars_before(ls, i as int),
        decreases lines@.len() - i,
    {
        let n = char_count(&lines[i]);
        assert(ls[i as int] == lines@[i as int]@);
        if total > usize::MAX - n {
            proof {
                lemma_chars_before_mono(ls, i + 1, ls.len() as int);
            }
            return false;
        }
        total = total + n;
        i = i + 1;
    }
    true
}

fn line_at_cursor(lines: &Vec<String>, cursor: usize, total: usize) -> (r: (usize, usize))
    requires
        lines_countable(string_views(lines@)),
    ensures
        r.0 as int == cursor_line(string_views(lines@), cursor as int, total as int).0,
        r.1 as int == cursor_line(string_views(lines@), cursor as int, total as int).1,
{
    let ghost ls = string_views(lines@);
    if cursor == total && lines.len() > 0 {
        let last = lines.len() - 1;
        let n = char_count(&lines[last]);
        assert(ls.last() == lines@[last as int]@);
        return (last, n);
    }
    let mut abs: usize = 0;
    let mut i: usize = 0;
    while i < lines.len()
        invariant
            ls == string_views(lines@),
            lines_countable(ls),
            i <= lines@.len(),
            abs == chars_before(ls, i as int),
            abs <= cursor,
            !(cursor == total && lines@.len() > 0),
            first_line_at(ls, cursor as int, 0) == first_line_at(ls, cursor as int, i as int),
        decreases lines@.len() - i,
    {
        let n = char_count(&lines[i]);
        assert(ls[i as int] == lines@[i as int]@);
        proof {
            lemma_chars_before_mono(ls, i + 1, ls.len() as int);
        }
        if cursor <= abs + n {
            return (i, cursor - abs);
        }
        abs = abs + n;
        i = i + 1;
    }
    (0, 0)
}

fn cursor_at_line(lines: &Vec<String>, t: usize, col: usize) -> (r: usize)
    requires
        t < lines@.len(),
        lines_countable(string_views(lines@)),
    ensures
        r as int == cursor_on_line(string_views(lines@), t as int, col as int),
{
    let ghost ls = string_views(lines@);
    let mut abs: usize = 0;
    let mut i: usize = 0;
    proof {
        lemma_chars_before_mono(ls, t + 1, ls.len() as int);
    }
    while i < t
        invariant
            ls == string_views(lines@),
            t < ls.len(),
            chars_before(ls, t + 1) <= usize::MAX,
            i <= t,
            abs == chars_before(ls, i as int),
        decreases t - i,
    {
        assert(ls[i as int] == lines@[i as int]@);
        proof {
            lemma_chars_before_mono(ls, i + 1, t as int);
            lemma_chars_before_mono(ls, t as int, t + 1);
        }
        abs = abs + char_count(&lines[i]);
        i = i + 1;
    }
    let n = char_count(&lines[t]);
    assert(ls[t as int] == lines@[t as int]@);
    abs + if col <= n { col } else { n }
}

/// The cursor after moving up a wrapped line (see `cursor_after_up`).
pub fn cursor_up(lines: &Vec<String>, cursor: usize, total: usize) -> (r: usize)
    requires
        lines_countable(string_views(lines@)),
    ensures
        r as int == cursor_after_up(string_views(lines@), cursor as int, total as int),
{
    let (li, col) = line_at_cursor(lines, cursor, total);
    if li > 0 {
        proof {
            let ls = string_views(lines@);
            if !(cursor == total && lines@.len() > 0) {
                lemma_first_line_bounds(ls, cursor as int, 0);
            }
        }
        cursor_at_line(lines, li - 1, col)
    } else {
        cursor
    }
}

/// The cursor after moving down a wrapped line (see `cursor_after_down`).
pub fn cursor_down(lines: &Vec<String>, cursor: usize, total: usize) -> (r: usize)
    requires
        lines_countable(string_views(lines@)),
    ensures
        r as int == cursor_after_down(string_views(lines@), cursor as int, total as int),
{
    let (li, col) = line_at_cursor(lines, cursor, total);
    if lines.len() > 0 && li < lines.len() - 1 {
        cursor_at_line(lines, li + 1, col)
    } else {
        cursor
    }
}

/// Whether modifiers are none or Shift alone, as typing a character allows.
pub open spec fn typing_modifiers(m: KeyModifiers) -> bool {
    m.bits == 0 || m.bits == 1
}

/// Whether `b` is `a` after typing `c` into the input bar: it goes in at the cursor (a
/// character position) and the cursor moves on, when the cursor is within the text.
#[verifier::opaque]
pub open spec fn typed(a: App, b: App, c: char) -> bool {
    if a.input_cursor_char_idx <= a.current_input@.len() {
        &&& b == (App {
            current_input: b.current_input,
            input_cursor_char_idx: (a.input_cursor_char_idx + 1) as usize,
            input_bar_cursor_needs_to_be_visible: true,
            ..a
        })
        &&& b.current_input@ == a.current_input@.insert(a.input_cursor_char_idx as int, c)
    } else {
        b == (App { input_bar_cursor_needs_to_be_visible: true, ..a })
    }
}

/// Whether `b` is `a` after Backspace in the input bar: the character before the cursor
/// goes and the cursor moves back, when the cursor is past the start and within the text.
#[verifier::opaque]
pub open spec fn backspaced(a: App, b: App) -> bool {
    if 0 < a.input_cursor_char_idx <= a.current_input@.len() {
        &&& b == (App {
            current_input: b.current_input,
            input_cursor_char_idx: (a.input_cursor_char_idx - 1) as usize,
            input_bar_cursor_needs_to_be_visible: true,
            ..a
        })
        &&& b.current_input@ == a.current_input@.remove(a.input_cursor_char_idx - 1)
    } else {
        b == (App { input_bar_cursor_needs_to_be_visible: true, ..a })
    }
}

/// The interface after Left in the input bar: the cursor moves back one, if it can.
#[verifier::opaque]
pub open spec fn moved_left(a: App) -> App {
    App {
        input_cursor_char_idx: if a.input_cursor_char_idx > 0 {
            (a.input_cursor_char_idx - 1) as usize
        } else {
            a.input_cursor_char_idx
        },
        input_bar_cursor_needs_to_be_visible: true,
        ..a
    }
}

/// The interface after Right in the input bar: the cursor moves on one, within the text.
#[verifier::opaque]
pub open spec fn moved_right(a: App) -> App {
    App {
        input_cursor_char_idx: if a.input_cursor_char_idx < a.current_input@.len() {
            (a.input_cursor_char_idx + 1) as usize
        } else {
            a.input_cursor_char_idx
        },
        input_bar_cursor_needs_to_be_visible: true,
        ..a
    }
}

/// Whether `b` is `a` after Up (`up`) or Down in the system-prompt editor: the cursor moves
/// to the wrapped line above or below at the same column where the line allows (see
/// `cursor_after_up` and `cursor_after_down`), the text wrapped at the input bar's last
/// width. With no wrapped lines (or a single one, for Down) nothing at all happens; with
/// no width or no text only the cursor is to be kept visible. The cursor stays if the
/// lines hold more characters than a `usize` counts.
#[verifier::opaque]
pub open spec fn moved_vertically(a: App, b: App, up: bool) -> bool {
    if a.last_input_text_area_width > 0 && a.current_input@.len() > 0 {
        let lines = wrapped_lines(a.current_input@, a.last_input_text_area_width as nat);
        if lines.len() == 0 || (!up && lines.len() == 1) {
            b == a
        } else {
            let total = a.current_input@.len() as int;
            let cursor = a.input_cursor_char_idx as int;
            b == (App {
                input_cursor_char_idx: if lines_countable(lines) {
                    (if up { cursor_after_up(lines, cursor, total) } else { cursor_after_down(lines, cursor, total) }) as usize
                } else {
                    a.input_cursor_char_idx
                },
                input_bar_cursor_needs_to_be_visible: true,
                ..a
            })
        }
    } else {
        b == (App { input_bar_cursor_needs_to_be_visible: true, ..a })
    }
}

/// Whether `b` and the request `act` follow Enter in the system-prompt editor: the edited
/// prompt is stored for its model, the configuration is to be saved with all edited
/// prompts, and the editor closes with an empty input bar.
#[verifier::opaque]
pub open spec fn prompt_saved(a: App, b: App, act: Option<TuiAction>) -> bool {
    match a.editing_system_prompt_for_model {
        Some(name) => {
            &&& b == (App {
                editable_ollama_model_prompts: b.editable_ollama_model_prompts,
                editing_system_prompt_for_model: None,
                current_input: b.current_input,
                input_mode: InputMode::Normal,
                input_bar_cursor_needs_to_be_visible: true,
                input_bar_scroll: 0,
                input_cursor_char_idx: 0,
                ..a
            })
            &&& b.editable_ollama_model_prompts@ == a.editable_ollama_model_prompts@.insert(name@, a.current_input)
            &&& b.current_input@.len() == 0
            &&& act matches Some(TuiAction::SaveSystemPrompts(m)) && m@ == b.editable_ollama_model_prompts@
        },
        None => b == a && act is None,
    }
}

/// Whether `b` is `a` after Esc in the system-prompt editor: it closes without storing,
/// emptying the input bar.
#[verifier::opaque]
pub open spec fn prompt_dropped(a: App, b: App) -> bool {
    &&& b == (App {
        editing_system_prompt_for_model: None,
        current_input: b.current_input,
        input_mode: InputMode::Normal,
        input_bar_cursor_needs_to_be_visible: true,
        input_bar_scroll: 0,
        input_cursor_char_idx: 0,
        ..a
    })
    &&& b.current_input@.len() == 0
}

/// Whether `b` and `act` follow a key in the system-prompt editor: Enter saves and Esc
/// drops the edit whatever the modifiers; characters (alone or with Shift) are typed;
/// Backspace, Left, Right, Up and Down (without modifiers) edit and move; other keys do
/// nothing.
pub open spec fn prompt_edited(a: App, b: App, k: KeyEvent, act: Option<TuiAction>) -> bool {
    let plain = k.modifiers.bits == 0;
    match k.code {
        KeyCode::Enter => prompt_saved(a, b, act),
        KeyCode::Esc => prompt_dropped(a, b) && act is None,
        KeyCode::Char(c) => act is None && if typing_modifiers(k.modifiers) { typed(a, b, c) } else { b == a },
        KeyCode::Backspace => act is None && if plain { backspaced(a, b) } else { b == a },
        KeyCode::Left => act is None && if plain { b == moved_left(a) } else { b == a },
        KeyCode::Right => act is None && if plain { b == moved_right(a) } else { b == a },
        KeyCode::Up => act is None && if plain { moved_vertically(a, b, true) } else { b == a },
        KeyCode::Down => act is None && if plain { moved_vertically(a, b, false) } else { b == a },
        _ => b == a && act is None,
    }
}

fn type_char(app: &mut App, c: char)
    requires
        old(app).input_cursor_char_idx <= old(app).current_input@.len() ==> old(app).input_cursor_char_idx < usize::MAX,
    ensures
        typed(*old(app), *final(app), c),
{
    proof {
        reveal(typed);
    }
    let mut chars = chars_of(app.current_input.as_str());
    if app.input_cursor_char_idx <= chars.len() {
        chars.insert(app.input_cursor_char_idx, c);
        app.current_input = string_from_chars(&chars);
        app.input_cursor_char_idx = app.input_cursor_char_idx + 1;
    }
    app.input_bar_cursor_needs_to_be_visible = true;
}

fn backspace(app: &mut App)
    ensures
        backspaced(*old(app), *final(app)),
{
    proof {
        reveal(backspaced);
    }
    if app.input_cursor_char_idx > 0 {
        let mut chars = chars_of(app.current_input.as_str());
        if app.input_cursor_char_idx <= chars.len() {
            chars.remove(app.input_cursor_char_idx - 1);
            app.current_input = string_from_chars(&chars);
            app.input_cursor_char_idx = app.input_cursor_char_idx - 1;
        }
    }
    app.input_bar_cursor_needs_to_be_visible = true;
}

fn move_left(app: &mut App)
    ensures
        *final(app) == moved_left(*old(app)),
{
    proof {
        reveal(moved_left);
    }
    if app.input_cursor_char_idx > 0 {
        app.input_cursor_char_idx = app.input_cursor_char_idx - 1;
    }
    app.input_bar_cursor_needs_to_be_visible = true;
}

fn move_right(app: &mut App)
    ensures
        *final(app) == moved_right(*old(app)),
{
    proof {
        reveal(moved_right);
    }
    let n = char_count(&app.current_input);
    if app.input_cursor_char_idx < n {
        app.input_cursor_char_idx = app.input_cursor_char_idx + 1;
    }
    app.input_bar_cursor_needs_to_be_visible = true;
}

fn move_vertically(app: &mut App, up: bool)
    ensures
        moved_vertically(*old(app), *final(app), up),
        cursor_within_text(*old(app)) ==> cursor_within_text(*final(app)),
{
    proof {
        reveal(moved_vertically);
    }
    if app.last_input_text_area_width > 0 && !app.current_input.as_str().is_empty() {
        let lines = wrap_text(app.current_input.as_str(), app.last_input_text_area_width as usize);
        if lines.len() == 0 || (!up && lines.len() == 1) {
            return;
        }
        if lines_fit(&lines) {
            let total = char_count(&app.current_input);
            proof {
                let ls = string_views(lines@);
                lemma_chars_before_total(ls, ls.len() as int);
                assert(ls.subrange(0, ls.len() as int) =~= ls);
                if cursor_within_text(*app) {
                    lemma_vertical_move_bounds(ls, app.input_cursor_char_idx as int, total as int);
                }
            }
            let cursor = if up {
                cursor_up(&lines, app.input_cursor_char_idx, total)
            } else {
                cursor_down(&lines, app.input_cursor_char_idx, total)
            };
            app.input_cursor_char_idx = cursor;
        }
    }
    app.input_bar_cursor_needs_to_be_visible = true;
}

fn save_prompt(app: &mut App) -> (act: Option<TuiAction>)
    ensures
        prompt_saved(*old(app), *final(app), act),
{
    proof {
        reveal(prompt_saved);
    }
    match app.editing_system_prompt_for_model.take() {
        Some(model_name) => {
            let text = app.current_input.clone();
            app.editable_ollama_model_prompts.insert(model_name, text);
            let prompts = app.editable_ollama_model_prompts.duplicate();
            app.current_input = String::new();
            app.input_mode = InputMode::Normal;
            app.input_bar_cursor_needs_to_be_visible = true;
            app.input_bar_scroll = 0;
            app.input_cursor_char_idx = 0;
            Some(TuiAction::SaveSystemPrompts(prompts))
        },
        None => None,
    }
}

fn drop_prompt(app: &mut App)
    ensures
        prompt_dropped(*old(app), *final(app)),
{
    proof {
        reveal(prompt_dropped);
    }
    app.editing_system_prompt_for_model = None;
    app.current_input = String::new();
    app.input_mode = InputMode::Normal;
    app.input_bar_cursor_needs_to_be_visible = true;
    app.input_bar_scroll = 0;
    app.input_cursor_char_idx = 0;
}

fn edit_prompt_key(app: &mut App, key_event: &KeyEvent) -> (act: Option<TuiAction>)
    requires
        old(app).input_cursor_char_idx <= old(app).current_input@.len() ==> old(app).input_cursor_char_idx < usize::MAX,
    ensures
        prompt_edited(*old(app), *final(app), *key_event, act),
        cursor_within_text(*old(app)) ==> cursor_within_text(*final(app)),
{
    let ghost before = *app;
    let plain = key_event.modifiers.bits == 0;
    let act = match key_event.code {
        KeyCode::Enter => save_prompt(app),
        KeyCode::Esc => {
            drop_prompt(app);
            None
        },
        KeyCode::Char(c) => {
            if key_event.modifiers.bits == 0 || key_event.modifiers.bits == 1 {
                type_char(app, c);
            }
            None
        },
        KeyCode::Backspace => {
            if plain {
                backspace(app);
            }
            None
        },
        KeyCode::Left => {
            if plain {
                move_left(app);
            }
            None
        },
        KeyCode::Right => {
            if plain {
                move_right(app);
            }
            None
        },
        KeyCode::Up => {
            if plain {
                move_vertically(app, true);
            }
            None
        },
        KeyCode::Down => {
            if plain {
                move_vertically(app, false);
            }
            None
        },
        _ => None,
    };
    proof {
        if cursor_within_text(before) && key_event.code != KeyCode::Up && key_event.code != KeyCode::Down {
            lemma_prompt_edit_keeps_cursor_within_text(before, *app, *key_event, act);
        }
    }
    act
}

/// The selection after stepping through a list of `len` items in this interface: an
/// empty list keeps its selection; otherwise as `index_after` and `index_before`.
pub open spec fn stepped(s: ListState, len: nat, forward: bool) -> ListState {
    if len == 0 {
        s
    } else if forward {
        selecting(s, crate::tui::app::index_after(s.selected, len))
    } else {
        selecting(s, crate::tui::app::index_before(s.selected, len))
    }
}

/// The interface after stepping through the VM list.
#[verifier::opaque]
pub open spec fn vm_stepped(a: App, forward: bool) -> App {
    App { vm_list_state: stepped(a.vm_list_state, a.vms@.len(), forward), ..a }
}

/// The interface after stepping through the Ollama model list.
#[verifier::opaque]
pub open spec fn model_stepped(a: App, forward: bool) -> App {
    App { ollama_model_list_state: stepped(a.ollama_model_list_state, a.ollama_models@.len(), forward), ..a }
}

/// The selection a list goes back to when the view changes: its first item, if any.
pub open spec fn first_or_none(len: nat) -> Option<usize> {
    if len == 0 { None } else { Some(0usize) }
}

/// The interface after Tab (`forward`) or Shift-Tab: the next or previous view, and both
/// lists back at their first item.
#[verifier::opaque]
pub open spec fn tabbed(a: App, forward: bool) -> App {
    App {
        active_view: if forward { tui_view_after(a.active_view) } else { tui_view_before(a.active_view) },
        vm_list_state: selecting(a.vm_list_state, first_or_none(a.vms@.len())),
        ollama_model_list_state: selecting(a.ollama_model_list_state, first_or_none(a.ollama_models@.len())),
        ..a
    }
}

/// The interface about to quit.
#[verifier::opaque]
pub open spec fn quitting(a: App) -> App {
    App { should_quit: true, ..a }
}

/// The interface in the new-VM form, at its first field.
#[verifier::opaque]
pub open spec fn wizard_begun(a: App) -> App {
    App { input_mode: InputMode::VmWizard, active_new_vm_input_idx: 0, ..a }
}

/// The interface asking to confirm destroying the selected VM, if a VM is selected.
#[verifier::opaque]
pub open spec fn destroy_requested(a: App) -> App {
    match a.vm_list_state.selected {
        Some(i) => if i < a.vms@.len() {
            App { vm_to_destroy: Some(a.vms@[i as int].instance_id), input_mode: InputMode::ConfirmingDestroy, ..a }
        } else {
            a
        },
        None => a,
    }
}

/// Whether `b` is `a` after `i`: on the Ollama model list, the selected model's system
/// prompt goes into the input bar for editing with the cursor at its end (nothing happens
/// without a selected model); elsewhere the input bar starts editing with the cursor at the
/// end of its text.
#[verifier::opaque]
pub open spec fn editing_begun(a: App, b: App) -> bool {
    if a.active_view == TuiView::OllamaModelList {
        match a.ollama_model_list_state.selected {
            Some(i) => if i < a.ollama_models@.len() {
                let name = a.ollama_models@[i as int].name;
                &&& b == (App {
                    editing_system_prompt_for_model: Some(name),
                    current_input: b.current_input,
                    input_cursor_char_idx: b.input_cursor_char_idx,
                    input_mode: InputMode::Editing,
                    input_bar_cursor_needs_to_be_visible: true,
                    ..a
                })
                &&& b.current_input@ == tui_system_prompt(a, name@)
                &&& b.input_cursor_char_idx == b.current_input@.len()
            } else {
                b == a
            },
            None => b == a,
        }
    } else {
        &&& b == (App {
            input_mode: InputMode::Editing,
            input_cursor_char_idx: b.input_cursor_char_idx,
            input_bar_cursor_needs_to_be_visible: true,
            ..a
        })
        &&& b.input_cursor_char_idx == a.current_input@.len()
    }
}

/// Whether `b` is `a` after Enter on the Ollama model list: a new, empty chat with the
/// selected model opens in the chat view with an empty input bar and the cursor at its
/// start.
#[verifier::opaque]
pub open spec fn chat_begun(a: App, b: App) -> bool {
    if a.active_view == TuiView::OllamaModelList {
        match a.ollama_model_list_state.selected {
            Some(i) => if i < a.ollama_models@.len() {
                &&& b == (App {
                    active_chat: b.active_chat,
                    active_view: TuiView::Chat,
                    current_input: b.current_input,
                    input_cursor_char_idx: 0,
                    ..a
                })
                &&& b.current_input@.len() == 0
                &&& b.active_chat matches Some(c) && c.model_name == a.ollama_models@[i as int].name
                    && c.messages@.len() == 0 && !c.is_streaming
            } else {
                b == a
            },
            None => b == a,
        }
    } else {
        b == a
    }
}

/// Whether modifiers are Control alone.
pub open spec fn control_only(m: KeyModifiers) -> bool {
    m.bits == 2
}

/// Whether `b` is `a` after a key in normal mode: `q` quits; `i` starts editing; Tab and
/// Shift-Tab change the view; Down and Up step through the VM or model list shown; Enter
/// opens a chat with the selected model; `j` and `k` step through the VM list; Ctrl-n
/// opens the new-VM form and Ctrl-d asks to destroy the selected VM.
pub open spec fn normal_handled(a: App, b: App, k: KeyEvent) -> bool {
    match k.code {
        KeyCode::Char(c) => if c == 'q' {
            b == quitting(a)
        } else if c == 'i' {
            editing_begun(a, b)
        } else if c == 'j' {
            b == vm_stepped(a, true)
        } else if c == 'k' {
            b == vm_stepped(a, false)
        } else if c == 'n' && control_only(k.modifiers) {
            b == wizard_begun(a)
        } else if c == 'd' && control_only(k.modifiers) {
            b == destroy_requested(a)
        } else {
            b == a
        },
        KeyCode::BackTab => b == tabbed(a, false),
        KeyCode::Tab => b == tabbed(a, true),
        KeyCode::Down => if a.active_view == TuiView::VmList {
            b == vm_stepped(a, true)
        } else if a.active_view == TuiView::OllamaModelList {
            b == model_stepped(a, true)
        } else {
            b == a
        },
        KeyCode::Up => if a.active_view == TuiView::VmList {
            b == vm_stepped(a, false)
        } else if a.active_view == TuiView::OllamaModelList {
            b == model_stepped(a, false)
        } else {
            b == a
        },
        KeyCode::Enter => chat_begun(a, b),
        _ => b == a,
    }
}

fn step_vms(app: &mut App, forward: bool)
    ensures
        *final(app) == vm_stepped(*old(app), forward),
{
    proof {
        reveal(vm_stepped);
    }
    let n = app.vms.len();
    if n > 0 {
        let sel = app.vm_list_state.selected();
        let i = if forward {
            match sel {
                Some(i) => if i >= n - 1 { 0 } else { i + 1 },
                None => 0,
            }
        } else {
            match sel {
                Some(i) => if i == 0 { n - 1 } else { i - 1 },
                None => 0,
            }
        };
        app.vm_list_state.select(Some(i));
    }
}

fn step_models(app: &mut App, forward: bool)
    ensures
        *final(app) == model_stepped(*old(app), forward),
{
    proof {
        reveal(model_stepped);
    }
    let n = app.ollama_models.len();
    if n > 0 {
        let sel = app.ollama_model_list_state.selected();
        let i = if forward {
            match sel {
                Some(i) => if i >= n - 1 { 0 } else { i + 1 },
                None => 0,
            }
        } else {
            match sel {
                Some(i) => if i == 0 { n - 1 } else { i - 1 },
                None => 0,
            }
        };
        app.ollama_model_list_state.select(Some(i));
    }
}

fn tab(app: &mut App, forward: bool)
    ensures
        *final(app) == tabbed(*old(app), forward),
{
    proof {
        reveal(tabbed);
    }
    app.active_view = if forward {
        match app.active_view {
            TuiView::VmList => TuiView::OllamaModelList,
            TuiView::OllamaModelList => TuiView::Chat,
            TuiView::Chat => TuiView::Logs,
            TuiView::Logs => TuiView::VmList,
        }
    } else {
        match app.active_view {
            TuiView::VmList => TuiView::Logs,
            TuiView::OllamaModelList => TuiView::VmList,
            TuiView::Chat => TuiView::OllamaModelList,
            TuiView::Logs => TuiView::Chat,
        }
    };
    let vm_sel = if app.vms.len() == 0 { None } else { Some(0) };
    app.vm_list_state.select(vm_sel);
    let model_sel = if app.ollama_models.len() == 0 { None } else { Some(0) };
    app.ollama_model_list_state.select(model_sel);
}

fn quit(app: &mut App)
    ensures
        *final(app) == quitting(*old(app)),
{
    proof {
        reveal(quitting);
    }
    app.should_quit = true;
}

fn begin_wizard(app: &mut App)
    ensures
        *final(app) == wizard_begun(*old(app)),
{
    proof {
        reveal(wizard_begun);
    }
    app.input_mode = InputMode::VmWizard;
    app.active_new_vm_input_idx = 0;
}

fn request_destroy(app: &mut App)
    ensures
        *final(app) == destroy_requested(*old(app)),
{
    proof {
        reveal(destroy_requested);
    }
    match app.vm_list_state.selected() {
        Some(i) => {
            if i < app.vms.len() {
                let id = app.vms[i].instance_id.clone();
                app.vm_to_destroy = Some(id);
                app.input_mode = InputMode::ConfirmingDestroy;
            }
        },
        None => {},
    }
}

fn begin_editing(app: &mut App)
    ensures
        editing_begun(*old(app), *final(app)),
{
    proof {
        reveal(editing_begun);
    }
    if app.active_view == TuiView::OllamaModelList {
        match app.ollama_model_list_state.selected() {
            Some(i) => {
                if i < app.ollama_models.len() {
                    let name = app.ollama_models[i].name.clone();
                    let prompt = app.get_active_system_prompt(name.as_str());
                    app.editing_system_prompt_for_model = Some(name);
                    app.current_input = prompt;
                    app.input_cursor_char_idx = char_count(&app.current_input);
                    app.input_mode = InputMode::Editing;
                    app.input_bar_cursor_needs_to_be_visible = true;
                }
            },
            None => {},
        }
    } else {
        app.input_mode = InputMode::Editing;
        app.input_cursor_char_idx = char_count(&app.current_input);
        app.input_bar_cursor_needs_to_be_visible = true;
    }
}

fn begin_chat(app: &mut App)
    ensures
        chat_begun(*old(app), *final(app)),
{
    proof {
        reveal(chat_begun);
    }
    if app.active_view == TuiView::OllamaModelList {
        match app.ollama_model_list_state.selected() {
            Some(i) => {
                if i < app.ollama_models.len() {
                    let name = app.ollama_models[i].name.clone();
                    app.active_chat = Some(ChatSession { model_name: name, messages: Vec::new(), is_streaming: false });
                    app.active_view = TuiView::Chat;
                    app.current_input = String::new();
                    app.input_cursor_char_idx = 0;
                }
            },
            None => {},
        }
    }
}

fn handle_normal_key(app: &mut App, key_event: &KeyEvent)
    ensures
        normal_handled(*old(app), *final(app), *key_event),
{
    match key_event.code {
        KeyCode::Char(c) => {
            if c == 'q' {
                quit(app);
            } else if c == 'i' {
                begin_editing(app);
            } else if c == 'j' {
                step_vms(app, true);
            } else if c == 'k' {
                step_vms(app, false);
            } else if c == 'n' && key_event.modifiers.bits == 2 {
                begin_wizard(app);
            } else if c == 'd' && key_event.modifiers.bits == 2 {
                request_destroy(app);
            }
        },
        KeyCode::BackTab => tab(app, false),
        KeyCode::Tab => tab(app, true),
        KeyCode::Down => {
            if app.active_view == TuiView::VmList {
                step_vms(app, true);
            } else if app.active_view == TuiView::OllamaModelList {
                step_models(app, true);
            }
        },
        KeyCode::Up => {
            if app.active_view == TuiView::VmList {
                step_vms(app, false);
            } else if app.active_view == TuiView::OllamaModelList {
                step_models(app, false);
            }
        },
        KeyCode::Enter => begin_chat(app),
        _ => {},
    }
}

/// Whether `idx` is a text field of the new-VM form: 0 name, 1 source image, 2 disk path,
/// 3 CPUs, 4 RAM, 5 disk size, 7 ISO path (6 is the ISO checkbox).
pub open spec fn is_text_field(idx: usize) -> bool {
    idx <= 5 || idx == 7
}

/// The text of form field `idx` (see `is_text_field`).
pub open spec fn form_field(a: App, idx: usize) -> String {
    if idx == 0 {
        a.new_vm_name
    } else if idx == 1 {
        a.new_vm_source_image_path
    } else if idx == 2 {
        a.new_vm_disk_path
    } else if idx == 3 {
        a.new_vm_cpu
    } else if idx == 4 {
        a.new_vm_ram_mb
    } else if idx == 5 {
        a.new_vm_disk_gb
    } else {
        a.new_vm_iso_path
    }
}

/// The interface with the VM name of the form replaced by `t`.
#[verifier::opaque]
pub open spec fn name_set(a: App, t: String) -> App {
    App { new_vm_name: t, ..a }
}

/// The interface with the source image path of the form replaced by `t`.
#[verifier::opaque]
pub open spec fn source_set(a: App, t: String) -> App {
    App { new_vm_source_image_path: t, ..a }
}

/// The interface with the disk path of the form replaced by `t`.
#[verifier::opaque]
pub open spec fn disk_path_set(a: App, t: String) -> App {
    App { new_vm_disk_path: t, ..a }
}

/// The interface with the CPU count of the form replaced by `t`.
#[verifier::opaque]
pub open spec fn cpu_set(a: App, t: String) -> App {
    App { new_vm_cpu: t, ..a }
}

/// The interface with the RAM size of the form replaced by `t`.
#[verifier::opaque]
pub open spec fn ram_set(a: App, t: String) -> App {
    App { new_vm_ram_mb: t, ..a }
}

/// The interface with the disk size of the form replaced by `t`.
#[verifier::opaque]
pub open spec fn disk_gb_set(a: App, t: String) -> App {
    App { new_vm_disk_gb: t, ..a }
}

/// The interface with the ISO path of the form replaced by `t`.
#[verifier::opaque]
pub open spec fn iso_set(a: App, t: String) -> App {
    App { new_vm_iso_path: t, ..a }
}

/// The interface with the text of form field `idx` replaced by `t`.
pub open spec fn with_form_field(a: App, idx: usize, t: String) -> App {
    if idx == 0 {
        name_set(a, t)
    } else if idx == 1 {
        source_set(a, t)
    } else if idx == 2 {
        disk_path_set(a, t)
    } else if idx == 3 {
        cpu_set(a, t)
    } else if idx == 4 {
        ram_set(a, t)
    } else if idx == 5 {
        disk_gb_set(a, t)
    } else {
        iso_set(a, t)
    }
}

fn set_name(app: &mut App, t: String)
    ensures
        *final(app) == name_set(*old(app), t),
        final(app).new_vm_name == t,
{
    proof {
        reveal(name_set);
    }
    app.new_vm_name = t;
}

fn set_source(app: &mut App, t: String)
    ensures
        *final(app) == source_set(*old(app), t),
        final(app).new_vm_source_image_path == t,
{
    proof {
        reveal(source_set);
    }
    app.new_vm_source_image_path = t;
}

fn set_disk_path(app: &mut App, t: String)
    ensures
        *final(app) == disk_path_set(*old(app), t),
        final(app).new_vm_disk_path == t,
{
    proof {
        reveal(disk_path_set);
    }
    app.new_vm_disk_path = t;
}

fn set_cpu(app: &mut App, t: String)
    ensures
        *final(app) == cpu_set(*old(app), t),
        final(app).new_vm_cpu == t,
{
    proof {
        reveal(cpu_set);
    }
    app.new_vm_cpu = t;
}

fn set_ram(app: &mut App, t: String)
    ensures
        *final(app) == ram_set(*old(app), t),
        final(app).new_vm_ram_mb == t,
{
    proof {
        reveal(ram_set);
    }
    app.new_vm_ram_mb = t;
}

fn set_disk_gb(app: &mut App, t: String)
    ensures
        *final(app) == disk_gb_set(*old(app), t),
        final(app).new_vm_disk_gb == t,
{
    proof {
        reveal(disk_gb_set);
    }
    app.new_vm_disk_gb = t;
}

fn set_iso(app: &mut App, t: String)
    ensures
        *final(app) == iso_set(*old(app), t),
        final(app).new_vm_iso_path == t,
{
    proof {
        reveal(iso_set);
    }
    app.new_vm_iso_path = t;
}

fn form_field_text(app: &App, idx: usize) -> (t: &String)
    ensures
        *t == form_field(*app, idx),
{
    if idx == 0 {
        &app.new_vm_name
    } else if idx == 1 {
        &app.new_vm_source_image_path
    } else if idx == 2 {
        &app.new_vm_disk_path
    } else if idx == 3 {
        &app.new_vm_cpu
    } else if idx == 4 {
        &app.new_vm_ram_mb
    } else if idx == 5 {
        &app.new_vm_disk_gb
    } else {
        &app.new_vm_iso_path
    }
}

fn set_form_field(app: &mut App, idx: usize, t: String)
    ensures
        *final(app) == with_form_field(*old(app), idx, t),
        form_field(*final(app), idx) == t,
{
    if idx == 0 {
        set_name(app, t);
    } else if idx == 1 {
        set_source(app, t);
    } else if idx == 2 {
        set_disk_path(app, t);
    } else if idx == 3 {
        set_cpu(app, t);
    } else if idx == 4 {
        set_ram(app, t);
    } else if idx == 5 {
        set_disk_gb(app, t);
    } else {
        set_iso(app, t);
    }
}

/// The size in MB that this interface reads from a RAM text in its trimmed upper-case form
/// `upper`: "<n>GB" is n * 1024 and "<n>MB" is n, the number read right up to the unit;
/// anything else is read whole as a number of MB.
pub open spec fn tui_ram_mb(upper: Seq<char>) -> Result<u64, IntParseError> {
    if ends_with(upper, seq!['G', 'B']) {
        match parse_u64_spec(upper.subrange(0, upper.len() - 2)) {
            Ok(v) => Ok((v * 1024) as u64),
            Err(e) => Err(e),
        }
    } else if ends_with(upper, seq!['M', 'B']) {
        parse_u64_spec(upper.subrange(0, upper.len() - 2))
    } else {
        parse_u64_spec(upper)
    }
}

/// Whether a gigabyte count is too large to express in megabytes in a `u64`.
pub open spec fn tui_ram_overflows(upper: Seq<char>) -> bool {
    ends_with(upper, seq!['G', 'B']) && (parse_u64_spec(upper.subrange(0, upper.len() - 2)) matches Ok(v)
        && v * 1024 > u64::MAX)
}

/// Reads a RAM size such as "4GB", "2048MB" or "512" in MB (see `tui_ram_mb`).
pub fn parse_ram_str(ram_str: &str) -> (r: Result<u64, IntParseError>)
    requires
        !tui_ram_overflows(uppercase_of(trim_spec(ram_str@))),
    ensures
        r == tui_ram_mb(uppercase_of(trim_spec(ram_str@))),
{
    let t = trim(ram_str);
    let s = to_uppercase(t.as_str());
    let v = chars_of(s.as_str());
    assert(seq!['G', 'B'] == "GB"@) by {
        reveal_strlit("GB");
    }
    assert(seq!['M', 'B'] == "MB"@) by {
        reveal_strlit("MB");
    }
    if has_suffix(&v, "GB") {
        let head = string_from_range(&v, 0, v.len() - 2);
        match parse_u64(head.as_str()) {
            Ok(val) => Ok(val * 1024),
            Err(e) => Err(e),
        }
    } else if has_suffix(&v, "MB") {
        let head = string_from_range(&v, 0, v.len() - 2);
        parse_u64(head.as_str())
    } else {
        parse_u64(s.as_str())
    }
}

/// Whether a RAM text would overflow when read (see `tui_ram_overflows`).
pub fn ram_str_overflows(ram_str: &str) -> (r: bool)
    ensures
        r == tui_ram_overflows(uppercase_of(trim_spec(ram_str@))),
{
    let t = trim(ram_str);
    let s = to_uppercase(t.as_str());
    let v = chars_of(s.as_str());
    assert(seq!['G', 'B'] == "GB"@) by {
        reveal_strlit("GB");
    }
    if has_suffix(&v, "GB") {
        let head = string_from_range(&v, 0, v.len() - 2);
        match parse_u64(head.as_str()) {
            Ok(val) => val > u64::MAX / 1024,
            Err(_) => false,
        }
    } else {
        false
    }
}

/// Reads a RAM size in MB (see `parse_ram_str`), or gives `None` when a gigabyte count is
/// too large to express in megabytes.
pub fn try_parse_ram_str(ram_str: &str) -> (r: Option<Result<u64, IntParseError>>)
    ensures
        r is None <==> tui_ram_overflows(uppercase_of(trim_spec(ram_str@))),
        r matches Some(x) ==> x == tui_ram_mb(uppercase_of(trim_spec(ram_str@))),
{
    if ram_str_overflows(ram_str) {
        None
    } else {
        Some(parse_ram_str(ram_str))
    }
}

/// Whether `cfg` is the VM request that the form describes: named after the form's VM
/// name, from its source image, booting its ISO if the checkbox is set, with its CPU count
/// (the configured default if that does not read as a number), its RAM (4096 MB if that
/// does not read), its disk size (the configured default if that does not read), and the
/// default network and security policies.
pub open spec fn is_form_request(a: App, cfg: EnvironmentConfig) -> bool {
    &&& cfg.instance_id == a.new_vm_name
    &&& cfg.env_type == EnvironmentType::Vm
    &&& cfg.base_image == a.new_vm_source_image_path
    &&& cfg.boot_iso == (if a.new_vm_use_iso { Some(a.new_vm_iso_path) } else { None })
    &&& cfg.cpu_cores == (match crate::text::u32_value_of(a.new_vm_cpu@) {
        Some(n) => n,
        None => a.config.defaults.default_cpu,
    })
    &&& cfg.memory_mb == (match tui_ram_mb(uppercase_of(trim_spec(a.new_vm_ram_mb@))) {
        Ok(n) => n,
        Err(_) => 4096u64,
    })
    &&& cfg.disk_gb == Some(match parse_u64_spec(a.new_vm_disk_gb@) {
        Ok(n) => n,
        Err(_) => a.config.defaults.default_disk_gb,
    })
    &&& cfg.network_policy@ == "default"@
    &&& cfg.security_policy@ == "default"@
    &&& cfg.custom_script is None && cfg.template_name is None && cfg.labels is None
}

/// The interface having left the form or the chat input for normal mode.
#[verifier::opaque]
pub open spec fn back_to_normal(a: App) -> App {
    App { input_mode: InputMode::Normal, ..a }
}

/// The interface with the form's focus on field `idx`.
#[verifier::opaque]
pub open spec fn form_focused(a: App, idx: usize) -> App {
    App { active_new_vm_input_idx: idx, ..a }
}

/// The interface with the ISO checkbox flipped.
#[verifier::opaque]
pub open spec fn iso_flipped(a: App) -> App {
    App { new_vm_use_iso: !a.new_vm_use_iso, ..a }
}

/// Whether `b` and `act` follow a key in the new-VM form: Esc leaves it; Tab and Shift-Tab
/// move the focus around its eight fields; a space flips the ISO checkbox when it has the
/// focus (and is typed nowhere); other characters go into the focused text field and
/// Backspace removes its last character; Enter asks for the VM the form describes and
/// leaves the form.
pub open spec fn wizard_handled(a: App, b: App, k: KeyEvent, act: Option<TuiAction>) -> bool {
    let idx = a.active_new_vm_input_idx;
    match k.code {
        KeyCode::Esc => b == back_to_normal(a) && act is None,
        KeyCode::Tab => b == form_focused(a, ((idx + 1) % 8) as usize) && act is None,
        KeyCode::BackTab => b == form_focused(a, ((idx + 8 - 1) % 8) as usize) && act is None,
        KeyCode::Char(c) => act is None && if c == ' ' {
            if idx == 6 { b == iso_flipped(a) } else { b == a }
        } else if is_text_field(idx) {
            &&& b == with_form_field(a, idx, form_field(b, idx))
            &&& form_field(b, idx)@ == form_field(a, idx)@.push(c)
        } else {
            b == a
        },
        KeyCode::Backspace => act is None && if is_text_field(idx) {
            &&& b == with_form_field(a, idx, form_field(b, idx))
            &&& form_field(b, idx)@ == (if form_field(a, idx)@.len() > 0 {
                form_field(a, idx)@.drop_last()
            } else {
                form_field(a, idx)@
            })
        } else {
            b == a
        },
        KeyCode::Enter => b == back_to_normal(a) && (act matches Some(TuiAction::CreateEnvironment(cfg))
            && is_form_request(a, cfg)),
        _ => b == a && act is None,
    }
}

/// Whether a key can be handled in the form without overflow: moving the focus needs room
/// to count past it, and a gigabyte RAM size must fit in MB.
pub open spec fn wizard_key_safe(a: App, k: KeyEvent) -> bool {
    &&& k.code == KeyCode::Tab ==> a.active_new_vm_input_idx < usize::MAX
    &&& k.code == KeyCode::BackTab ==> a.active_new_vm_input_idx <= usize::MAX - 8
    &&& k.code == KeyCode::Enter ==> !tui_ram_overflows(uppercase_of(trim_spec(a.new_vm_ram_mb@)))
}

fn leave_to_normal(app: &mut App)
    ensures
        *final(app) == back_to_normal(*old(app)),
{
    proof {
        reveal(back_to_normal);
    }
    app.input_mode = InputMode::Normal;
}

fn focus_field(app: &mut App, idx: usize)
    ensures
        *final(app) == form_focused(*old(app), idx),
{
    proof {
        reveal(form_focused);
    }
    app.active_new_vm_input_idx = idx;
}

fn flip_iso(app: &mut App)
    ensures
        *final(app) == iso_flipped(*old(app)),
{
    proof {
        reveal(iso_flipped);
    }
    app.new_vm_use_iso = !app.new_vm_use_iso;
}

fn form_request(app: &App) -> (cfg: EnvironmentConfig)
    requires
        !tui_ram_overflows(uppercase_of(trim_spec(app.new_vm_ram_mb@))),
    ensures
        is_form_request(*app, cfg),
{
    let boot_iso = if app.new_vm_use_iso { Some(app.new_vm_iso_path.clone()) } else { None };
    let cpu_cores = match crate::text::parse_u32_value(app.new_vm_cpu.as_str()) {
        Some(n) => n,
        None => app.config.defaults.default_cpu,
    };
    let memory_mb = match parse_ram_str(app.new_vm_ram_mb.as_str()) {
        Ok(n) => n,
        Err(_) => 4096,
    };
    let disk_gb = match parse_u64(app.new_vm_disk_gb.as_str()) {
        Ok(n) => n,
        Err(_) => app.config.defaults.default_disk_gb,
    };
    EnvironmentConfig {
        instance_id: app.new_vm_name.clone(),
        env_type: EnvironmentType::Vm,
        base_image: app.new_vm_source_image_path.clone(),
        boot_iso,
        cpu_cores,
        memory_mb,
        disk_gb: Some(disk_gb),
        network_policy: "default".to_string(),
        security_policy: "default".to_string(),
        custom_script: None,
        template_name: None,
        labels: None,
    }
}

fn handle_vm_wizard_mode_key(app: &mut App, key_event: &KeyEvent) -> (act: Option<TuiAction>)
    requires
        wizard_key_safe(*old(app), *key_event),
    ensures
        wizard_handled(*old(app), *final(app), *key_event, act),
{
    let idx = app.active_new_vm_input_idx;
    match key_event.code {
        KeyCode::Esc => {
            leave_to_normal(app);
            None
        },
        KeyCode::Tab => {
            focus_field(app, (idx + 1) % 8);
            None
        },
        KeyCode::BackTab => {
            focus_field(app, (idx + 8 - 1) % 8);
            None
        },
        KeyCode::Char(c) => {
            if c == ' ' {
                if idx == 6 {
                    flip_iso(app);
                }
            } else if idx <= 5 || idx == 7 {
                let mut t = form_field_text(app, idx).clone();
                push_char(&mut t, c);
                set_form_field(app, idx, t);
            }
            None
        },
        KeyCode::Backspace => {
            if idx <= 5 || idx == 7 {
                let mut t = form_field_text(app, idx).clone();
                pop_char(&mut t);
                set_form_field(app, idx, t);
            }
            None
        },
        KeyCode::Enter => {
            let cfg = form_request(app);
            leave_to_normal(app);
            Some(TuiAction::CreateEnvironment(cfg))
        },
        _ => None,
    }
}

/// The interface having answered a destruction request: it is forgotten and normal mode
/// resumes.
#[verifier::opaque]
pub open spec fn destroy_settled(a: App) -> App {
    App { vm_to_destroy: None, input_mode: InputMode::Normal, ..a }
}

/// Whether `b` and `act` follow a key while a destruction waits for confirmation: y or Y
/// asks to destroy the VM (if one is waiting), n, N or Esc refuses; either way the request
/// is settled. Other keys do nothing.
pub open spec fn destroy_handled(a: App, b: App, k: KeyEvent, act: Option<TuiAction>) -> bool {
    if k.code == KeyCode::Char('y') || k.code == KeyCode::Char('Y') {
        &&& b == destroy_settled(a)
        &&& match a.vm_to_destroy {
            Some(id) => (act matches Some(TuiAction::DestroyEnvironment(x)) && x == id),
            None => act is None,
        }
    } else if k.code == KeyCode::Char('n') || k.code == KeyCode::Char('N') || k.code == KeyCode::Esc {
        b == destroy_settled(a) && act is None
    } else {
        b == a && act is None
    }
}

fn settle_destroy(app: &mut App)
    ensures
        *final(app) == destroy_settled(*old(app)),
{
    proof {
        reveal(destroy_settled);
    }
    app.vm_to_destroy = None;
    app.input_mode = InputMode::Normal;
}

fn handle_confirm_destroy_mode_key(app: &mut App, key_event: &KeyEvent) -> (act: Option<TuiAction>)
    ensures
        destroy_handled(*old(app), *final(app), *key_event, act),
{
    if key_event.code == KeyCode::Char('y') || key_event.code == KeyCode::Char('Y') {
        let act = match &app.vm_to_destroy {
            Some(id) => Some(TuiAction::DestroyEnvironment(id.clone())),
            None => None,
        };
        settle_destroy(app);
        act
    } else if key_event.code == KeyCode::Char('n') || key_event.code == KeyCode::Char('N')
        || key_event.code == KeyCode::Esc {
        settle_destroy(app);
        None
    } else {
        None
    }
}

/// A copy of a chat message.
pub fn duplicate_message(m: &ChatMessage) -> (r: ChatMessage)
    ensures
        r == *m,
{
    ChatMessage {
        sender: m.sender.clone(),
        content: m.content.clone(),
        timestamp: m.timestamp.clone(),
        thought: match &m.thought {
            Some(t) => Some(t.clone()),
            None => None,
        },
    }
}

/// A copy of a list of chat messages.
pub fn duplicate_messages(v: &Vec<ChatMessage>) -> (r: Vec<ChatMessage>)
    ensures
        r@ == v@,
{
    let mut r: Vec<ChatMessage> = Vec::new();
    let mut i: usize = 0;
    while i < v.len()
        invariant
            i <= v@.len(),
            r@ == v@.subrange(0, i as int),
        decreases v@.len() - i,
    {
        r.push(duplicate_message(&v[i]));
        i = i + 1;
        assert(r@ =~= v@.subrange(0, i as int));
    }
    assert(v@.subrange(0, v@.len() as int) =~= v@);
    r
}

/// Whether `d` is the chat `c` after the user sent `prompt`: it is streaming, and holds
/// `c`'s messages, then the user's message, then an empty answer from the model, both
/// stamped with a clock time.
pub open spec fn chat_extended(c: ChatSession, d: ChatSession, prompt: String) -> bool {
    let n = c.messages@.len();
    &&& d.model_name == c.model_name
    &&& d.is_streaming
    &&& d.messages@.len() == n + 2
    &&& d.messages@.subrange(0, n as int) == c.messages@
    &&& d.messages@[n as int].sender@ == "user"@
    &&& d.messages@[n as int].content == prompt
    &&& is_clock_time(d.messages@[n as int].timestamp@)
    &&& d.messages@[n as int].thought is None
    &&& d.messages@[n + 1int].sender == c.model_name
    &&& d.messages@[n + 1int].content@.len() == 0
    &&& is_clock_time(d.messages@[n + 1int].timestamp@)
    &&& d.messages@[n + 1int].thought is None
}

/// Whether `b` and `act` follow Enter in the chat input: in the chat view, the input bar
/// empties; a non-empty text goes to the open chat as the user's message, followed by an
/// empty answer being streamed, the chat selection moves to that answer, and the model is
/// asked to answer the whole chat with its system prompt. Outside the chat view nothing
/// happens.
#[verifier::opaque]
pub open spec fn chat_submitted(a: App, b: App, act: Option<TuiAction>) -> bool {
    if a.active_view != TuiView::Chat {
        b == a && act is None
    } else if a.current_input@.len() == 0 || a.active_chat is None {
        &&& b == (App { current_input: b.current_input, input_cursor_char_idx: 0, ..a })
        &&& b.current_input@.len() == 0
        &&& act is None
    } else {
        let c = a.active_chat.unwrap();
        &&& b == (App {
            current_input: b.current_input,
            input_cursor_char_idx: 0,
            active_chat: b.active_chat,
            chat_list_state: selecting(a.chat_list_state, Some((c.messages@.len() + 1) as usize)),
            input_bar_cursor_needs_to_be_visible: true,
            input_bar_scroll: 0,
            ..a
        })
        &&& b.current_input@.len() == 0
        &&& b.active_chat matches Some(d) && chat_extended(c, d, a.current_input)
        &&& act matches Some(TuiAction::StartChat { model_name, messages, system_prompt })
        &&& model_name == c.model_name
        &&& messages@ == b.active_chat.unwrap().messages@
        &&& system_prompt@ == tui_system_prompt(a, c.model_name@)
    }
}

/// The interface after Esc in the chat input: back to normal mode, the input bar scrolled
/// to its start.
#[verifier::opaque]
pub open spec fn chat_input_left(a: App) -> App {
    App { input_mode: InputMode::Normal, input_bar_cursor_needs_to_be_visible: true, input_bar_scroll: 0, ..a }
}

/// Whether `b` and `act` follow a key in the chat input: Enter (without modifiers) sends;
/// characters are typed; Backspace, Left and Right edit and move; Esc leaves; other keys
/// do nothing.
pub open spec fn chat_edited(a: App, b: App, k: KeyEvent, act: Option<TuiAction>) -> bool {
    let plain = k.modifiers.bits == 0;
    match k.code {
        KeyCode::Enter => if plain { chat_submitted(a, b, act) } else { b == a && act is None },
        KeyCode::Char(c) => act is None && if typing_modifiers(k.modifiers) { typed(a, b, c) } else { b == a },
        KeyCode::Backspace => act is None && if plain { backspaced(a, b) } else { b == a },
        KeyCode::Left => act is None && if plain { b == moved_left(a) } else { b == a },
        KeyCode::Right => act is None && if plain { b == moved_right(a) } else { b == a },
        KeyCode::Esc => b == chat_input_left(a) && act is None,
        _ => b == a && act is None,
    }
}

fn submit_chat(app: &mut App) -> (act: Option<TuiAction>)
    requires
        old(app).active_chat matches Some(c) ==> c.messages@.len() + 2 <= usize::MAX,
    ensures
        chat_submitted(*old(app), *final(app), act),
{
    proof {
        reveal(chat_submitted);
    }
    if !(app.active_view == TuiView::Chat) {
        return None;
    }
    let prompt_text = app.current_input.clone();
    app.current_input = String::new();
    app.input_cursor_char_idx = 0;
    if prompt_text.as_str().is_empty() {
        return None;
    }
    let system_prompt = match &app.active_chat {
        Some(chat) => app.get_active_system_prompt(chat.model_name.as_str()),
        None => {
            return None;
        },
    };
    let mut chat = match app.active_chat.take() {
        Some(c) => c,
        None => {
            return None;
        },
    };
    let ghost c0 = chat;
    let user_time = local_clock_time();
    chat.messages.push(ChatMessage {
        sender: "user".to_string(),
        content: prompt_text,
        timestamp: user_time,
        thought: None,
    });
    let model_name = chat.model_name.clone();
    let answer_time = local_clock_time();
    chat.messages.push(ChatMessage {
        sender: chat.model_name.clone(),
        content: String::new(),
        timestamp: answer_time,
        thought: None,
    });
    chat.is_streaming = true;
    let messages = duplicate_messages(&chat.messages);
    let n = chat.messages.len();
    proof {
        assert(chat.messages@.subrange(0, c0.messages@.len() as int) =~= c0.messages@);
    }
    app.active_chat = Some(chat);
    app.chat_list_state.select(Some(n - 1));
    app.input_bar_cursor_needs_to_be_visible = true;
    app.input_bar_scroll = 0;
    Some(TuiAction::StartChat { model_name, messages, system_prompt })
}

fn leave_chat_input(app: &mut App)
    ensures
        *final(app) == chat_input_left(*old(app)),
{
    proof {
        reveal(chat_input_left);
    }
    app.input_mode = InputMode::Normal;
    app.input_bar_cursor_needs_to_be_visible = true;
    app.input_bar_scroll = 0;
}

fn handle_chat_input_key(app: &mut App, key_event: &KeyEvent) -> (act: Option<TuiAction>)
    requires
        old(app).active_chat matches Some(c) ==> c.messages@.len() + 2 <= usize::MAX,
        old(app).input_cursor_char_idx <= old(app).current_input@.len() ==> old(app).input_cursor_char_idx < usize::MAX,
    ensures
        chat_edited(*old(app), *final(app), *key_event, act),
{
    let plain = key_event.modifiers.bits == 0;
    match key_event.code {
        KeyCode::Enter => {
            if plain {
                submit_chat(app)
            } else {
                None
            }
        },
        KeyCode::Char(c) => {
            if key_event.modifiers.bits == 0 || key_event.modifiers.bits == 1 {
                type_char(app, c);
            }
            None
        },
        KeyCode::Backspace => {
            if plain {
                backspace(app);
            }
            None
        },
        KeyCode::Left => {
            if plain {
                move_left(app);
            }
            None
        },
        KeyCode::Right => {
            if plain {
                move_right(app);
            }
            None
        },
        KeyCode::Esc => {
            leave_chat_input(app);
            None
        },
        _ => None,
    }
}

/// Whether a key can be handled without a panic or an overflow: page down needs room past
/// the selection, typing needs room past the cursor, a chat needs room for two more
/// messages, and the form needs what `wizard_key_safe` says.
pub open spec fn tui_key_safe(a: App, k: KeyEvent) -> bool {
    &&& scroll_key_safe(a, k)
    &&& a.input_cursor_char_idx <= a.current_input@.len() ==> a.input_cursor_char_idx < usize::MAX
    &&& a.active_chat matches Some(c) ==> c.messages@.len() + 2 <= usize::MAX
    &&& a.input_mode == InputMode::VmWizard ==> wizard_key_safe(a, k)
}

/// Whether `b` and `act` follow the key `k`: the logs or the chat take navigation keys
/// first; then the system-prompt editor, when open, takes the key; otherwise the input
/// mode decides.
pub open spec fn tui_key_handled(a: App, b: App, k: KeyEvent, act: Option<TuiAction>) -> bool {
    if scroll_consumes(a, k) {
        b == after_scroll_key(a, k) && act is None
    } else if a.editing_system_prompt_for_model is Some {
        prompt_edited(a, b, k, act)
    } else {
        match a.input_mode {
            InputMode::Normal => normal_handled(a, b, k) && act is None,
            InputMode::Editing => chat_edited(a, b, k, act),
            InputMode::VmWizard => wizard_handled(a, b, k, act),
            InputMode::ConfirmingDestroy => destroy_handled(a, b, k, act),
        }
    }
}

/// In the input bar (while chatting or editing a system prompt), typing a character and
/// then pressing Backspace gives back the text and the cursor position one started from.
pub proof fn classic_backspace_undoes_typing(
    a: App,
    b: App,
    d: App,
    c: char,
    typed_with: KeyModifiers,
    act1: Option<TuiAction>,
    act2: Option<TuiAction>,
)
    requires
        a.input_mode == InputMode::Editing || a.editing_system_prompt_for_model is Some,
        cursor_within_text(a),
        a.input_cursor_char_idx < usize::MAX,
        typing_modifiers(typed_with),
        tui_key_handled(a, b, KeyEvent { code: KeyCode::Char(c), modifiers: typed_with }, act1),
        tui_key_handled(b, d, KeyEvent { code: KeyCode::Backspace, modifiers: KeyModifiers { bits: 0 } }, act2),
    ensures
        d.current_input@ == a.current_input@,
        d.input_cursor_char_idx == a.input_cursor_char_idx,
{
    reveal(typed);
    reveal(backspaced);
    assert(typed(a, b, c));
    assert(b.input_mode == a.input_mode && b.editing_system_prompt_for_model == a.editing_system_prompt_for_model);
    assert(backspaced(b, d));
    assert(a.current_input@.insert(a.input_cursor_char_idx as int, c).remove(
        a.input_cursor_char_idx as int,
    ) =~= a.current_input@);
}

proof fn lemma_typing_keeps_cursor_within_text(a: App, b: App, k: KeyEvent)
    requires
        cursor_within_text(a),
        match k.code {
            KeyCode::Char(c) => typed(a, b, c) || b == a,
            KeyCode::Backspace => backspaced(a, b) || b == a,
            KeyCode::Left => b == moved_left(a) || b == a,
            KeyCode::Right => b == moved_right(a) || b == a,
            _ => b == a,
        },
    ensures
        cursor_within_text(b),
{
    reveal(typed);
    reveal(backspaced);
    reveal(moved_left);
    reveal(moved_right);
}

proof fn lemma_prompt_edit_keeps_cursor_within_text(a: App, b: App, k: KeyEvent, act: Option<TuiAction>)
    requires
        cursor_within_text(a),
        prompt_edited(a, b, k, act),
        k.code != KeyCode::Up,
        k.code != KeyCode::Down,
    ensures
        cursor_within_text(b),
{
    reveal(prompt_saved);
    reveal(prompt_dropped);
    if k.code != KeyCode::Enter && k.code != KeyCode::Esc {
        lemma_typing_keeps_cursor_within_text(a, b, k);
    }
}

proof fn lemma_mode_keeps_cursor_within_text(a: App, b: App, k: KeyEvent, act: Option<TuiAction>)
    requires
        cursor_within_text(a),
        a.input_mode == InputMode::Normal ==> normal_handled(a, b, k),
        a.input_mode == InputMode::Editing ==> chat_edited(a, b, k, act),
        a.input_mode == InputMode::VmWizard ==> wizard_handled(a, b, k, act),
        a.input_mode == InputMode::ConfirmingDestroy ==> destroy_handled(a, b, k, act),
    ensures
        cursor_within_text(b),
{
    match a.input_mode {
        InputMode::Normal => {
            reveal(quitting);
            reveal(editing_begun);
            reveal(vm_stepped);
            reveal(model_stepped);
            reveal(wizard_begun);
            reveal(destroy_requested);
            reveal(tabbed);
            reveal(chat_begun);
        },
        InputMode::Editing => {
            reveal(chat_submitted);
            reveal(chat_input_left);
            if k.code != KeyCode::Enter && k.code != KeyCode::Esc {
                lemma_typing_keeps_cursor_within_text(a, b, k);
            }
        },
        InputMode::VmWizard => {
            reveal(back_to_normal);
            reveal(form_focused);
            reveal(iso_flipped);
            reveal(name_set);
            reveal(source_set);
            reveal(disk_path_set);
            reveal(cpu_set);
            reveal(ram_set);
            reveal(disk_gb_set);
            reveal(iso_set);
        },
        InputMode::ConfirmingDestroy => {
            reveal(destroy_settled);
        },
    }
}

impl App {
    /// Reacts to a key (see `tui_key_handled`) and gives back what the runtime is to do.
    /// Whatever the key, a cursor within the input bar's text stays within it.
    pub fn on_key(&mut self, key_event: KeyEvent) -> (act: Option<TuiAction>)
        requires
            tui_key_safe(*old(self), key_event),
        ensures
            tui_key_handled(*old(self), *final(self), key_event, act),
            cursor_within_text(*old(self)) ==> cursor_within_text(*final(self)),
    {
        let ghost before = *self;
        if scroll_with_key(self, &key_event) {
            proof {
                reveal(after_scroll_key);
            }
            return None;
        }
        if self.editing_system_prompt_for_model.is_some() {
            return edit_prompt_key(self, &key_event);
        }
        let act = match self.input_mode {
            InputMode::Normal => {
                handle_normal_key(self, &key_event);
                None
            },
            InputMode::Editing => handle_chat_input_key(self, &key_event),
            InputMode::VmWizard => handle_vm_wizard_mode_key(self, &key_event),
            InputMode::ConfirmingDestroy => handle_confirm_destroy_mode_key(self, &key_event),
        };
        proof {
            if cursor_within_text(before) {
                lemma_mode_keeps_cursor_within_text(before, *self, key_event, act);
            }
        }
        act
    }

    /// Whether `on_key` can take this key (see `tui_key_safe`); the interface checks it first.
    pub fn key_is_safe(&self, key_event: &KeyEvent) -> (r: bool)
        ensures
            r == tui_key_safe(*self, *key_event),
    {
        let n = chat_messages_len(self);
        let page_ok = if key_event.code == KeyCode::PageDown {
            let logs_ok = if self.active_view == TuiView::Logs && self.input_mode == InputMode::Normal
                && self.log_entries.len() > 0 {
                match self.log_list_state.selected() {
                    Some(s) => s <= usize::MAX - 10,
                    None => true,
                }
            } else {
                true
            };
            let chat_ok = if self.active_view == TuiView::Chat && self.input_mode == InputMode::Normal && n > 0 {
                match self.chat_list_state.selected() {
                    Some(s) => s <= usize::MAX - 10,
                    None => true,
                }
            } else {
                true
            };
            logs_ok && chat_ok
        } else {
            true
        };
        let cursor_ok = !(self.input_cursor_char_idx <= char_count(&self.current_input))
            || self.input_cursor_char_idx < usize::MAX;
        let chat_ok = match &self.active_chat {
            Some(c) => c.messages.len() <= usize::MAX - 2,
            None => true,
        };
        let idx = self.active_new_vm_input_idx;
        let wizard_ok = self.input_mode != InputMode::VmWizard || ((key_event.code != KeyCode::Tab || idx < usize::MAX)
            && (key_event.code != KeyCode::BackTab || idx <= usize::MAX - 8)
            && (key_event.code != KeyCode::Enter || !ram_str_overflows(self.new_vm_ram_mb.as_str())));
        page_ok && cursor_ok && chat_ok && wizard_ok
    }
}

/// The interface after a wheel event over the input bar while editing: the bar scrolls
/// up or down a line and stops following the cursor.
#[verifier::opaque]
pub open spec fn input_bar_scrolled(a: App, up: bool) -> App {
    App {
        input_bar_scroll: if up {
            if a.input_bar_scroll > 0 { (a.input_bar_scroll - 1) as u16 } else { 0u16 }
        } else {
            if a.input_bar_scroll < u16::MAX { (a.input_bar_scroll + 1) as u16 } else { u16::MAX }
        },
        input_bar_cursor_needs_to_be_visible: false,
        ..a
    }
}

/// The interface after a wheel event over a chat of `n` messages (at least one), counting
/// from the last message when nothing is selected; the selection stops at the ends.
#[verifier::opaque]
pub open spec fn chat_wheeled(a: App, up: bool) -> App {
    let n = chat_len(a);
    let cur = match a.chat_list_state.selected {
        Some(s) => s as int,
        None => n - 1,
    };
    App {
        chat_list_state: selecting(a.chat_list_state, Some((if up {
            if cur > 0 { cur - 1 } else { 0 }
        } else {
            if cur < n - 1 { cur + 1 } else { n - 1 }
        }) as usize)),
        ..a
    }
}

/// The interface after a mouse event: while the input bar is edited (chat input or system
/// prompt) the wheel scrolls it; otherwise the wheel moves through the chat when the chat
/// view shows messages. Other events change nothing.
pub open spec fn after_tui_mouse(a: App, m: MouseEvent) -> App {
    let editing = a.input_mode == InputMode::Editing || a.editing_system_prompt_for_model is Some;
    let wheel = m.kind == MouseEventKind::ScrollUp || m.kind == MouseEventKind::ScrollDown;
    let up = m.kind == MouseEventKind::ScrollUp;
    if editing && wheel {
        input_bar_scrolled(a, up)
    } else if a.active_view == TuiView::Chat && chat_len(a) > 0 && wheel {
        chat_wheeled(a, up)
    } else {
        a
    }
}

fn scroll_input_bar(app: &mut App, up: bool)
    ensures
        *final(app) == input_bar_scrolled(*old(app), up),
{
    proof {
        reveal(input_bar_scrolled);
    }
    app.input_bar_scroll = if up {
        app.input_bar_scroll.saturating_sub(1)
    } else {
        app.input_bar_scroll.saturating_add(1)
    };
    app.input_bar_cursor_needs_to_be_visible = false;
}

fn wheel_chat(app: &mut App, up: bool)
    requires
        chat_len(*old(app)) > 0,
    ensures
        *final(app) == chat_wheeled(*old(app), up),
{
    proof {
        reveal(chat_wheeled);
    }
    let n = chat_messages_len(app);
    let cur = match app.chat_list_state.selected() {
        Some(s) => s,
        None => n - 1,
    };
    let next = if up {
        if cur > 0 { cur - 1 } else { 0 }
    } else {
        if cur < n - 1 { cur + 1 } else { n - 1 }
    };
    app.chat_list_state.select(Some(next));
}

/// Text without form-feed characters.
pub open spec fn without_form_feeds(s: Seq<char>) -> Seq<char> {
    s.filter(|c: char| c != '\u{c}')
}

/// Text as the chat shows it: without ANSI escape sequences and form feeds.
pub open spec fn cleaned(s: Seq<char>) -> Seq<char> {
    without_form_feeds(ansi_stripped(s))
}

fn remove_form_feeds(s: &str) -> (r: String)
    ensures
        r@ == without_form_feeds(s@),
{
    let v = chars_of(s);
    let mut out = String::new();
    let mut i: usize = 0;
    while i < v.len()
        invariant
            v@ == s@,
            i <= v@.len(),
            out@ == without_form_feeds(v@.subrange(0, i as int)),
        decreases v@.len() - i,
    {
        if v[i] != '\u{c}' {
            push_char(&mut out, v[i]);
        }
        proof {
            let t = v@.subrange(0, i + 1);
            assert(t =~= v@.subrange(0, i as int).push(v@[i as int]));
            reveal(Seq::filter);
            assert(t.drop_last() =~= v@.subrange(0, i as int));
            assert(t.last() == v@[i as int]);
            assert(out@ =~= without_form_feeds(t));
        }
        i = i + 1;
    }
    assert(v@.subrange(0, v@.len() as int) =~= v@);
    out
}

/// Removes ANSI escapes and form feeds (see `cleaned`).
pub fn clean_text(s: &str) -> (r: String)
    ensures
        r@ == cleaned(s@),
{
    let stripped = strip_ansi(s);
    remove_form_feeds(stripped.as_str())
}

/// Whether `pat` occurs in `s` at position `i`.
pub open spec fn occurs_at(s: Seq<char>, pat: Seq<char>, i: int) -> bool {
    0 <= i && i + pat.len() <= s.len() && s.subrange(i, i + pat.len()) == pat
}

/// The last position below `k` where `pat` occurs in `s`, if any.
pub open spec fn last_occurrence_below(s: Seq<char>, pat: Seq<char>, k: int) -> Option<int>
    decreases k,
{
    if k <= 0 {
        None
    } else if occurs_at(s, pat, k - 1) {
        Some(k - 1)
    } else {
        last_occurrence_below(s, pat, k - 1)
    }
}

/// The last position where `pat` occurs in `s`, if any (what `str::rfind` finds).
pub open spec fn last_index_of(s: Seq<char>, pat: Seq<char>) -> Option<int> {
    last_occurrence_below(s, pat, s.len() - pat.len() + 1)
}

/// The tag that opens a model's reasoning.
pub open spec fn think_open() -> Seq<char> {
    seq!['<', 't', 'h', 'i', 'n', 'k', '>']
}

/// The tag that closes a model's reasoning.
pub open spec fn think_close() -> Seq<char> {
    seq!['<', '/', 't', 'h', 'i', 'n', 'k', '>']
}

/// A finished answer split into its reasoning and the rest: an answer that starts with
/// `<think>` and has a later `</think>` yields the (cleaned) text up to the last
/// `</think>` as its reasoning, and what follows that tag, without leading whitespace, as
/// its content; any other answer has no reasoning and stays as it is.
pub open spec fn think_split(content: Seq<char>) -> (Option<Seq<char>>, Seq<char>) {
    if content.len() >= 7 && content.subrange(0, 7) == think_open() {
        match last_index_of(content, think_close()) {
            Some(e) => if 0 < e {
                (Some(cleaned(content.subrange(7, e))), trim_start_spec(content.subrange(e + 8, content.len() as int)))
            } else {
                (None, content)
            },
            None => (None, content),
        }
    } else {
        (None, content)
    }
}

fn occurs_at_exec(v: &Vec<char>, pat: &Vec<char>, i: usize) -> (r: bool)
    ensures
        r == occurs_at(v@, pat@, i as int),
{
    if pat.len() > v.len() || i > v.len() - pat.len() {
        return false;
    }
    let mut k: usize = 0;
    while k < pat.len()
        invariant
            i + pat.len() <= v.len(),
            i + pat@.len() <= v@.len(),
            k <= pat@.len(),
            forall|q: int| 0 <= q < k ==> v@[i + q] == pat@[q],
        decreases pat@.len() - k,
    {
        if v[i + k] != pat[k] {
            assert(v@.subrange(i as int, i + pat@.len())[k as int] != pat@[k as int]);
            return false;
        }
        k = k + 1;
    }
    assert(v@.subrange(i as int, i + pat@.len()) =~= pat@);
    true
}

proof fn lemma_last_occurrence(s: Seq<char>, pat: Seq<char>, k: int)
    ensures
        last_occurrence_below(s, pat, k) matches Some(i) ==> occurs_at(s, pat, i) && i < k,
    decreases k,
{
    if k > 0 && !occurs_at(s, pat, k - 1) {
        lemma_last_occurrence(s, pat, k - 1);
    }
}

fn rfind_chars(v: &Vec<char>, pat: &Vec<char>) -> (r: Option<usize>)
    ensures
        match r {
            Some(i) => last_index_of(v@, pat@) == Some(i as int),
            None => last_index_of(v@, pat@) is None,
        },
{
    if pat.len() > v.len() {
        return None;
    }
    let mut k: usize = v.len() - pat.len();
    loop
        invariant
            k <= v@.len() - pat@.len(),
            last_index_of(v@, pat@) == last_occurrence_below(v@, pat@, k + 1),
        decreases k,
    {
        if occurs_at_exec(v, pat, k) {
            return Some(k);
        }
        if k == 0 {
            assert(last_occurrence_below(v@, pat@, 0) is None);
            return None;
        }
        k = k - 1;
    }
}

/// Splits a finished answer into its reasoning and the rest (see `think_split`).
pub fn split_thought(content: &String) -> (r: (Option<String>, String))
    ensures
        (match r.0 {
            Some(t) => Some(t@),
            None => None,
        }) == think_split(content@).0,
        r.1@ == think_split(content@).1,
{
    let v = chars_of(content.as_str());
    let open = chars_of("<think>");
    let close = chars_of("</think>");
    proof {
        reveal_strlit("<think>");
        reveal_strlit("</think>");
        assert(open@ =~= think_open());
        assert(close@ =~= think_close());
    }
    if !occurs_at_exec(&v, &open, 0) {
        proof {
            if v@.len() >= 7 {
                assert(v@.subrange(0, 7) != think_open());
            }
        }
        return (None, content.clone());
    }
    match rfind_chars(&v, &close) {
        Some(e) => {
            if e > 0 {
                proof {
                    lemma_last_occurrence(v@, think_close(), v@.len() - 8 + 1);
                    assert(v@.subrange(0, 7) == think_open());
                    assert(v@.subrange(e as int, e + 8) == think_close());
                    assert(e + 8 <= v@.len());
                    assert(v@[e as int] == v@.subrange(e as int, e + 8)[0]);
                    if e < 7 {
                        assert(v@[e as int] == v@.subrange(0, 7)[e as int]);
                    }
                }
                let raw = string_from_range(&v, 7, e);
                let thought = clean_text(raw.as_str());
                let rest = crate::text::trim_start_from(&v, e + 8);
                (Some(thought), rest)
            } else {
                (None, content.clone())
            }
        },
        None => (None, content.clone()),
    }
}

/// The views of a chat message: sender, content, timestamp and reasoning.
pub open spec fn message_view(m: ChatMessage) -> (Seq<char>, Seq<char>, Seq<char>, Option<Seq<char>>) {
    (m.sender@, m.content@, m.timestamp@, match m.thought {
        Some(t) => Some(t@),
        None => None,
    })
}

/// The views of a list of chat messages.
pub open spec fn messages_view(ms: Seq<ChatMessage>) -> Seq<(Seq<char>, Seq<char>, Seq<char>, Option<Seq<char>>)> {
    ms.map_values(|m: ChatMessage| message_view(m))
}

/// While an answer streams, each chunk is added, cleaned, after the text received so far:
/// the text before a chunk stays at the start of the answer, two chunks read in the order
/// they arrived, and the other messages and the answer's sender and time stay as they were.
pub proof fn stream_chunks_append(
    ms: Seq<(Seq<char>, Seq<char>, Seq<char>, Option<Seq<char>>)>,
    c1: String,
    c2: String,
)
    requires
        ms.len() > 0,
    ensures
        ({
            let (m1, s1) = after_stream_event(ms, true, ChatStreamEvent::Chunk(c1));
            let (m2, s2) = after_stream_event(m1, s1, ChatStreamEvent::Chunk(c2));
            &&& s1 && s2
            &&& m1.len() == ms.len() && m2.len() == ms.len()
            &&& m1.last().1.subrange(0, ms.last().1.len() as int) == ms.last().1
            &&& m2.last().1 == ms.last().1 + cleaned(c1@) + cleaned(c2@)
            &&& m2.drop_last() == ms.drop_last()
            &&& m2.last().0 == ms.last().0 && m2.last().2 == ms.last().2 && m2.last().3 == ms.last().3
        }),
{
    let (m1, s1) = after_stream_event(ms, true, ChatStreamEvent::Chunk(c1));
    let (m2, s2) = after_stream_event(m1, s1, ChatStreamEvent::Chunk(c2));
    let old = ms.last().1;
    assert(m1.last().1 == old + cleaned(c1@));
    assert((old + cleaned(c1@)).subrange(0, old.len() as int) =~= old);
    assert(m2.last().1 == old + cleaned(c1@) + cleaned(c2@));
    assert(m2.drop_last() =~= ms.drop_last());
}

/// The messages of a chat and whether it streams, after one event of the answer stream:
/// a chunk (while streaming) is appended, cleaned, to the last message; an error replaces
/// an empty or streaming last message with "[Error] " and the cleaned error, or else is
/// appended on a new line, and streaming stops; completion stops streaming and splits the
/// last message's reasoning out, unless the user wrote it.
pub open spec fn after_stream_event(
    ms: Seq<(Seq<char>, Seq<char>, Seq<char>, Option<Seq<char>>)>,
    streaming: bool,
    e: ChatStreamEvent,
) -> (Seq<(Seq<char>, Seq<char>, Seq<char>, Option<Seq<char>>)>, bool) {
    let n = ms.len();
    match e {
        ChatStreamEvent::Chunk(chunk) => if streaming && n > 0 {
            let l = ms.last();
            (ms.update(n - 1, (l.0, l.1 + cleaned(chunk@), l.2, l.3)), streaming)
        } else {
            (ms, streaming)
        },
        ChatStreamEvent::Error(msg) => (if n > 0 {
            let l = ms.last();
            let err = cleaned(msg@);
            ms.update(n - 1, (l.0, if l.1.len() == 0 || streaming {
                "[Error] "@ + err
            } else {
                l.1 + "\n[Error] "@ + err
            }, l.2, l.3))
        } else {
            ms
        }, false),
        ChatStreamEvent::Completed => (if n > 0 && ms.last().0 != "user"@ {
            let l = ms.last();
            let split = think_split(l.1);
            ms.update(n - 1, (l.0, split.1, l.2, split.0))
        } else {
            ms
        }, false),
    }
}

/// The messages of a chat and whether it streams, after the events `es` in order.
pub open spec fn after_stream_events(
    ms: Seq<(Seq<char>, Seq<char>, Seq<char>, Option<Seq<char>>)>,
    streaming: bool,
    es: Seq<ChatStreamEvent>,
) -> (Seq<(Seq<char>, Seq<char>, Seq<char>, Option<Seq<char>>)>, bool)
    decreases es.len(),
{
    if es.len() == 0 {
        (ms, streaming)
    } else {
        let before = after_stream_events(ms, streaming, es.drop_last());
        after_stream_event(before.0, before.1, es.last())
    }
}

/// The text that a run of chunks carries, each chunk cleaned, in arrival order.
pub open spec fn chunks_text(es: Seq<ChatStreamEvent>) -> Seq<char>
    decreases es.len(),
{
    if es.len() == 0 {
        Seq::empty()
    } else {
        chunks_text(es.drop_last()) + match es.last() {
            ChatStreamEvent::Chunk(c) => cleaned(c@),
            _ => Seq::empty(),
        }
    }
}

/// A streamed answer is the text it had, followed by the chunks that arrive, cleaned and in
/// the order they arrived; streaming goes on, and nothing else changes.
pub proof fn streamed_chunks_concatenate(
    ms: Seq<(Seq<char>, Seq<char>, Seq<char>, Option<Seq<char>>)>,
    es: Seq<ChatStreamEvent>,
)
    requires
        ms.len() > 0,
        forall|i: int| 0 <= i < es.len() ==> #[trigger] es[i] is Chunk,
    ensures
        after_stream_events(ms, true, es) == (
            ms.update(ms.len() - 1, (ms.last().0, ms.last().1 + chunks_text(es), ms.last().2, ms.last().3)),
            true,
        ),
    decreases es.len(),
{
    if es.len() == 0 {
        assert(ms.last().1 + Seq::<char>::empty() =~= ms.last().1);
        assert(ms.update(ms.len() - 1, ms.last()) =~= ms);
    } else {
        let init = es.drop_last();
        assert forall|i: int| 0 <= i < init.len() implies #[trigger] init[i] is Chunk by {
            assert(init[i] == es[i]);
        }
        streamed_chunks_concatenate(ms, init);
        assert(es[es.len() - 1] is Chunk);
        let before = after_stream_events(ms, true, init);
        assert(before.0.last().1 == ms.last().1 + chunks_text(init));
        assert(ms.last().1 + chunks_text(init) + cleaned(es.last()->Chunk_0@) =~= ms.last().1 + chunks_text(es));
        assert(before.0.update(before.0.len() - 1, (ms.last().0, ms.last().1 + chunks_text(es), ms.last().2, ms.last().3)) =~= ms.update(
            ms.len() - 1,
            (ms.last().0, ms.last().1 + chunks_text(es), ms.last().2, ms.last().3),
        ));
    }
}

/// An error or the end of the answer stops streaming. An error while the answer streams
/// (or into an empty answer) replaces it with "[Error] " and the cleaned error; the end
/// never touches a message the user wrote. A chunk that comes when nothing streams
/// changes nothing.
pub proof fn stream_stops_on_error_or_completion(
    ms: Seq<(Seq<char>, Seq<char>, Seq<char>, Option<Seq<char>>)>,
    streaming: bool,
    msg: String,
    chunk: String,
)
    ensures
        !after_stream_event(ms, streaming, ChatStreamEvent::Error(msg)).1,
        !after_stream_event(ms, streaming, ChatStreamEvent::Completed).1,
        ms.len() > 0 && (streaming || ms.last().1.len() == 0) ==> after_stream_event(
            ms,
            streaming,
            ChatStreamEvent::Error(msg),
        ).0.last().1 == "[Error] "@ + cleaned(msg@),
        ms.len() > 0 && ms.last().0 == "user"@ ==> after_stream_event(ms, streaming, ChatStreamEvent::Completed).0 == ms,
        !streaming ==> after_stream_event(ms, streaming, ChatStreamEvent::Chunk(chunk)) == (ms, streaming),
{
}

fn set_last_message(chat: &mut ChatSession, m: ChatMessage)
    requires
        old(chat).messages@.len() > 0,
    ensures
        final(chat).messages@ == old(chat).messages@.update(old(chat).messages@.len() - 1, m),
        final(chat).model_name == old(chat).model_name,
        final(chat).is_streaming == old(chat).is_streaming,
{
    let n = chat.messages.len();
    chat.messages.set(n - 1, m);
}

fn apply_stream_event(chat: &mut ChatSession, e: &ChatStreamEvent)
    ensures
        (messages_view(final(chat).messages@), final(chat).is_streaming) == after_stream_event(
            messages_view(old(chat).messages@),
            old(chat).is_streaming,
            *e,
        ),
        final(chat).model_name == old(chat).model_name,
        final(chat).messages@.len() == old(chat).messages@.len(),
{
    let n = chat.messages.len();
    let ghost ms = messages_view(chat.messages@);
    match e {
        ChatStreamEvent::Chunk(chunk) => {
            if chat.is_streaming && n > 0 {
                let mut last = duplicate_message(&chat.messages[n - 1]);
                let text = clean_text(chunk.as_str());
                push_all(&mut last.content, text.as_str());
                set_last_message(chat, last);
                proof {
                    assert(messages_view(chat.messages@) =~= ms.update(n - 1, message_view(chat.messages@[n - 1])));
                }
            }
        },
        ChatStreamEvent::Error(msg) => {
            if n > 0 {
                let mut last = duplicate_message(&chat.messages[n - 1]);
                let err = clean_text(msg.as_str());
                if last.content.as_str().is_empty() || chat.is_streaming {
                    let mut c = "[Error] ".to_string();
                    push_all(&mut c, err.as_str());
                    last.content = c;
                } else {
                    push_all(&mut last.content, "\n[Error] ");
                    push_all(&mut last.content, err.as_str());
                }
                set_last_message(chat, last);
                proof {
                    assert(messages_view(chat.messages@) =~= ms.update(n - 1, message_view(chat.messages@[n - 1])));
                }
            }
            chat.is_streaming = false;
        },
        ChatStreamEvent::Completed => {
            chat.is_streaming = false;
            if n > 0 && !str_eq(chat.messages[n - 1].sender.as_str(), "user") {
                let mut last = duplicate_message(&chat.messages[n - 1]);
                let (thought, content) = split_thought(&last.content);
                last.thought = thought;
                last.content = content;
                set_last_message(chat, last);
                proof {
                    assert(messages_view(chat.messages@) =~= ms.update(n - 1, message_view(chat.messages@[n - 1])));
                }
            }
        },
    }
}

fn apply_stream_events(chat: &mut ChatSession, events: &Vec<ChatStreamEvent>)
    ensures
        (messages_view(final(chat).messages@), final(chat).is_streaming) == after_stream_events(
            messages_view(old(chat).messages@),
            old(chat).is_streaming,
            events@,
        ),
        final(chat).model_name == old(chat).model_name,
        final(chat).messages@.len() == old(chat).messages@.len(),
{
    let ghost ms0 = messages_view(chat.messages@);
    let ghost st0 = chat.is_streaming;
    let ghost name0 = chat.model_name;
    let ghost len0 = chat.messages@.len();
    let mut i: usize = 0;
    proof {
        assert(events@.take(0) =~= Seq::<ChatStreamEvent>::empty());
    }
    while i < events.len()
        invariant
            i <= events@.len(),
            (messages_view(chat.messages@), chat.is_streaming) == after_stream_events(ms0, st0, events@.take(i as int)),
            chat.model_name == name0,
            chat.messages@.len() == len0,
        decreases events@.len() - i,
    {
        apply_stream_event(chat, &events[i]);
        proof {
            assert(events@.take(i + 1).drop_last() =~= events@.take(i as int));
            assert(events@.take(i + 1).last() == events@[i as int]);
        }
        i = i + 1;
    }
    proof {
        assert(events@.take(i as int) =~= events@);
    }
}

/// The most log entries this interface keeps.
pub const TUI_MAX_LOG_ENTRIES: usize = 2000;

/// The log entries kept of `all`: the newest `TUI_MAX_LOG_ENTRIES`.
pub open spec fn kept_tui_logs(all: Seq<UILogEntry>) -> Seq<UILogEntry> {
    if all.len() > TUI_MAX_LOG_ENTRIES {
        all.subrange(all.len() - TUI_MAX_LOG_ENTRIES, all.len() as int)
    } else {
        all
    }
}

/// The log buffer of the classic interface holds at most `TUI_MAX_LOG_ENTRIES` records,
/// the newest ones in the order they came.
pub proof fn tui_log_buffer_keeps_newest(all: Seq<UILogEntry>)
    ensures
        kept_tui_logs(all).len() == (if all.len() > TUI_MAX_LOG_ENTRIES { TUI_MAX_LOG_ENTRIES as nat } else { all.len() }),
        forall|i: int| 0 <= i < kept_tui_logs(all).len() ==> #[trigger] kept_tui_logs(all)[i] == all[all.len() - kept_tui_logs(all).len() + i],
{
}

/// The log selection after a tick that brought `n_new` entries, leaving `len` in all: in
/// the Logs view, a selection that was on the last entry (or nothing selected) follows to
/// the new last entry; with no entries at all nothing is selected.
pub open spec fn tick_log_selection(a: App, n_new: nat, len: nat) -> ListState {
    let old_len = a.log_entries@.len();
    let logs = a.active_view == TuiView::Logs;
    let at_bottom = logs && old_len > 0 && match a.log_list_state.selected {
        Some(i) => i == old_len - 1,
        None => true,
    };
    if n_new > 0 && logs {
        if at_bottom { selecting(a.log_list_state, Some((len - 1) as usize)) } else { a.log_list_state }
    } else if logs && len == 0 {
        selecting(a.log_list_state, None)
    } else {
        a.log_list_state
    }
}

/// The chat selection after a tick that brought `n_events` stream events: in the chat
/// view, a selection that was on the last message (or nothing selected) follows to it;
/// without a chat or messages nothing is selected.
pub open spec fn tick_chat_selection(a: App, n_events: nat) -> ListState {
    let n = chat_len(a);
    let chat = a.active_view == TuiView::Chat;
    let at_bottom = chat && n > 0 && match a.chat_list_state.selected {
        Some(i) => i == n - 1,
        None => true,
    };
    if n_events > 0 && chat {
        if n > 0 && at_bottom { selecting(a.chat_list_state, Some((n - 1) as usize)) } else { a.chat_list_state }
    } else if chat && n == 0 {
        selecting(a.chat_list_state, None)
    } else {
        a.chat_list_state
    }
}

fn merge_tui_logs(entries: Vec<UILogEntry>, incoming: Vec<UILogEntry>) -> (r: Vec<UILogEntry>)
    requires
        entries@.len() + incoming@.len() <= usize::MAX,
    ensures
        r@ == kept_tui_logs(entries@ + incoming@),
{
    let mut entries = entries;
    let mut incoming = incoming;
    entries.append(&mut incoming);
    if entries.len() > TUI_MAX_LOG_ENTRIES {
        let overflow = entries.len() - TUI_MAX_LOG_ENTRIES;
        entries.split_off(overflow)
    } else {
        entries
    }
}

fn log_selection_after_tick(app: &App, n_new: usize, len: usize) -> (r: ListState)
    requires
        n_new > 0 ==> len > 0,
    ensures
        r == tick_log_selection(*app, n_new as nat, len as nat),
{
    let old_len = app.log_entries.len();
    let logs = app.active_view == TuiView::Logs;
    let at_bottom = logs && old_len > 0 && match app.log_list_state.selected() {
        Some(i) => i == old_len - 1,
        None => true,
    };
    let mut state = app.log_list_state;
    if n_new > 0 && logs {
        if at_bottom {
            state.select(Some(len - 1));
        }
    } else if logs && len == 0 {
        state.select(None);
    }
    state
}

fn chat_selection_after_tick(app: &App, n_events: usize) -> (r: ListState)
    ensures
        r == tick_chat_selection(*app, n_events as nat),
{
    let n = chat_messages_len(app);
    let chat = app.active_view == TuiView::Chat;
    let at_bottom = chat && n > 0 && match app.chat_list_state.selected() {
        Some(i) => i == n - 1,
        None => true,
    };
    let mut state = app.chat_list_state;
    if n_events > 0 && chat {
        if n > 0 && at_bottom {
            state.select(Some(n - 1));
        }
    } else if chat && n == 0 {
        state.select(None);
    }
    state
}

impl App {
    /// Takes in the log entries and chat stream events that arrived since the last tick:
    /// the logs keep their newest `TUI_MAX_LOG_ENTRIES` and follow the end when they did
    /// (see `tick_log_selection`); the open chat takes the events in order (see
    /// `after_stream_events`) and follows the end when it did (see `tick_chat_selection`).
    pub fn on_tick(&mut self, new_logs: Vec<UILogEntry>, chat_events: Vec<ChatStreamEvent>)
        requires
            old(self).log_entries@.len() + new_logs@.len() <= usize::MAX,
        ensures
            final(self).log_entries@ == kept_tui_logs(old(self).log_entries@ + new_logs@),
            final(self).log_list_state == tick_log_selection(*old(self), new_logs@.len(), final(self).log_entries@.len()),
            final(self).chat_list_state == tick_chat_selection(*old(self), chat_events@.len()),
            match old(self).active_chat {
                Some(c) => (final(self).active_chat matches Some(d) && d.model_name == c.model_name
                    && (messages_view(d.messages@), d.is_streaming) == after_stream_events(
                    messages_view(c.messages@),
                    c.is_streaming,
                    chat_events@,
                )),
                None => final(self).active_chat is None,
            },
            *final(self) == (App {
                log_entries: final(self).log_entries,
                log_list_state: final(self).log_list_state,
                active_chat: final(self).active_chat,
                chat_list_state: final(self).chat_list_state,
                ..*old(self)
            }),
    {
        let n_new = new_logs.len();
        let total = self.log_entries.len() + n_new;
        let len = if total > TUI_MAX_LOG_ENTRIES { TUI_MAX_LOG_ENTRIES } else { total };
        let log_state = log_selection_after_tick(self, n_new, len);
        let chat_state = chat_selection_after_tick(self, chat_events.len());
        let mut entries: Vec<UILogEntry> = Vec::new();
        std::mem::swap(&mut entries, &mut self.log_entries);
        let entries = merge_tui_logs(entries, new_logs);
        self.log_entries = entries;
        self.log_list_state = log_state;
        let mut chat = self.active_chat.take();
        match &mut chat {
            Some(c) => apply_stream_events(c, &chat_events),
            None => {},
        }
        self.active_chat = chat;
        self.chat_list_state = chat_state;
    }

    /// Reacts to a mouse event (see `after_tui_mouse`).
    pub fn on_mouse_event(&mut self, mouse_event: MouseEvent)
        ensures
            *final(self) == after_tui_mouse(*old(self), mouse_event),
    {
        let editing = self.input_mode == InputMode::Editing || self.editing_system_prompt_for_model.is_some();
        let wheel = mouse_event.kind == MouseEventKind::ScrollUp || mouse_event.kind == MouseEventKind::ScrollDown;
        let up = mouse_event.kind == MouseEventKind::ScrollUp;
        if editing && wheel {
            scroll_input_bar(self, up);
        } else if self.active_view == TuiView::Chat && chat_messages_len(self) > 0 && wheel {
            wheel_chat(self, up);
        }
    }

    /// Selects the next VM, wrapping around; an empty list keeps its selection.
    pub fn select_next_item_in_vm_list(&mut self)
        ensures
            *final(self) == vm_stepped(*old(self), true),
    {
        step_vms(self, true);
    }

    /// Selects the previous VM, wrapping around; an empty list keeps its selection.
    pub fn select_previous_item_in_vm_list(&mut self)
        ensures
            *final(self) == vm_stepped(*old(self), false),
    {
        step_vms(self, false);
    }

    /// Selects the next Ollama model, wrapping around; an empty list keeps its selection.
    pub fn select_next_item_in_ollama_list(&mut self)
        ensures
            *final(self) == model_stepped(*old(self), true),
    {
        step_models(self, true);
    }

    /// Selects the previous Ollama model, wrapping around; an empty list keeps its selection.
    pub fn select_previous_item_in_ollama_list(&mut self)
        ensures
            *final(self) == model_stepped(*old(self), false),
    {
        step_models(self, false);
    }

    /// Puts the cursor at the end of the input: its number of characters.
    pub fn reset_cursor_position(&mut self)
        ensures
            *final(self) == (App { input_cursor_char_idx: old(self).current_input@.len() as usize, ..*old(self) }),
    {
        self.input_cursor_char_idx = char_count(&self.current_input);
    }
}

} // verus!
