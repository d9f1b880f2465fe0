// How the interface reacts to keys and the mouse. Every handler returns the requests
// it makes of the runtime (refreshes, VM creation and destruction) instead of sending them itself.
use vstd::prelude::*;
use crate::tui::app::{
    view_after, view_before, App, AppEvent, AppView, NewVmRequest, ChatMessage, ChatSession, InputMode, active_system_prompt,
    menu_advanced, menu_retreated, vm_next, vm_previous, ollama_next, ollama_previous,
    bedrock_next, bedrock_previous, chat_up, chat_down, logs_up, logs_down,
};
use crate::tui::keys::{KeyCode, KeyEvent, KeyModifiers, MouseEvent, MouseEventKind, matches_binding};
use crate::tui::list_state::selecting;
use crate::text::{chars_of, string_from_chars, pop_char, push_char, str_eq};

verus! {

broadcast use vstd::string::group_string_axioms;

/// Whether `k` is the key bound to `action` in the interface's action table.
#[verifier::opaque]
pub open spec fn bound(a: App, action: Seq<char>, k: KeyEvent) -> bool {
    a.keybinding_map@.contains_key(action) && matches_binding(k, a.keybinding_map@[action])
}

/// Whether `k` is the key bound to `action` (see `bound`).
pub fn key_matches(app: &App, action: &str, key_event: &KeyEvent) -> (r: bool)
    ensures
        r == bound(*app, action@, *key_event),
{
    proof {
        reveal(bound);
    }
    match app.keybinding_map.get(action) {
        Some(b) => key_event.code == b.0 && key_event.modifiers == b.1,
        None => false,
    }
}

/// The interface after moving down in the active view: the next item of a list (wrapping
/// around), or one line down in the chat or the logs.
pub open spec fn moved_down(a: App) -> App {
    match a.active_view {
        AppView::VmList => vm_next(a),
        AppView::OllamaModelList => ollama_next(a),
        AppView::BedrockModelList => bedrock_next(a),
        AppView::Chat => chat_down(a),
        AppView::Logs => logs_down(a),
    }
}

/// The interface after moving up in the active view: the previous item of a list
/// (wrapping around), or one line up in the chat or the logs.
pub open spec fn moved_up(a: App) -> App {
    match a.active_view {
        AppView::VmList => vm_previous(a),
        AppView::OllamaModelList => ollama_previous(a),
        AppView::BedrockModelList => bedrock_previous(a),
        AppView::Chat => chat_up(a),
        AppView::Logs => logs_up(a),
    }
}

fn move_down(app: &mut App)
    ensures
        final(app).current_bedrock_filter == old(app).current_bedrock_filter,
        final(app).current_bedrock_sort == old(app).current_bedrock_sort,
        *final(app) == moved_down(*old(app)),
{
    proof {
        reveal(vm_next);
        reveal(ollama_next);
        reveal(bedrock_next);
        reveal(chat_down);
        reveal(logs_down);
    }
    match app.active_view {
        AppView::VmList => app.select_next_item_in_vm_list(),
        AppView::OllamaModelList => app.select_next_item_in_ollama_list(),
        AppView::BedrockModelList => app.select_next_item_in_bedrock_list(),
        AppView::Chat => app.scroll_chat_down(),
        AppView::Logs => app.scroll_logs_down(),
    }
}

fn move_up(app: &mut App)
    ensures
        final(app).current_bedrock_filter == old(app).current_bedrock_filter,
        final(app).current_bedrock_sort == old(app).current_bedrock_sort,
        *final(app) == moved_up(*old(app)),
{
    proof {
        reveal(vm_previous);
        reveal(ollama_previous);
        reveal(bedrock_previous);
        reveal(chat_up);
        reveal(logs_up);
    }
    match app.active_view {
        AppView::VmList => app.select_previous_item_in_vm_list(),
        AppView::OllamaModelList => app.select_previous_item_in_ollama_list(),
        AppView::BedrockModelList => app.select_previous_item_in_bedrock_list(),
        AppView::Chat => app.scroll_chat_up(),
        AppView::Logs => app.scroll_logs_up(),
    }
}

/// The interface after a mouse event: the wheel moves up or down in the active view;
/// other mouse events change nothing.
pub open spec fn after_mouse(a: App, m: MouseEvent) -> App {
    match m.kind {
        MouseEventKind::ScrollUp => moved_up(a),
        MouseEventKind::ScrollDown => moved_down(a),
        MouseEventKind::Other => a,
    }
}

/// Reacts to a mouse event (see `after_mouse`).
pub fn on_mouse_event(app: &mut App, mouse_event: MouseEvent)
    ensures
        *final(app) == after_mouse(*old(app), mouse_event),
{
    match mouse_event.kind {
        MouseEventKind::ScrollUp => move_up(app),
        MouseEventKind::ScrollDown => move_down(app),
        MouseEventKind::Other => {},
    }
}

/// Periodic work of the event loop; the interface keeps its own ticking in `App::tick`.
pub fn on_tick(app: &mut App)
    ensures
        *final(app) == *old(app),
{
}

/// Whether a modal or the menu is open, so that it takes the keys.
pub open spec fn overlay_open(a: App) -> bool {
    a.show_keybindings_modal || a.show_about_modal || a.show_menu
}

/// Whether the menu's selection can move without overflow.
pub open spec fn menu_can_move(a: App) -> bool {
    a.menu_state.selected matches Some(i) ==> i <= usize::MAX - 3
}

/// Whether the key moves the selection of an open menu: it is a key for down or up (or `j`
/// or `k`) and not one that closes the menu first.
pub open spec fn moves_menu(a: App, k: KeyEvent) -> bool {
    &&& !(bound(a, "menu"@, k) || k.code == KeyCode::Esc)
    &&& (bound(a, "down"@, k) || k.code == KeyCode::Char('j') || bound(a, "up"@, k)
        || k.code == KeyCode::Char('k'))
}

/// Whether, with a modal or the menu open, the key reaches the menu and moves its selection.
pub open spec fn overlay_moves_menu(a: App, k: KeyEvent) -> bool {
    &&& !a.show_keybindings_modal
    &&& !a.show_about_modal
    &&& (a.menu_level == 0 || a.menu_level == 1)
    &&& moves_menu(a, k)
}

/// The interface with the key-bindings modal closed.
#[verifier::opaque]
pub open spec fn keybindings_hidden(a: App) -> App {
    App { show_keybindings_modal: false, ..a }
}

/// The interface with the About box closed.
#[verifier::opaque]
pub open spec fn about_hidden(a: App) -> App {
    App { show_about_modal: false, ..a }
}

/// The interface with the menu closed.
#[verifier::opaque]
pub open spec fn menu_closed(a: App) -> App {
    App { show_menu: false, ..a }
}

/// The interface with the About box opened from the menu, which closes.
#[verifier::opaque]
pub open spec fn about_opened(a: App) -> App {
    App { show_about_modal: true, show_menu: false, ..a }
}

/// The interface in the Preferences submenu, its first entry selected.
#[verifier::opaque]
pub open spec fn preferences_entered(a: App) -> App {
    App { menu_level: 1, menu_sub_state: selecting(a.menu_sub_state, Some(0usize)), ..a }
}

/// The interface about to quit.
#[verifier::opaque]
pub open spec fn quitting(a: App) -> App {
    App { should_quit: true, ..a }
}

/// The interface back in the main menu, Preferences selected.
#[verifier::opaque]
pub open spec fn main_menu_again(a: App) -> App {
    App { menu_level: 0, menu_state: selecting(a.menu_state, Some(1usize)), ..a }
}

/// The interface with the key-bindings modal opened from the menu, which closes.
#[verifier::opaque]
pub open spec fn keybindings_opened(a: App) -> App {
    App { show_keybindings_modal: true, show_menu: false, ..a }
}

fn hide_keybindings(app: &mut App)
    ensures
        *final(app) == keybindings_hidden(*old(app)),
{
    proof {
        reveal(keybindings_hidden);
    }
    app.show_keybindings_modal = false;
}

fn hide_about(app: &mut App)
    ensures
        *final(app) == about_hidden(*old(app)),
{
    proof {
        reveal(about_hidden);
    }
    app.show_about_modal = false;
}

fn close_menu(app: &mut App)
    ensures
        *final(app) == menu_closed(*old(app)),
{
    proof {
        reveal(menu_closed);
    }
    app.show_menu = false;
}

fn open_about(app: &mut App)
    ensures
        *final(app) == about_opened(*old(app)),
{
    proof {
        reveal(about_opened);
    }
    app.show_about_modal = true;
    app.show_menu = false;
}

fn enter_preferences(app: &mut App)
    ensures
        *final(app) == preferences_entered(*old(app)),
{
    proof {
        reveal(preferences_entered);
    }
    app.menu_level = 1;
    app.menu_sub_state.select(Some(0));
}

fn quit(app: &mut App)
    ensures
        final(app).current_bedrock_filter == old(app).current_bedrock_filter,
        final(app).current_bedrock_sort == old(app).current_bedrock_sort,
        *final(app) == quitting(*old(app)),
{
    proof {
        reveal(quitting);
    }
    app.should_quit = true;
}

fn back_to_main_menu(app: &mut App)
    ensures
        *final(app) == main_menu_again(*old(app)),
{
    proof {
        reveal(main_menu_again);
    }
    app.menu_level = 0;
    app.menu_state.select(Some(1));
}

fn open_keybindings(app: &mut App)
    ensures
        *final(app) == keybindings_opened(*old(app)),
{
    proof {
        reveal(keybindings_opened);
    }
    app.show_keybindings_modal = true;
    app.show_menu = false;
}

/// The interface after a key reaches the main menu: the menu key or Esc closes it, the
/// down and up keys (or `j` and `k`) move its selection, and Enter opens About, enters the
/// Preferences submenu, or quits, by the selected entry.
pub open spec fn after_main_menu_key(a: App, k: KeyEvent) -> App {
    if bound(a, "menu"@, k) || k.code == KeyCode::Esc {
        menu_closed(a)
    } else if bound(a, "down"@, k) || k.code == KeyCode::Char('j') {
        menu_advanced(a)
    } else if bound(a, "up"@, k) || k.code == KeyCode::Char('k') {
        menu_retreated(a)
    } else if bound(a, "enter"@, k) || k.code == KeyCode::Enter {
        match a.menu_state.selected {
            Some(i) => if i == 0 {
                about_opened(a)
            } else if i == 1 {
                preferences_entered(a)
            } else if i == 2 {
                quitting(a)
            } else {
                a
            },
            None => a,
        }
    } else {
        a
    }
}

/// The interface after a key reaches the Preferences submenu: the menu key or Esc goes
/// back to the main menu with Preferences selected, the down and up keys (or `j` and `k`)
/// move the main menu's selection, and Enter opens the key bindings or goes back, by the
/// submenu's selected entry.
pub open spec fn after_preferences_key(a: App, k: KeyEvent) -> App {
    if bound(a, "menu"@, k) || k.code == KeyCode::Esc {
        main_menu_again(a)
    } else if bound(a, "down"@, k) || k.code == KeyCode::Char('j') {
        menu_advanced(a)
    } else if bound(a, "up"@, k) || k.code == KeyCode::Char('k') {
        menu_retreated(a)
    } else if bound(a, "enter"@, k) || k.code == KeyCode::Enter {
        match a.menu_sub_state.selected {
            Some(i) => if i == 0 {
                keybindings_opened(a)
            } else if i == 1 {
                main_menu_again(a)
            } else {
                a
            },
            None => a,
        }
    } else {
        a
    }
}

/// The interface after a key reaches the open modal or menu: the key-bindings modal and
/// the About box close on the help key or Esc (the About box on `q` too); the menu reacts
/// by its level (see `after_main_menu_key` and `after_preferences_key`).
pub open spec fn after_overlay_key(a: App, k: KeyEvent) -> App {
    if a.show_keybindings_modal {
        if bound(a, "help"@, k) || k.code == KeyCode::Esc {
            keybindings_hidden(a)
        } else {
            a
        }
    } else if a.show_about_modal {
        if bound(a, "help"@, k) || k.code == KeyCode::Esc || k.code == KeyCode::Char('q') {
            about_hidden(a)
        } else {
            a
        }
    } else if a.menu_level == 0 {
        after_main_menu_key(a, k)
    } else if a.menu_level == 1 {
        after_preferences_key(a, k)
    } else {
        a
    }
}

fn handle_main_menu_key(app: &mut App, key_event: KeyEvent)
    requires
        moves_menu(*old(app), key_event) ==> menu_can_move(*old(app)),
    ensures
        *final(app) == after_main_menu_key(*old(app), key_event),
{
    let back = key_matches(app, "menu", &key_event) || key_event.code == KeyCode::Esc;
    let down = key_matches(app, "down", &key_event) || key_event.code == KeyCode::Char('j');
    let up = key_matches(app, "up", &key_event) || key_event.code == KeyCode::Char('k');
    let enter = key_matches(app, "enter", &key_event) || key_event.code == KeyCode::Enter;
    if back {
        close_menu(app);
    } else if down {
        app.menu_next();
    } else if up {
        app.menu_previous();
    } else if enter {
        match app.menu_state.selected() {
            Some(selected) => {
                if selected == 0 {
                    open_about(app);
                } else if selected == 1 {
                    enter_preferences(app);
                } else if selected == 2 {
                    quit(app);
                }
            },
            None => {},
        }
    }
}

fn handle_preferences_key(app: &mut App, key_event: KeyEvent)
    requires
        moves_menu(*old(app), key_event) ==> menu_can_move(*old(app)),
    ensures
        *final(app) == after_preferences_key(*old(app), key_event),
{
    let back = key_matches(app, "menu", &key_event) || key_event.code == KeyCode::Esc;
    let down = key_matches(app, "down", &key_event) || key_event.code == KeyCode::Char('j');
    let up = key_matches(app, "up", &key_event) || key_event.code == KeyCode::Char('k');
    let enter = key_matches(app, "enter", &key_event) || key_event.code == KeyCode::Enter;
    if back {
        back_to_main_menu(app);
    } else if down {
        app.menu_next();
    } else if up {
        app.menu_previous();
    } else if enter {
        match app.menu_sub_state.selected() {
            Some(selected) => {
                if selected == 0 {
                    open_keybindings(app);
                } else if selected == 1 {
                    back_to_main_menu(app);
                }
            },
            None => {},
        }
    }
}

fn handle_overlay_key(app: &mut App, key_event: KeyEvent)
    requires
        overlay_moves_menu(*old(app), key_event) ==> menu_can_move(*old(app)),
    ensures
        *final(app) == after_overlay_key(*old(app), key_event),
{
    if app.show_keybindings_modal {
        if key_matches(app, "help", &key_event) || key_event.code == KeyCode::Esc {
            hide_keybindings(app);
        }
    } else if app.show_about_modal {
        if key_matches(app, "help", &key_event) || key_event.code == KeyCode::Esc
            || key_event.code == KeyCode::Char('q') {
            hide_about(app);
        }
    } else if app.menu_level == 0 {
        handle_main_menu_key(app, key_event);
    } else if app.menu_level == 1 {
        handle_preferences_key(app, key_event);
    }
}

/// What a key does in normal mode: the first action, in this order, whose key it is.
/// Down and up also answer to `j` and `k`.
#[derive(Clone, Copy, Debug, PartialEq, Eq, Structural)]
pub enum NormalAction {
    Quit,
    NextTab,
    PrevTab,
    ToggleMenu,
    Down,
    Up,
    Enter,
    Edit,
    Refresh,
    Delete,
    NewVm,
    Nothing,
}

/// The action a key takes in normal mode (see `NormalAction`).
pub open spec fn normal_action(a: App, k: KeyEvent) -> NormalAction {
    if bound(a, "quit"@, k) {
        NormalAction::Quit
    } else if bound(a, "next_tab"@, k) {
        NormalAction::NextTab
    } else if bound(a, "prev_tab"@, k) {
        NormalAction::PrevTab
    } else if bound(a, "menu"@, k) {
        NormalAction::ToggleMenu
    } else if bound(a, "down"@, k) || k.code == KeyCode::Char('j') {
        NormalAction::Down
    } else if bound(a, "up"@, k) || k.code == KeyCode::Char('k') {
        NormalAction::Up
    } else if bound(a, "enter"@, k) {
        NormalAction::Enter
    } else if bound(a, "edit"@, k) {
        NormalAction::Edit
    } else if bound(a, "refresh"@, k) {
        NormalAction::Refresh
    } else if bound(a, "delete"@, k) {
        NormalAction::Delete
    } else if bound(a, "new_vm"@, k) {
        NormalAction::NewVm
    } else {
        NormalAction::Nothing
    }
}

fn normal_action_of(app: &App, key_event: &KeyEvent) -> (r: NormalAction)
    ensures
        r == normal_action(*app, *key_event),
{
    if key_matches(app, "quit", key_event) {
        NormalAction::Quit
    } else if key_matches(app, "next_tab", key_event) {
        NormalAction::NextTab
    } else if key_matches(app, "prev_tab", key_event) {
        NormalAction::PrevTab
    } else if key_matches(app, "menu", key_event) {
        NormalAction::ToggleMenu
    } else if key_matches(app, "down", key_event) || key_event.code == KeyCode::Char('j') {
        NormalAction::Down
    } else if key_matches(app, "up", key_event) || key_event.code == KeyCode::Char('k') {
        NormalAction::Up
    } else if key_matches(app, "enter", key_event) {
        NormalAction::Enter
    } else if key_matches(app, "edit", key_event) {
        NormalAction::Edit
    } else if key_matches(app, "refresh", key_event) {
        NormalAction::Refresh
    } else if key_matches(app, "delete", key_event) {
        NormalAction::Delete
    } else if key_matches(app, "new_vm", key_event) {
        NormalAction::NewVm
    } else {
        NormalAction::Nothing
    }
}

/// The interface showing the next view.
#[verifier::opaque]
pub open spec fn view_advanced(a: App) -> App {
    App { active_view: view_after(a.active_view), ..a }
}

/// The interface showing the previous view.
#[verifier::opaque]
pub open spec fn view_retreated(a: App) -> App {
    App { active_view: view_before(a.active_view), ..a }
}

/// The interface with the menu toggled: opening it selects its first entry at the top level.
#[verifier::opaque]
pub open spec fn menu_toggled(a: App) -> App {
    if a.show_menu {
        App { show_menu: false, ..a }
    } else {
        App { show_menu: true, menu_state: selecting(a.menu_state, Some(0usize)), menu_level: 0, ..a }
    }
}

/// The interface with the new-VM form open at its first field.
#[verifier::opaque]
pub open spec fn wizard_opened(a: App) -> App {
    App { show_new_vm_popup: true, input_mode: InputMode::VmWizard, active_new_vm_input_idx: 0, ..a }
}

/// The interface asking to confirm the destruction of the selected VM, when the VM list
/// is shown and a VM is selected.
#[verifier::opaque]
pub open spec fn destroy_asked(a: App) -> App {
    match a.vm_list_state.selected {
        Some(i) => if a.active_view == AppView::VmList {
            App { vm_to_destroy: Some(a.vms@[i as int].name), input_mode: InputMode::ConfirmingDestroy, ..a }
        } else {
            a
        },
        None => a,
    }
}

/// Whether `c` is a new chat with the model `name` that holds one message: the system
/// prompt `prompt`, from "System", without a timestamp or a thought.
pub open spec fn is_fresh_chat(c: Option<ChatSession>, name: String, prompt: Seq<char>) -> bool {
    &&& c matches Some(s)
    &&& s.model_name == name
    &&& !s.is_streaming
    &&& s.messages@.len() == 1
    &&& s.messages@[0].sender@ == "System"@
    &&& s.messages@[0].content@ == prompt
    &&& s.messages@[0].timestamp@.len() == 0
    &&& s.messages@[0].thought is None
}

/// Whether `b` is `a` after Enter on the Ollama model list: the chat view opens, scrolled
/// to its start, on the selected model's chat, which starts anew with the model's system
/// prompt unless it is already open.
#[verifier::opaque]
pub open spec fn chat_opened(a: App, b: App) -> bool {
    match a.ollama_model_list_state.selected {
        Some(i) => if a.active_view == AppView::OllamaModelList {
            let name = a.ollama_models@[i as int].name;
            &&& b == (App {
                active_chat: b.active_chat,
                active_view: AppView::Chat,
                chat_list_state: selecting(a.chat_list_state, None),
                ..a
            })
            &&& if a.active_chat matches Some(c) && c.model_name@ == name@ {
                b.active_chat == a.active_chat
            } else {
                is_fresh_chat(b.active_chat, name, active_system_prompt(&a, name@))
            }
        } else {
            b == a
        },
        None => b == a,
    }
}

/// Whether `b` is `a` after the edit key on the Ollama model list: the selected model's
/// system prompt goes into the input bar for editing, the cursor at its end.
#[verifier::opaque]
pub open spec fn prompt_edit_started(a: App, b: App) -> bool {
    match a.ollama_model_list_state.selected {
        Some(i) => if a.active_view == AppView::OllamaModelList {
            let name = a.ollama_models@[i as int].name;
            &&& b == (App {
                editing_system_prompt_for_model: Some(name),
                current_input: b.current_input,
                input_mode: InputMode::Editing,
                input_cursor_char_idx: b.input_cursor_char_idx,
                input_bar_cursor_needs_to_be_visible: true,
                ..a
            })
            &&& b.current_input@ == active_system_prompt(&a, name@)
            &&& b.input_cursor_char_idx == b.current_input@.len()
        } else {
            b == a
        },
        None => b == a,
    }
}

/// Whether `b` is `a` after the normal-mode action that `k` takes, before the Bedrock
/// filter and sort keys are looked at.
pub open spec fn normal_step(a: App, b: App, k: KeyEvent) -> bool {
    match normal_action(a, k) {
        NormalAction::Quit => b == quitting(a),
        NormalAction::NextTab => b == view_advanced(a),
        NormalAction::PrevTab => b == view_retreated(a),
        NormalAction::ToggleMenu => b == menu_toggled(a),
        NormalAction::Down => b == moved_down(a),
        NormalAction::Up => b == moved_up(a),
        NormalAction::Enter => chat_opened(a, b),
        NormalAction::Edit => prompt_edit_started(a, b),
        NormalAction::Refresh => b == a,
        NormalAction::Delete => b == destroy_asked(a),
        NormalAction::NewVm => b == wizard_opened(a),
        NormalAction::Nothing => b == a,
    }
}

/// The Bedrock filter that follows `cur` when cycling: available to use, then available
/// to request access; an unknown filter counts as the first.
pub open spec fn next_bedrock_filter(cur: Seq<char>) -> Seq<char> {
    if cur == "available_to_request_access"@ {
        "available_to_use"@
    } else {
        "available_to_request_access"@
    }
}

/// The Bedrock filter key toggles between the two filters: it always changes a filter, and
/// pressing it twice gives back the filter one started from.
pub proof fn bedrock_filter_toggles(cur: Seq<char>)
    requires
        cur == "available_to_use"@ || cur == "available_to_request_access"@,
    ensures
        next_bedrock_filter(cur) != cur,
        next_bedrock_filter(next_bedrock_filter(cur)) == cur,
{
    reveal_strlit("available_to_use");
    reveal_strlit("available_to_request_access");
    assert("available_to_use"@.len() != "available_to_request_access"@.len());
}

/// Whether `b` is `a` after the Bedrock filter or sort key, which act while the Bedrock
/// model list is shown: the filter key cycles the filter; the sort key cycles the sort
/// orders, of which alphabetical is the only one.
#[verifier::opaque]
pub open spec fn bedrock_cycled(a: App, b: App, k: KeyEvent) -> bool {
    if a.active_view == AppView::BedrockModelList && bound(a, "bedrock_filter"@, k) {
        &&& b == (App { current_bedrock_filter: b.current_bedrock_filter, ..a })
        &&& b.current_bedrock_filter@ == next_bedrock_filter(a.current_bedrock_filter@)
    } else if a.active_view == AppView::BedrockModelList && bound(a, "bedrock_sort"@, k) {
        &&& b == (App { current_bedrock_sort: b.current_bedrock_sort, ..a })
        &&& b.current_bedrock_sort@ == "alphabetical"@
    } else {
        b == a
    }
}

/// On the Bedrock model list, the filter key (when it moves nothing else) always leaves one
/// of the two filters chosen, and pressing it twice gives back the filter one started from.
pub proof fn bedrock_filter_key_toggles(
    a: App,
    b: App,
    d: App,
    k: KeyEvent,
    r1: Seq<AppEvent>,
    r2: Seq<AppEvent>,
)
    requires
        !overlay_open(a),
        a.input_mode == InputMode::Normal,
        a.active_view == AppView::BedrockModelList,
        bound(a, "bedrock_filter"@, k),
        normal_action(a, k) == NormalAction::Nothing || normal_action(a, k) == NormalAction::Refresh,
        key_handled(a, b, k, r1),
        key_handled(b, d, k, r2),
    ensures
        b.current_bedrock_filter@ == "available_to_use"@
            || b.current_bedrock_filter@ == "available_to_request_access"@,
        (a.current_bedrock_filter@ == "available_to_use"@
            || a.current_bedrock_filter@ == "available_to_request_access"@)
            ==> d.current_bedrock_filter@ == a.current_bedrock_filter@,
{
    reveal(bedrock_cycled);
    reveal(bound);
    assert(with_bedrock_choice_of(b, a) == a);
    assert(b == (App { current_bedrock_filter: b.current_bedrock_filter, ..a }));
    assert(normal_action(b, k) == normal_action(a, k));
    assert(with_bedrock_choice_of(d, b) == b);
    assert(d.current_bedrock_filter@ == next_bedrock_filter(b.current_bedrock_filter@));
    if a.current_bedrock_filter@ == "available_to_use"@
        || a.current_bedrock_filter@ == "available_to_request_access"@ {
        bedrock_filter_toggles(a.current_bedrock_filter@);
    }
}

/// `b` with the Bedrock filter and sort of `a`.
pub open spec fn with_bedrock_choice_of(b: App, a: App) -> App {
    App { current_bedrock_filter: a.current_bedrock_filter, current_bedrock_sort: a.current_bedrock_sort, ..b }
}

/// Whether a key can be handled in normal mode without indexing past a list: Enter and
/// the edit key need the selected Ollama model to exist, the delete key the selected VM.
pub open spec fn normal_key_safe(a: App, k: KeyEvent) -> bool {
    &&& (normal_action(a, k) == NormalAction::Enter || normal_action(a, k) == NormalAction::Edit)
        && a.active_view == AppView::OllamaModelList
        ==> (a.ollama_model_list_state.selected matches Some(i) ==> i < a.ollama_models@.len())
    &&& normal_action(a, k) == NormalAction::Delete && a.active_view == AppView::VmList
        ==> (a.vm_list_state.selected matches Some(i) ==> i < a.vms@.len())
}

fn advance_view(app: &mut App)
    ensures
        final(app).current_bedrock_filter == old(app).current_bedrock_filter,
        final(app).current_bedrock_sort == old(app).current_bedrock_sort,
        *final(app) == view_advanced(*old(app)),
{
    proof {
        reveal(view_advanced);
    }
    app.active_view = app.active_view.next();
}

fn retreat_view(app: &mut App)
    ensures
        final(app).current_bedrock_filter == old(app).current_bedrock_filter,
        final(app).current_bedrock_sort == old(app).current_bedrock_sort,
        *final(app) == view_retreated(*old(app)),
{
    proof {
        reveal(view_retreated);
    }
    app.active_view = app.active_view.previous();
}

fn toggle_menu(app: &mut App)
    ensures
        final(app).current_bedrock_filter == old(app).current_bedrock_filter,
        final(app).current_bedrock_sort == old(app).current_bedrock_sort,
        *final(app) == menu_toggled(*old(app)),
{
    proof {
        reveal(menu_toggled);
    }
    app.show_menu = !app.show_menu;
    if app.show_menu {
        app.menu_state.select(Some(0));
        app.menu_level = 0;
    }
}

fn open_wizard(app: &mut App)
    ensures
        final(app).current_bedrock_filter == old(app).current_bedrock_filter,
        final(app).current_bedrock_sort == old(app).current_bedrock_sort,
        *final(app) == wizard_opened(*old(app)),
{
    proof {
        reveal(wizard_opened);
    }
    app.show_new_vm_popup = true;
    app.input_mode = InputMode::VmWizard;
    app.active_new_vm_input_idx = 0;
}

fn ask_destroy(app: &mut App)
    requires
        old(app).active_view == AppView::VmList ==> (old(app).vm_list_state.selected matches Some(i) ==> i < old(app).vms@.len()),
    ensures
        final(app).current_bedrock_filter == old(app).current_bedrock_filter,
        final(app).current_bedrock_sort == old(app).current_bedrock_sort,
        *final(app) == destroy_asked(*old(app)),
{
    proof {
        reveal(destroy_asked);
    }
    if app.active_view == AppView::VmList {
        match app.vm_list_state.selected() {
            Some(i) => {
                let vm_name = app.vms[i].name.clone();
                app.vm_to_destroy = Some(vm_name);
                app.input_mode = InputMode::ConfirmingDestroy;
            },
            None => {},
        }
    }
}

fn open_chat(app: &mut App)
    requires
        old(app).active_view == AppView::OllamaModelList ==> (old(app).ollama_model_list_state.selected matches Some(i) ==> i < old(app).ollama_models@.len()),
    ensures
        final(app).current_bedrock_filter == old(app).current_bedrock_filter,
        final(app).current_bedrock_sort == old(app).current_bedrock_sort,
        chat_opened(*old(app), *final(app)),
{
    proof {
        reveal(chat_opened);
    }
    if app.active_view == AppView::OllamaModelList {
        match app.ollama_model_list_state.selected() {
            Some(i) => {
                let name = app.ollama_models[i].name.clone();
                let needs_new = match &app.active_chat {
                    Some(c) => !(c.model_name == name),
                    None => true,
                };
                if needs_new {
                    let prompt = app.get_active_system_prompt(name.as_str());
                    let message = ChatMessage {
                        sender: "System".to_string(),
                        content: prompt,
                        timestamp: String::new(),
                        thought: None,
                    };
                    let mut messages: Vec<ChatMessage> = Vec::new();
                    messages.push(message);
                    app.active_chat = Some(ChatSession { model_name: name, messages, is_streaming: false });
                }
                app.active_view = AppView::Chat;
                app.chat_list_state.select(None);
            },
            None => {},
        }
    }
}

fn start_prompt_edit(app: &mut App)
    requires
        old(app).active_view == AppView::OllamaModelList ==> (old(app).ollama_model_list_state.selected matches Some(i) ==> i < old(app).ollama_models@.len()),
    ensures
        final(app).current_bedrock_filter == old(app).current_bedrock_filter,
        final(app).current_bedrock_sort == old(app).current_bedrock_sort,
        prompt_edit_started(*old(app), *final(app)),
{
    proof {
        reveal(prompt_edit_started);
    }
    if app.active_view == AppView::OllamaModelList {
        match app.ollama_model_list_state.selected() {
            Some(i) => {
                let model_name = app.ollama_models[i].name.clone();
                let prompt = app.get_active_system_prompt(model_name.as_str());
                app.editing_system_prompt_for_model = Some(model_name);
                app.current_input = prompt;
                app.input_mode = InputMode::Editing;
                app.reset_cursor_position();
            },
            None => {},
        }
    }
}

fn cycle_bedrock_choice(app: &mut App, key_event: &KeyEvent)
    ensures
        bedrock_cycled(*old(app), *final(app), *key_event),
{
    proof {
        reveal(bedrock_cycled);
    }
    if app.active_view == AppView::BedrockModelList {
        if key_matches(app, "bedrock_filter", key_event) {
            let next = if str_eq(app.current_bedrock_filter.as_str(), "available_to_request_access") {
                "available_to_use".to_string()
            } else {
                "available_to_request_access".to_string()
            };
            app.current_bedrock_filter = next;
        } else if key_matches(app, "bedrock_sort", key_event) {
            app.current_bedrock_sort = "alphabetical".to_string();
        }
    }
}

fn handle_normal_action(app: &mut App, key_event: &KeyEvent) -> (r: Vec<AppEvent>)
    requires
        normal_key_safe(*old(app), *key_event),
    ensures
        normal_step(*old(app), *final(app), *key_event),
        final(app).current_bedrock_filter == old(app).current_bedrock_filter,
        final(app).current_bedrock_sort == old(app).current_bedrock_sort,
        r@ == (if normal_action(*old(app), *key_event) == NormalAction::Refresh {
            seq![AppEvent::FetchVms, AppEvent::FetchOllamaModels, AppEvent::FetchBedrockModels]
        } else {
            Seq::<AppEvent>::empty()
        }),
{
    let mut requests: Vec<AppEvent> = Vec::new();
    match normal_action_of(app, key_event) {
        NormalAction::Quit => quit(app),
        NormalAction::NextTab => advance_view(app),
        NormalAction::PrevTab => retreat_view(app),
        NormalAction::ToggleMenu => toggle_menu(app),
        NormalAction::Down => move_down(app),
        NormalAction::Up => move_up(app),
        NormalAction::Enter => open_chat(app),
        NormalAction::Edit => start_prompt_edit(app),
        NormalAction::Refresh => {
            requests.push(AppEvent::FetchVms);
            requests.push(AppEvent::FetchOllamaModels);
            requests.push(AppEvent::FetchBedrockModels);
        },
        NormalAction::Delete => ask_destroy(app),
        NormalAction::NewVm => open_wizard(app),
        NormalAction::Nothing => {},
    }
    requests
}

fn handle_normal_mode_key(app: &mut App, key_event: KeyEvent) -> (r: Vec<AppEvent>)
    requires
        normal_key_safe(*old(app), key_event),
    ensures
        normal_step(*old(app), with_bedrock_choice_of(*final(app), *old(app)), key_event),
        bedrock_cycled(with_bedrock_choice_of(*final(app), *old(app)), *final(app), key_event),
        r@ == (if normal_action(*old(app), key_event) == NormalAction::Refresh {
            seq![AppEvent::FetchVms, AppEvent::FetchOllamaModels, AppEvent::FetchBedrockModels]
        } else {
            Seq::<AppEvent>::empty()
        }),
{
    let requests = handle_normal_action(app, &key_event);
    let ghost mid = *app;
    cycle_bedrock_choice(app, &key_event);
    proof {
        reveal(bedrock_cycled);
        assert(with_bedrock_choice_of(*app, *old(app)) == mid);
    }
    requests
}

/// Whether `b` is `a` after Enter in text editing: the edited system prompt is stored for
/// its model (if a prompt is being edited) and editing ends.
#[verifier::opaque]
pub open spec fn prompt_committed(a: App, b: App) -> bool {
    &&& b == (App {
        editable_ollama_model_prompts: b.editable_ollama_model_prompts,
        editing_system_prompt_for_model: None,
        input_mode: InputMode::Normal,
        input_bar_cursor_needs_to_be_visible: true,
        ..a
    })
    &&& b.editable_ollama_model_prompts@ == (match a.editing_system_prompt_for_model {
        Some(n) => a.editable_ollama_model_prompts@.insert(n@, a.current_input),
        None => a.editable_ollama_model_prompts@,
    })
}

/// Whether `b` is `a` after typing `c`: it goes in at the cursor (a character position in
/// the text) and the cursor moves one on.
#[verifier::opaque]
pub open spec fn char_inserted(a: App, b: App, c: char) -> bool {
    &&& b == (App {
        current_input: b.current_input,
        input_cursor_char_idx: (a.input_cursor_char_idx + 1) as usize,
        input_bar_cursor_needs_to_be_visible: true,
        ..a
    })
    &&& b.current_input@ == a.current_input@.insert(a.input_cursor_char_idx as int, c)
}

/// Whether `b` is `a` after Backspace: the cursor moves back one and the character at its
/// new position goes; at the start nothing is removed.
#[verifier::opaque]
pub open spec fn char_deleted(a: App, b: App) -> bool {
    if a.input_cursor_char_idx > 0 {
        &&& b == (App {
            current_input: b.current_input,
            input_cursor_char_idx: (a.input_cursor_char_idx - 1) as usize,
            input_bar_cursor_needs_to_be_visible: true,
            ..a
        })
        &&& b.current_input@ == a.current_input@.remove(a.input_cursor_char_idx - 1)
    } else {
        b == (App { input_bar_cursor_needs_to_be_visible: true, ..a })
    }
}

/// The interface after Left in text editing: the cursor moves back one, if it can.
#[verifier::opaque]
pub open spec fn cursor_moved_left(a: App) -> App {
    App {
        input_cursor_char_idx: if a.input_cursor_char_idx > 0 {
            (a.input_cursor_char_idx - 1) as usize
        } else {
            a.input_cursor_char_idx
        },
        input_bar_cursor_needs_to_be_visible: true,
        ..a
    }
}

/// The interface after Right in text editing: the cursor moves on one while it is before
/// the end of the text.
#[verifier::opaque]
pub open spec fn cursor_moved_right(a: App) -> App {
    App {
        input_cursor_char_idx: if a.input_cursor_char_idx < a.current_input@.len() {
            (a.input_cursor_char_idx + 1) as usize
        } else {
            a.input_cursor_char_idx
        },
        input_bar_cursor_needs_to_be_visible: true,
        ..a
    }
}

/// The interface after Esc in text editing: editing ends without storing anything.
#[verifier::opaque]
pub open spec fn editing_cancelled(a: App) -> App {
    App {
        input_mode: InputMode::Normal,
        editing_system_prompt_for_model: None,
        input_bar_cursor_needs_to_be_visible: true,
        ..a
    }
}

/// The interface with the cursor of the input bar to be kept visible.
#[verifier::opaque]
pub open spec fn cursor_kept_visible(a: App) -> App {
    App { input_bar_cursor_needs_to_be_visible: true, ..a }
}

/// Whether `b` is `a` after a key in text editing (see the cases above); any other key
/// only asks for the cursor to be kept visible.
pub open spec fn edited(a: App, b: App, k: KeyEvent) -> bool {
    match k.code {
        KeyCode::Enter => prompt_committed(a, b),
        KeyCode::Char(c) => char_inserted(a, b, c),
        KeyCode::Backspace => char_deleted(a, b),
        KeyCode::Left => b == cursor_moved_left(a),
        KeyCode::Right => b == cursor_moved_right(a),
        KeyCode::Esc => b == editing_cancelled(a),
        _ => b == cursor_kept_visible(a),
    }
}

/// Whether a key can be handled in text editing without a panic: a character needs the
/// cursor within the text (at most at its end), and so does Backspace.
pub open spec fn editing_key_safe(a: App, k: KeyEvent) -> bool {
    match k.code {
        KeyCode::Char(_) => a.input_cursor_char_idx <= a.current_input@.len()
            && a.input_cursor_char_idx < usize::MAX,
        KeyCode::Backspace => a.input_cursor_char_idx <= a.current_input@.len(),
        _ => true,
    }
}

fn commit_prompt(app: &mut App)
    ensures
        prompt_committed(*old(app), *final(app)),
{
    proof {
        reveal(prompt_committed);
    }
    match app.editing_system_prompt_for_model.take() {
        Some(model_name) => {
            let text = app.current_input.clone();
            app.editable_ollama_model_prompts.insert(model_name, text);
        },
        None => {},
    }
    app.input_mode = InputMode::Normal;
    app.input_bar_cursor_needs_to_be_visible = true;
}

fn insert_char(app: &mut App, c: char)
    requires
        old(app).input_cursor_char_idx <= old(app).current_input@.len(),
        old(app).input_cursor_char_idx < usize::MAX,
    ensures
        char_inserted(*old(app), *final(app), c),
{
    proof {
        reveal(char_inserted);
    }
    let char_idx = app.input_cursor_char_idx;
    let mut chars = chars_of(app.current_input.as_str());
    chars.insert(char_idx, c);
    app.current_input = string_from_chars(&chars);
    app.input_cursor_char_idx = char_idx + 1;
    app.input_bar_cursor_needs_to_be_visible = true;
}

fn delete_char(app: &mut App)
    requires
        old(app).input_cursor_char_idx <= old(app).current_input@.len(),
    ensures
        char_deleted(*old(app), *final(app)),
{
    proof {
        reveal(char_deleted);
    }
    if app.input_cursor_char_idx > 0 {
        let char_idx = app.input_cursor_char_idx - 1;
        app.input_cursor_char_idx = char_idx;
        let mut chars = chars_of(app.current_input.as_str());
        chars.remove(char_idx);
        app.current_input = string_from_chars(&chars);
    }
    app.input_bar_cursor_needs_to_be_visible = true;
}

fn move_cursor_left(app: &mut App)
    ensures
        *final(app) == cursor_moved_left(*old(app)),
{
    proof {
        reveal(cursor_moved_left);
    }
    if app.input_cursor_char_idx > 0 {
        app.input_cursor_char_idx = app.input_cursor_char_idx - 1;
    }
    app.input_bar_cursor_needs_to_be_visible = true;
}

fn move_cursor_right(app: &mut App)
    ensures
        *final(app) == cursor_moved_right(*old(app)),
{
    proof {
        reveal(cursor_moved_right);
    }
    if app.input_cursor_char_idx < chars_of(app.current_input.as_str()).len() {
        app.input_cursor_char_idx = app.input_cursor_char_idx + 1;
    }
    app.input_bar_cursor_needs_to_be_visible = true;
}

fn cancel_editing(app: &mut App)
    ensures
        *final(app) == editing_cancelled(*old(app)),
{
    proof {
        reveal(editing_cancelled);
    }
    app.input_mode = InputMode::Normal;
    app.editing_system_prompt_for_model = None;
    app.input_bar_cursor_needs_to_be_visible = true;
}

fn keep_cursor_visible(app: &mut App)
    ensures
        *final(app) == cursor_kept_visible(*old(app)),
{
    proof {
        reveal(cursor_kept_visible);
    }
    app.input_bar_cursor_needs_to_be_visible = true;
}

fn handle_editing_mode_key(app: &mut App, key_event: KeyEvent)
    requires
        editing_key_safe(*old(app), key_event),
    ensures
        edited(*old(app), *final(app), key_event),
{
    match key_event.code {
        KeyCode::Enter => commit_prompt(app),
        KeyCode::Char(c) => insert_char(app, c),
        KeyCode::Backspace => delete_char(app),
        KeyCode::Left => move_cursor_left(app),
        KeyCode::Right => move_cursor_right(app),
        KeyCode::Esc => cancel_editing(app),
        _ => keep_cursor_visible(app),
    }
}

/// The text of the new-VM form field at `idx`: 0 the name, 2 the ISO path or the source
/// image path (by the ISO checkbox), 3 the disk path, 4 the CPUs, 5 the RAM, 6 the disk
/// size. Field 1 is the checkbox and has no text.
pub open spec fn wizard_field(a: App, idx: usize) -> String {
    if idx == 0 {
        a.new_vm_name
    } else if idx == 2 {
        if a.new_vm_use_iso { a.new_vm_iso_path } else { a.new_vm_source_image_path }
    } else if idx == 3 {
        a.new_vm_disk_path
    } else if idx == 4 {
        a.new_vm_cpu
    } else if idx == 5 {
        a.new_vm_ram_mb
    } else {
        a.new_vm_disk_gb
    }
}

/// The interface with the VM name of the new-VM form replaced by `t`.
#[verifier::opaque]
pub open spec fn name_entered(a: App, t: String) -> App {
    App { new_vm_name: t, ..a }
}

/// The interface with the ISO path of the new-VM form replaced by `t`.
#[verifier::opaque]
pub open spec fn iso_entered(a: App, t: String) -> App {
    App { new_vm_iso_path: t, ..a }
}

/// The interface with the source image path of the new-VM form replaced by `t`.
#[verifier::opaque]
pub open spec fn source_entered(a: App, t: String) -> App {
    App { new_vm_source_image_path: t, ..a }
}

/// The interface with the disk path of the new-VM form replaced by `t`.
#[verifier::opaque]
pub open spec fn disk_path_entered(a: App, t: String) -> App {
    App { new_vm_disk_path: t, ..a }
}

/// The interface with the CPU count of the new-VM form replaced by `t`.
#[verifier::opaque]
pub open spec fn cpu_entered(a: App, t: String) -> App {
    App { new_vm_cpu: t, ..a }
}

/// The interface with the RAM size of the new-VM form replaced by `t`.
#[verifier::opaque]
pub open spec fn ram_entered(a: App, t: String) -> App {
    App { new_vm_ram_mb: t, ..a }
}

/// The interface with the disk size of the new-VM form replaced by `t`.
#[verifier::opaque]
pub open spec fn disk_gb_entered(a: App, t: String) -> App {
    App { new_vm_disk_gb: t, ..a }
}

/// The interface with the text of form field `idx` (see `wizard_field`) replaced by `t`.
pub open spec fn with_wizard_field(a: App, idx: usize, t: String) -> App {
    if idx == 0 {
        name_entered(a, t)
    } else if idx == 2 {
        if a.new_vm_use_iso { iso_entered(a, t) } else { source_entered(a, t) }
    } else if idx == 3 {
        disk_path_entered(a, t)
    } else if idx == 4 {
        cpu_entered(a, t)
    } else if idx == 5 {
        ram_entered(a, t)
    } else {
        disk_gb_entered(a, t)
    }
}

/// The interface with the ISO checkbox flipped.
#[verifier::opaque]
pub open spec fn iso_toggled(a: App) -> App {
    App { new_vm_use_iso: !a.new_vm_use_iso, ..a }
}

/// The interface with the new-VM form's focus on field `idx`.
#[verifier::opaque]
pub open spec fn wizard_focused(a: App, idx: usize) -> App {
    App { active_new_vm_input_idx: idx, ..a }
}

/// The interface with the new-VM form closed.
#[verifier::opaque]
pub open spec fn wizard_closed(a: App) -> App {
    App { show_new_vm_popup: false, input_mode: InputMode::Normal, ..a }
}

/// Whether `b` is `a` after a key in the new-VM form (with focus on one of its seven
/// fields; with focus elsewhere nothing happens). On the checkbox, Enter or a space flips
/// it first. Then: a character is added to the focused text field, Backspace removes its
/// last character, Tab and Shift-Tab move the focus forward and back around the seven
/// fields, and Enter on a text field (which asks for the VM, see `wizard_creates`) or Esc
/// closes the form.
pub open spec fn wizard_keyed(a: App, b: App, k: KeyEvent) -> bool {
    let idx = a.active_new_vm_input_idx;
    let on_box = idx == 1;
    let m = if on_box && (k.code == KeyCode::Enter || k.code == KeyCode::Char(' ')) {
        iso_toggled(a)
    } else {
        a
    };
    if idx >= 7 {
        b == a
    } else {
        match k.code {
            KeyCode::Char(c) => if on_box {
                b == m
            } else {
                &&& b == with_wizard_field(m, idx, wizard_field(b, idx))
                &&& wizard_field(b, idx)@ == wizard_field(m, idx)@.push(c)
            },
            KeyCode::Backspace => if on_box {
                b == m
            } else {
                &&& b == with_wizard_field(m, idx, wizard_field(b, idx))
                &&& wizard_field(b, idx)@ == (if wizard_field(m, idx)@.len() > 0 {
                    wizard_field(m, idx)@.drop_last()
                } else {
                    wizard_field(m, idx)@
                })
            },
            KeyCode::Tab => b == wizard_focused(m, ((idx + 1) % 7) as usize),
            KeyCode::BackTab => b == wizard_focused(m, ((idx + 6) % 7) as usize),
            KeyCode::Enter => if on_box { b == m } else { b == wizard_closed(m) },
            KeyCode::Esc => b == wizard_closed(m),
            _ => b == m,
        }
    }
}

/// Whether `k` asks the form to create its VM: Enter with the focus on a text field.
pub open spec fn wizard_creates(a: App, k: KeyEvent) -> bool {
    k.code == KeyCode::Enter && a.active_new_vm_input_idx < 7 && a.active_new_vm_input_idx != 1
}

/// Whether `q` holds what the form of `a` holds.
pub open spec fn is_form_request(a: App, q: NewVmRequest) -> bool {
    &&& q.name@ == a.new_vm_name@
    &&& q.use_iso == a.new_vm_use_iso
    &&& q.iso_path@ == a.new_vm_iso_path@
    &&& q.source_image_path@ == a.new_vm_source_image_path@
    &&& q.disk_path@ == a.new_vm_disk_path@
    &&& q.cpu@ == a.new_vm_cpu@
    &&& q.ram@ == a.new_vm_ram_mb@
    &&& q.disk_gb@ == a.new_vm_disk_gb@
}

/// Whether `r` are the requests that a key in the form makes: the form's contents, to
/// be created, when the key asks for that, and nothing otherwise.
pub open spec fn wizard_requests(a: App, k: KeyEvent, r: Seq<AppEvent>) -> bool {
    if wizard_creates(a, k) {
        &&& r.len() == 1
        &&& r[0] matches AppEvent::CreateVm(q) && is_form_request(a, q)
    } else {
        r.len() == 0
    }
}

fn form_request(app: &App) -> (q: NewVmRequest)
    ensures
        is_form_request(*app, q),
{
    NewVmRequest {
        name: app.new_vm_name.clone(),
        use_iso: app.new_vm_use_iso,
        iso_path: app.new_vm_iso_path.clone(),
        source_image_path: app.new_vm_source_image_path.clone(),
        disk_path: app.new_vm_disk_path.clone(),
        cpu: app.new_vm_cpu.clone(),
        ram: app.new_vm_ram_mb.clone(),
        disk_gb: app.new_vm_disk_gb.clone(),
    }
}

fn toggle_iso(app: &mut App)
    ensures
        *final(app) == iso_toggled(*old(app)),
{
    proof {
        reveal(iso_toggled);
    }
    app.new_vm_use_iso = !app.new_vm_use_iso;
}

fn focus_wizard_field(app: &mut App, idx: usize)
    ensures
        *final(app) == wizard_focused(*old(app), idx),
{
    proof {
        reveal(wizard_focused);
    }
    app.active_new_vm_input_idx = idx;
}

fn close_wizard(app: &mut App)
    ensures
        *final(app) == wizard_closed(*old(app)),
{
    proof {
        reveal(wizard_closed);
    }
    app.show_new_vm_popup = false;
    app.input_mode = InputMode::Normal;
}

fn wizard_field_text(app: &App, idx: usize) -> (t: &String)
    ensures
        *t == wizard_field(*app, idx),
{
    if idx == 0 {
        &app.new_vm_name
    } else if idx == 2 {
        if app.new_vm_use_iso { &app.new_vm_iso_path } else { &app.new_vm_source_image_path }
    } else if idx == 3 {
        &app.new_vm_disk_path
    } else if idx == 4 {
        &app.new_vm_cpu
    } else if idx == 5 {
        &app.new_vm_ram_mb
    } else {
        &app.new_vm_disk_gb
    }
}

fn enter_name(app: &mut App, t: String)
    ensures
        *final(app) == name_entered(*old(app), t),
        final(app).new_vm_name == t,
        final(app).new_vm_use_iso == old(app).new_vm_use_iso,
{
    proof {
        reveal(name_entered);
    }
    app.new_vm_name = t;
}

fn enter_iso(app: &mut App, t: String)
    ensures
        *final(app) == iso_entered(*old(app), t),
        final(app).new_vm_iso_path == t,
        final(app).new_vm_use_iso == old(app).new_vm_use_iso,
{
    proof {
        reveal(iso_entered);
    }
    app.new_vm_iso_path = t;
}

fn enter_source(app: &mut App, t: String)
    ensures
        *final(app) == source_entered(*old(app), t),
        final(app).new_vm_source_image_path == t,
        final(app).new_vm_use_iso == old(app).new_vm_use_iso,
{
    proof {
        reveal(source_entered);
    }
    app.new_vm_source_image_path = t;
}

fn enter_disk_path(app: &mut App, t: String)
    ensures
        *final(app) == disk_path_entered(*old(app), t),
        final(app).new_vm_disk_path == t,
        final(app).new_vm_use_iso == old(app).new_vm_use_iso,
{
    proof {
        reveal(disk_path_entered);
    }
    app.new_vm_disk_path = t;
}

fn enter_cpu(app: &mut App, t: String)
    ensures
        *final(app) == cpu_entered(*old(app), t),
        final(app).new_vm_cpu == t,
        final(app).new_vm_use_iso == old(app).new_vm_use_iso,
{
    proof {
        reveal(cpu_entered);
    }
    app.new_vm_cpu = t;
}

fn enter_ram(app: &mut App, t: String)
    ensures
        *final(app) == ram_entered(*old(app), t),
        final(app).new_vm_ram_mb == t,
        final(app).new_vm_use_iso == old(app).new_vm_use_iso,
{
    proof {
        reveal(ram_entered);
    }
    app.new_vm_ram_mb = t;
}

fn enter_disk_gb(app: &mut App, t: String)
    ensures
        *final(app) == disk_gb_entered(*old(app), t),
        final(app).new_vm_disk_gb == t,
        final(app).new_vm_use_iso == old(app).new_vm_use_iso,
{
    proof {
        reveal(disk_gb_entered);
    }
    app.new_vm_disk_gb = t;
}

fn set_wizard_field(app: &mut App, idx: usize, t: String)
    ensures
        *final(app) == with_wizard_field(*old(app), idx, t),
        wizard_field(*final(app), idx) == t,
{
    if idx == 0 {
        enter_name(app, t);
    } else if idx == 2 {
        if app.new_vm_use_iso {
            enter_iso(app, t);
        } else {
            enter_source(app, t);
        }
    } else if idx == 3 {
        enter_disk_path(app, t);
    } else if idx == 4 {
        enter_cpu(app, t);
    } else if idx == 5 {
        enter_ram(app, t);
    } else {
        enter_disk_gb(app, t);
    }
}

fn handle_vm_wizard_mode_key(app: &mut App, key_event: KeyEvent) -> (r: Vec<AppEvent>)
    ensures
        wizard_keyed(*old(app), *final(app), key_event),
        wizard_requests(*old(app), key_event, r@),
{
    let mut requests: Vec<AppEvent> = Vec::new();
    let idx = app.active_new_vm_input_idx;
    if idx >= 7 {
        return requests;
    }
    if idx == 1 && (key_event.code == KeyCode::Enter || key_event.code == KeyCode::Char(' ')) {
        toggle_iso(app);
    }
    match key_event.code {
        KeyCode::Char(c) => {
            if idx != 1 {
                let mut t = wizard_field_text(app, idx).clone();
                push_char(&mut t, c);
                set_wizard_field(app, idx, t);
            }
        },
        KeyCode::Backspace => {
            if idx != 1 {
                let mut t = wizard_field_text(app, idx).clone();
                pop_char(&mut t);
                set_wizard_field(app, idx, t);
            }
        },
        KeyCode::Tab => focus_wizard_field(app, (idx + 1) % 7),
        KeyCode::BackTab => focus_wizard_field(app, (idx + 6) % 7),
        KeyCode::Enter => {
            if idx != 1 {
                requests.push(AppEvent::CreateVm(form_request(app)));
                close_wizard(app);
            }
        },
        KeyCode::Esc => close_wizard(app),
        _ => {},
    }
    requests
}

/// Whether `b` is `a` after y or Y confirmed a destruction, or n, N or Esc refused it:
/// either way the request is forgotten and normal mode resumes; other keys do nothing.
#[verifier::opaque]
pub open spec fn destroy_answered(a: App) -> App {
    App { vm_to_destroy: None, input_mode: InputMode::Normal, ..a }
}

/// Whether `k` confirms a destruction.
pub open spec fn confirms(k: KeyEvent) -> bool {
    k.code == KeyCode::Char('y') || k.code == KeyCode::Char('Y')
}

/// Whether `k` refuses a destruction.
pub open spec fn refuses(k: KeyEvent) -> bool {
    k.code == KeyCode::Char('n') || k.code == KeyCode::Char('N') || k.code == KeyCode::Esc
}

fn answer_destroy(app: &mut App)
    ensures
        *final(app) == destroy_answered(*old(app)),
{
    proof {
        reveal(destroy_answered);
    }
    app.vm_to_destroy = None;
    app.input_mode = InputMode::Normal;
}

fn handle_confirm_destroy_mode_key(app: &mut App, key_event: KeyEvent) -> (r: Vec<AppEvent>)
    ensures
        (confirms(key_event) || refuses(key_event)) ==> *final(app) == destroy_answered(*old(app)),
        !(confirms(key_event) || refuses(key_event)) ==> *final(app) == *old(app),
        r@ == (if confirms(key_event) {
            match old(app).vm_to_destroy {
                Some(name) => seq![AppEvent::DestroyVm(name)],
                None => Seq::<AppEvent>::empty(),
            }
        } else {
            Seq::<AppEvent>::empty()
        }),
{
    let mut requests: Vec<AppEvent> = Vec::new();
    if key_event.code == KeyCode::Char('y') || key_event.code == KeyCode::Char('Y') {
        match &app.vm_to_destroy {
            Some(vm_name) => requests.push(AppEvent::DestroyVm(vm_name.clone())),
            None => {},
        }
        answer_destroy(app);
    } else if key_event.code == KeyCode::Char('n') || key_event.code == KeyCode::Char('N')
        || key_event.code == KeyCode::Esc {
        answer_destroy(app);
    }
    requests
}

/// Whether a key can be handled without a panic (see `normal_key_safe` and
/// `editing_key_safe`; a key that moves the menu's selection needs room to count it).
pub open spec fn key_safe(a: App, k: KeyEvent) -> bool {
    if overlay_open(a) {
        overlay_moves_menu(a, k) ==> menu_can_move(a)
    } else {
        match a.input_mode {
            InputMode::Normal => normal_key_safe(a, k),
            InputMode::Editing => editing_key_safe(a, k),
            _ => true,
        }
    }
}

/// Typing a character in the input bar and then pressing Backspace gives back the text
/// and the cursor position one started from.
pub proof fn backspace_undoes_typing(
    a: App,
    b: App,
    d: App,
    c: char,
    typed: KeyModifiers,
    erased: KeyModifiers,
    r1: Seq<AppEvent>,
    r2: Seq<AppEvent>,
)
    requires
        !overlay_open(a),
        a.input_mode == InputMode::Editing,
        key_safe(a, KeyEvent { code: KeyCode::Char(c), modifiers: typed }),
        key_handled(a, b, KeyEvent { code: KeyCode::Char(c), modifiers: typed }, r1),
        key_handled(b, d, KeyEvent { code: KeyCode::Backspace, modifiers: erased }, r2),
    ensures
        d.current_input@ == a.current_input@,
        d.input_cursor_char_idx == a.input_cursor_char_idx,
{
    reveal(char_inserted);
    reveal(char_deleted);
    assert(!overlay_open(b) && b.input_mode == InputMode::Editing);
    assert(a.current_input@.insert(a.input_cursor_char_idx as int, c).remove(
        a.input_cursor_char_idx as int,
    ) =~= a.current_input@);
    assert(b.input_cursor_char_idx == a.input_cursor_char_idx + 1);
}

proof fn lemma_wizard_field_update(a: App, idx: usize, t1: String, t2: String)
    requires
        idx != 1,
        idx < 7,
    ensures
        wizard_field(with_wizard_field(a, idx, t1), idx) == t1,
        with_wizard_field(with_wizard_field(a, idx, t1), idx, t2) == with_wizard_field(a, idx, t2),
        with_wizard_field(a, idx, t1).active_new_vm_input_idx == a.active_new_vm_input_idx,
        with_wizard_field(a, idx, t1).new_vm_use_iso == a.new_vm_use_iso,
        with_wizard_field(a, idx, t1).input_mode == a.input_mode,
        overlay_open(with_wizard_field(a, idx, t1)) == overlay_open(a),
{
    if idx == 0 {
        reveal(name_entered);
    } else if idx == 2 {
        reveal(iso_entered);
        reveal(source_entered);
    } else if idx == 3 {
        reveal(disk_path_entered);
    } else if idx == 4 {
        reveal(cpu_entered);
    } else if idx == 5 {
        reveal(ram_entered);
    } else {
        reveal(disk_gb_entered);
    }
}

/// In the new-VM form, typing a character into a text field and then pressing Backspace
/// gives back the field's text, and leaves everything else as it was.
pub proof fn wizard_backspace_undoes_typing(
    a: App,
    b: App,
    d: App,
    c: char,
    typed: KeyModifiers,
    erased: KeyModifiers,
    r1: Seq<AppEvent>,
    r2: Seq<AppEvent>,
)
    requires
        !overlay_open(a),
        a.input_mode == InputMode::VmWizard,
        a.active_new_vm_input_idx != 1,
        a.active_new_vm_input_idx < 7,
        key_handled(a, b, KeyEvent { code: KeyCode::Char(c), modifiers: typed }, r1),
        key_handled(b, d, KeyEvent { code: KeyCode::Backspace, modifiers: erased }, r2),
    ensures
        wizard_field(d, a.active_new_vm_input_idx)@ == wizard_field(a, a.active_new_vm_input_idx)@,
        d == with_wizard_field(a, a.active_new_vm_input_idx, wizard_field(d, a.active_new_vm_input_idx)),
{
    let idx = a.active_new_vm_input_idx;
    let fb = wizard_field(b, idx);
    let fd = wizard_field(d, idx);
    assert(wizard_keyed(a, b, KeyEvent { code: KeyCode::Char(c), modifiers: typed }));
    assert(b == with_wizard_field(a, idx, fb));
    lemma_wizard_field_update(a, idx, fb, fd);
    assert(!overlay_open(b) && b.input_mode == InputMode::VmWizard && b.active_new_vm_input_idx == idx);
    assert(wizard_keyed(b, d, KeyEvent { code: KeyCode::Backspace, modifiers: erased }));
    assert(d == with_wizard_field(b, idx, fd));
    assert(fb@.drop_last() =~= wizard_field(a, idx)@);
}

/// Whether `b` (with requests `r`) is `a` after the key `k`: an open modal or menu takes
/// it first; otherwise the input mode decides.
pub open spec fn key_handled(a: App, b: App, k: KeyEvent, r: Seq<AppEvent>) -> bool {
    if overlay_open(a) {
        b == after_overlay_key(a, k) && r.len() == 0
    } else {
        match a.input_mode {
            InputMode::Normal => {
                &&& normal_step(a, with_bedrock_choice_of(b, a), k)
                &&& bedrock_cycled(with_bedrock_choice_of(b, a), b, k)
                &&& r == (if normal_action(a, k) == NormalAction::Refresh {
                    seq![AppEvent::FetchVms, AppEvent::FetchOllamaModels, AppEvent::FetchBedrockModels]
                } else {
                    Seq::<AppEvent>::empty()
                })
            },
            InputMode::Editing => edited(a, b, k) && r.len() == 0,
            InputMode::VmWizard => wizard_keyed(a, b, k) && wizard_requests(a, k, r),
            InputMode::ConfirmingDestroy => {
                &&& (confirms(k) || refuses(k)) ==> b == destroy_answered(a)
                &&& !(confirms(k) || refuses(k)) ==> b == a
                &&& r == (if confirms(k) {
                    match a.vm_to_destroy {
                        Some(name) => seq![AppEvent::DestroyVm(name)],
                        None => Seq::<AppEvent>::empty(),
                    }
                } else {
                    Seq::<AppEvent>::empty()
                })
            },
        }
    }
}

/// After Enter saves the prompt being edited for a model, the text saved is that model's
/// system prompt in effect, whatever the configuration holds.
pub proof fn saved_prompt_takes_effect(a: App, b: App, k: KeyEvent, r: Seq<AppEvent>)
    requires
        !overlay_open(a),
        a.input_mode == InputMode::Editing,
        k.code == KeyCode::Enter,
        a.editing_system_prompt_for_model is Some,
        key_handled(a, b, k, r),
    ensures
        active_system_prompt(&b, a.editing_system_prompt_for_model.unwrap()@) == a.current_input@,
{
    reveal(prompt_committed);
    let m = a.editing_system_prompt_for_model.unwrap();
    assert(b.editable_ollama_model_prompts@ == a.editable_ollama_model_prompts@.insert(m@, a.current_input));
}

/// Whether the cursor of the input bar is within its text: a character position, at most
/// the text's end.
pub open spec fn cursor_within_text(a: App) -> bool {
    a.input_cursor_char_idx <= a.current_input@.len()
}

/// Whether `b` has the input bar's text and cursor of `a`.
pub open spec fn same_input_bar(a: App, b: App) -> bool {
    b.current_input == a.current_input && b.input_cursor_char_idx == a.input_cursor_char_idx
}

proof fn lemma_overlay_keeps_input_bar(a: App, k: KeyEvent)
    ensures
        same_input_bar(a, after_overlay_key(a, k)),
{
    reveal(keybindings_hidden);
    reveal(about_hidden);
    reveal(menu_closed);
    reveal(about_opened);
    reveal(preferences_entered);
    reveal(quitting);
    reveal(main_menu_again);
    reveal(keybindings_opened);
    reveal(menu_advanced);
    reveal(menu_retreated);
}

proof fn lemma_normal_keeps_cursor_within_text(a: App, b: App, k: KeyEvent)
    requires
        cursor_within_text(a),
        normal_step(a, b, k),
    ensures
        cursor_within_text(b),
{
    reveal(quitting);
    reveal(view_advanced);
    reveal(view_retreated);
    reveal(menu_toggled);
    reveal(chat_opened);
    reveal(prompt_edit_started);
    reveal(destroy_asked);
    reveal(wizard_opened);
    reveal(vm_next);
    reveal(vm_previous);
    reveal(ollama_next);
    reveal(ollama_previous);
    reveal(bedrock_next);
    reveal(bedrock_previous);
    reveal(chat_up);
    reveal(chat_down);
    reveal(logs_up);
    reveal(logs_down);
}

proof fn lemma_editing_keeps_cursor_within_text(a: App, b: App, k: KeyEvent)
    requires
        cursor_within_text(a),
        edited(a, b, k),
    ensures
        cursor_within_text(b),
{
    reveal(prompt_committed);
    reveal(char_inserted);
    reveal(char_deleted);
    reveal(cursor_moved_left);
    reveal(cursor_moved_right);
    reveal(editing_cancelled);
    reveal(cursor_kept_visible);
}

proof fn lemma_wizard_keeps_input_bar(a: App, b: App, k: KeyEvent)
    requires
        wizard_keyed(a, b, k),
    ensures
        same_input_bar(a, b),
{
    reveal(name_entered);
    reveal(iso_entered);
    reveal(source_entered);
    reveal(disk_path_entered);
    reveal(cpu_entered);
    reveal(ram_entered);
    reveal(disk_gb_entered);
    reveal(iso_toggled);
    reveal(wizard_focused);
    reveal(wizard_closed);
}

/// The cursor of the input bar stays within its text, whatever key comes: every key keeps
/// it a character position of the text, at most the text's end.
pub proof fn cursor_stays_within_text(a: App, b: App, k: KeyEvent, r: Seq<AppEvent>)
    requires
        cursor_within_text(a),
        key_handled(a, b, k, r),
    ensures
        cursor_within_text(b),
{
    if overlay_open(a) {
        lemma_overlay_keeps_input_bar(a, k);
    } else {
        match a.input_mode {
            InputMode::Normal => {
                let m = with_bedrock_choice_of(b, a);
                lemma_normal_keeps_cursor_within_text(a, m, k);
                reveal(bedrock_cycled);
            },
            InputMode::Editing => lemma_editing_keeps_cursor_within_text(a, b, k),
            InputMode::VmWizard => lemma_wizard_keeps_input_bar(a, b, k),
            InputMode::ConfirmingDestroy => {
                reveal(destroy_answered);
            },
        }
    }
}

/// Reacts to a key (see `key_handled`) and gives back the requests it makes.
pub fn on_key(app: &mut App, key_event: KeyEvent) -> (r: Vec<AppEvent>)
    requires
        key_safe(*old(app), key_event),
    ensures
        key_handled(*old(app), *final(app), key_event, r@),
{
    if app.show_keybindings_modal || app.show_about_modal || app.show_menu {
        handle_overlay_key(app, key_event);
        return Vec::new();
    }
    match app.input_mode {
        InputMode::Normal => handle_normal_mode_key(app, key_event),
        InputMode::Editing => {
            handle_editing_mode_key(app, key_event);
            Vec::new()
        },
        InputMode::VmWizard => handle_vm_wizard_mode_key(app, key_event),
        InputMode::ConfirmingDestroy => handle_confirm_destroy_mode_key(app, key_event),
    }
}

/// Whether `on_key` can take this key (see `key_safe`); the interface checks it first.
pub fn key_is_safe(app: &App, key_event: &KeyEvent) -> (r: bool)
    ensures
        r == key_safe(*app, *key_event),
{
    if app.show_keybindings_modal || app.show_about_modal || app.show_menu {
        let back = key_matches(app, "menu", key_event) || key_event.code == KeyCode::Esc;
        let moving = key_matches(app, "down", key_event) || key_event.code == KeyCode::Char('j')
            || key_matches(app, "up", key_event) || key_event.code == KeyCode::Char('k');
        let reaches_menu = !app.show_keybindings_modal && !app.show_about_modal
            && (app.menu_level == 0 || app.menu_level == 1);
        let room = match app.menu_state.selected() {
            Some(i) => i <= usize::MAX - 3,
            None => true,
        };
        return !(reaches_menu && !back && moving) || room;
    }
    match app.input_mode {
        InputMode::Normal => {
            let action = normal_action_of(app, key_event);
            let list_ok = match app.ollama_model_list_state.selected() {
                Some(i) => i < app.ollama_models.len(),
                None => true,
            };
            let vm_ok = match app.vm_list_state.selected() {
                Some(i) => i < app.vms.len(),
                None => true,
            };
            let needs_model = (action == NormalAction::Enter || action == NormalAction::Edit)
                && app.active_view == AppView::OllamaModelList;
            let needs_vm = action == NormalAction::Delete && app.active_view == AppView::VmList;
            (!needs_model || list_ok) && (!needs_vm || vm_ok)
        },
        InputMode::Editing => {
            match key_event.code {
                KeyCode::Char(_) => {
                    app.input_cursor_char_idx <= chars_of(app.current_input.as_str()).len()
                        && app.input_cursor_char_idx < usize::MAX
                },
                KeyCode::Backspace => {
                    app.input_cursor_char_idx <= chars_of(app.current_input.as_str()).len()
                },
                _ => true,
            }
        },
        _ => true,
    }
}

} // verus!
