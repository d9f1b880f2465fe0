use hydravisor::config::Config;
use hydravisor::libvirt_manager::{VmState, VmStatus};
use hydravisor::ollama_manager::LocalModel;
use hydravisor::tui::app::{App, AppEvent, AppView, InputMode};
use hydravisor::tui::events::{key_is_safe, on_key, on_mouse_event};
use hydravisor::tui::keys::{KeyCode, KeyEvent, KeyModifiers, MouseEvent, MouseEventKind};

fn new_app() -> App {
    App::new_with_vm_id(Config::default(), "abc", Ok(String::new()))
}

fn press(app: &mut App, code: KeyCode, bits: u8) -> Vec<AppEvent> {
    let key = KeyEvent { code, modifiers: KeyModifiers { bits } };
    assert!(key_is_safe(app, &key));
    on_key(app, key)
}

fn ch(app: &mut App, c: char) -> Vec<AppEvent> {
    press(app, KeyCode::Char(c), 0)
}

fn vm(name: &str) -> VmStatus {
    VmStatus {
        instance_id: format!("id-{}", name),
        name: name.to_string(),
        state: VmState::Stopped,
        ip_address: None,
        ssh_port: None,
        created_at: String::new(),
        updated_at: String::new(),
        base_image: None,
        cpu_cores_used: None,
        memory_max_kb: None,
        memory_used_kb: None,
        error_details: None,
    }
}

fn with_model(app: &mut App, name: &str) {
    let m = LocalModel { name: name.to_string(), modified_at: "2025-01-01".to_string(), size: 42 };
    app.apply_ollama_models(true, Ok(vec![m]));
    app.ollama_model_list_state.selected = Some(0);
}

#[test]
fn quit_key_quits() {
    let mut app = new_app();
    let r = ch(&mut app, 'q');
    assert!(app.should_quit);
    assert!(r.is_empty());
}

#[test]
fn tab_and_backtab_change_view() {
    let mut app = new_app();
    press(&mut app, KeyCode::Tab, 0);
    assert_eq!(app.active_view, AppView::OllamaModelList);
    press(&mut app, KeyCode::BackTab, 0);
    press(&mut app, KeyCode::BackTab, 0);
    assert_eq!(app.active_view, AppView::Logs);
}

#[test]
fn menu_leads_to_keybindings_dialog() {
    let mut app = new_app();
    press(&mut app, KeyCode::Char('h'), 2);
    assert!(app.show_menu);
    assert_eq!(app.menu_state.selected, Some(0));
    assert_eq!(app.menu_level, 0);
    ch(&mut app, 'j');
    assert_eq!(app.menu_state.selected, Some(1));
    press(&mut app, KeyCode::Enter, 0);
    assert_eq!(app.menu_level, 1);
    assert_eq!(app.menu_sub_state.selected, Some(0));
    press(&mut app, KeyCode::Enter, 0);
    assert!(app.show_keybindings_modal);
    assert!(!app.show_menu);
    press(&mut app, KeyCode::Esc, 0);
    assert!(!app.show_keybindings_modal);
}

#[test]
fn menu_about_opens_and_q_closes_it() {
    let mut app = new_app();
    press(&mut app, KeyCode::Char('h'), 2);
    press(&mut app, KeyCode::Enter, 0);
    assert!(app.show_about_modal);
    assert!(!app.show_menu);
    ch(&mut app, 'q');
    assert!(!app.show_about_modal);
    assert!(!app.should_quit);
}

#[test]
fn menu_quit_entry_quits() {
    let mut app = new_app();
    press(&mut app, KeyCode::Char('h'), 2);
    ch(&mut app, 'k');
    assert_eq!(app.menu_state.selected, Some(2));
    press(&mut app, KeyCode::Enter, 0);
    assert!(app.should_quit);
}

#[test]
fn preferences_escape_returns_to_main_menu() {
    let mut app = new_app();
    press(&mut app, KeyCode::Char('h'), 2);
    ch(&mut app, 'j');
    press(&mut app, KeyCode::Enter, 0);
    press(&mut app, KeyCode::Esc, 0);
    assert_eq!(app.menu_level, 0);
    assert_eq!(app.menu_state.selected, Some(1));
    assert!(app.show_menu);
}

#[test]
fn new_vm_wizard_edits_fields() {
    let mut app = new_app();
    ch(&mut app, 'n');
    assert!(app.show_new_vm_popup);
    assert_eq!(app.input_mode, InputMode::VmWizard);
    assert_eq!(app.active_new_vm_input_idx, 0);
    ch(&mut app, 'x');
    assert_eq!(app.new_vm_name, "archlinux-2025.04.01-abcx");
    press(&mut app, KeyCode::Backspace, 0);
    assert_eq!(app.new_vm_name, "archlinux-2025.04.01-abc");
    press(&mut app, KeyCode::Tab, 0);
    assert_eq!(app.active_new_vm_input_idx, 1);
    assert!(app.new_vm_use_iso);
    ch(&mut app, ' ');
    assert!(!app.new_vm_use_iso);
    press(&mut app, KeyCode::BackTab, 0);
    press(&mut app, KeyCode::BackTab, 0);
    assert_eq!(app.active_new_vm_input_idx, 6);
    ch(&mut app, '5');
    assert_eq!(app.new_vm_disk_gb, "205");
    press(&mut app, KeyCode::Esc, 0);
    assert!(!app.show_new_vm_popup);
    assert_eq!(app.input_mode, InputMode::Normal);
}

#[test]
fn editing_a_system_prompt_stores_it() {
    let mut app = new_app();
    app.active_view = AppView::OllamaModelList;
    with_model(&mut app, "llama3");
    ch(&mut app, 'e');
    assert_eq!(app.input_mode, InputMode::Editing);
    assert_eq!(app.editing_system_prompt_for_model.as_deref(), Some("llama3"));
    let before = app.current_input.clone();
    assert_eq!(app.input_cursor_char_idx, before.chars().count());
    ch(&mut app, '!');
    assert_eq!(app.current_input, format!("{}!", before));
    press(&mut app, KeyCode::Enter, 0);
    assert_eq!(app.input_mode, InputMode::Normal);
    assert_eq!(app.editable_ollama_model_prompts.get("llama3"), Some(&format!("{}!", before)));
    assert_eq!(app.get_active_system_prompt("llama3"), format!("{}!", before));
}

#[test]
fn editing_keys_move_cursor_and_delete() {
    let mut app = new_app();
    app.input_mode = InputMode::Editing;
    ch(&mut app, 'a');
    ch(&mut app, 'b');
    press(&mut app, KeyCode::Left, 0);
    ch(&mut app, 'X');
    assert_eq!(app.current_input, "aXb");
    press(&mut app, KeyCode::Backspace, 0);
    assert_eq!(app.current_input, "ab");
    press(&mut app, KeyCode::Right, 0);
    press(&mut app, KeyCode::Right, 0);
    assert_eq!(app.input_cursor_char_idx, 2);
    press(&mut app, KeyCode::Esc, 0);
    assert_eq!(app.input_mode, InputMode::Normal);
    assert_eq!(app.current_input, "ab");
}

#[test]
fn enter_on_model_opens_chat() {
    let mut app = new_app();
    app.active_view = AppView::OllamaModelList;
    with_model(&mut app, "llama3");
    press(&mut app, KeyCode::Enter, 0);
    assert_eq!(app.active_view, AppView::Chat);
    let chat = app.active_chat.as_ref().expect("a chat");
    assert_eq!(chat.model_name, "llama3");
    assert_eq!(chat.messages.len(), 1);
    assert_eq!(chat.messages[0].sender, "System");
    assert_eq!(chat.messages[0].content, app.get_active_system_prompt("llama3"));
    assert!(!chat.is_streaming);
}

#[test]
fn confirming_destroy_sends_request() {
    let mut app = new_app();
    app.input_mode = InputMode::ConfirmingDestroy;
    app.vm_to_destroy = Some("vm1".to_string());
    let r = ch(&mut app, 'y');
    assert_eq!(r.len(), 1);
    match &r[0] {
        AppEvent::DestroyVm(name) => assert_eq!(name, "vm1"),
        other => panic!("unexpected {:?}", other),
    }
    assert_eq!(app.input_mode, InputMode::Normal);
    assert!(app.vm_to_destroy.is_none());
}

#[test]
fn refusing_destroy_forgets_vm() {
    let mut app = new_app();
    app.input_mode = InputMode::ConfirmingDestroy;
    app.vm_to_destroy = Some("vm1".to_string());
    let r = ch(&mut app, 'N');
    assert!(r.is_empty());
    assert!(app.vm_to_destroy.is_none());
    assert_eq!(app.input_mode, InputMode::Normal);
}

#[test]
fn bedrock_filter_key_cycles_filters() {
    let mut app = new_app();
    app.active_view = AppView::BedrockModelList;
    ch(&mut app, 'f');
    assert_eq!(app.current_bedrock_filter, "available_to_request_access");
    ch(&mut app, 'f');
    assert_eq!(app.current_bedrock_filter, "available_to_use");
    ch(&mut app, 's');
    assert_eq!(app.current_bedrock_sort, "alphabetical");
}

#[test]
fn mouse_wheel_moves_vm_selection() {
    let mut app = new_app();
    app.apply_vm_listing(true, Ok(vec![vm("a"), vm("b")]));
    assert_eq!(app.vm_list_state.selected, Some(0));
    on_mouse_event(&mut app, MouseEvent { kind: MouseEventKind::ScrollDown });
    assert_eq!(app.vm_list_state.selected, Some(1));
    on_mouse_event(&mut app, MouseEvent { kind: MouseEventKind::ScrollDown });
    assert_eq!(app.vm_list_state.selected, Some(0));
    on_mouse_event(&mut app, MouseEvent { kind: MouseEventKind::ScrollUp });
    assert_eq!(app.vm_list_state.selected, Some(1));
    on_mouse_event(&mut app, MouseEvent { kind: MouseEventKind::Other });
    assert_eq!(app.vm_list_state.selected, Some(1));
}

#[test]
fn backspace_undoes_typing_multibyte() {
    let mut app = new_app();
    app.input_mode = InputMode::Editing;
    app.current_input = "aé".to_string();
    app.input_cursor_char_idx = 1;
    ch(&mut app, 'ü');
    assert_eq!(app.current_input, "aüé");
    assert_eq!(app.input_cursor_char_idx, 2);
    press(&mut app, KeyCode::Backspace, 0);
    assert_eq!(app.current_input, "aé");
    assert_eq!(app.input_cursor_char_idx, 1);
}

#[test]
fn wizard_enter_asks_for_the_vm_and_closes_the_form() {
    let mut app = new_app();
    ch(&mut app, 'n');
    ch(&mut app, '1');
    let r = press(&mut app, KeyCode::Enter, 0);
    assert!(!app.show_new_vm_popup);
    assert_eq!(app.input_mode, InputMode::Normal);
    assert_eq!(r.len(), 1);
    match &r[0] {
        AppEvent::CreateVm(q) => {
            assert_eq!(q.name, "archlinux-2025.04.01-abc1");
            assert_eq!(q.use_iso, app.new_vm_use_iso);
            assert_eq!(q.iso_path, app.new_vm_iso_path);
            assert_eq!(q.source_image_path, app.new_vm_source_image_path);
            assert_eq!(q.cpu, app.new_vm_cpu);
            assert_eq!(q.ram, app.new_vm_ram_mb);
            assert_eq!(q.disk_gb, app.new_vm_disk_gb);
        }
        _ => panic!("expected a creation request"),
    }
}

#[test]
fn wizard_enter_on_the_checkbox_only_flips_it() {
    let mut app = new_app();
    ch(&mut app, 'n');
    press(&mut app, KeyCode::Tab, 0);
    let before = app.new_vm_use_iso;
    let r = press(&mut app, KeyCode::Enter, 0);
    assert!(r.is_empty());
    assert_eq!(app.new_vm_use_iso, !before);
    assert!(app.show_new_vm_popup);
    assert_eq!(app.input_mode, InputMode::VmWizard);
}

#[test]
fn typing_goes_in_at_the_character_position() {
    let mut app = new_app();
    app.input_mode = InputMode::Editing;
    app.current_input = "éa".to_string();
    app.input_cursor_char_idx = 1;
    ch(&mut app, 'x');
    assert_eq!(app.current_input, "éxa");
    assert_eq!(app.input_cursor_char_idx, 2);
    press(&mut app, KeyCode::Right, 0);
    assert_eq!(app.input_cursor_char_idx, 3);
    press(&mut app, KeyCode::Right, 0);
    assert_eq!(app.input_cursor_char_idx, 3);
    press(&mut app, KeyCode::Backspace, 0);
    assert_eq!(app.current_input, "éx");
    assert_eq!(app.input_cursor_char_idx, 2);
}

#[test]
fn wizard_backspace_undoes_typing_scenario() {
    let mut app = new_app();
    ch(&mut app, 'n');
    press(&mut app, KeyCode::Tab, 0);
    press(&mut app, KeyCode::Tab, 0);
    assert_eq!(app.active_new_vm_input_idx, 2);
    let before = app.new_vm_iso_path.clone();
    ch(&mut app, 'z');
    assert_eq!(app.new_vm_iso_path, format!("{}z", before));
    press(&mut app, KeyCode::Backspace, 0);
    assert_eq!(app.new_vm_iso_path, before);
    assert_eq!(app.active_new_vm_input_idx, 2);
}

#[test]
fn menu_three_moves_return_to_start() {
    let mut app = new_app();
    press(&mut app, KeyCode::Char('h'), 2);
    for _ in 0..3 {
        ch(&mut app, 'j');
    }
    assert_eq!(app.menu_state.selected, Some(0));
    ch(&mut app, 'j');
    ch(&mut app, 'k');
    assert_eq!(app.menu_state.selected, Some(0));
}

#[test]
fn cursor_stays_within_the_text() {
    let mut app = new_app();
    app.active_view = AppView::OllamaModelList;
    with_model(&mut app, "llama3");
    ch(&mut app, 'e');
    let codes = [
        KeyCode::Left,
        KeyCode::Char('ä'),
        KeyCode::Right,
        KeyCode::Right,
        KeyCode::Backspace,
        KeyCode::Left,
        KeyCode::Backspace,
        KeyCode::Esc,
    ];
    for code in codes {
        press(&mut app, code, 0);
        assert!(app.input_cursor_char_idx <= app.current_input.chars().count());
    }
}
