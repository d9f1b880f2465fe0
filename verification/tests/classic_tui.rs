use hydravisor::config::Config;
use hydravisor::env_tui::{
    clean_text, parse_ram_str as tui_parse_ram_str, split_thought, try_parse_ram_str as tui_try_parse_ram_str, App, OllamaStartup,
    TuiView,
};
use hydravisor::ollama_manager::LocalModel;
use hydravisor::text::IntParseError;
use hydravisor::tui::app::{LogLevel, UILogEntry};
use hydravisor::tui::keys::{KeyCode, KeyEvent, KeyModifiers};

fn tui() -> App {
    let models = vec![LocalModel { name: "llama3".to_string(), modified_at: "t".to_string(), size: 1 }];
    App::new_with_vm_id(Config::default(), "feed", OllamaStartup::Models(models), Ok(vec![]))
}

fn key(app: &mut App, code: KeyCode) {
    let k = KeyEvent { code, modifiers: KeyModifiers { bits: 0 } };
    assert!(app.key_is_safe(&k));
    app.on_key(k);
}

#[test]
fn clean_text_drops_escapes_and_form_feeds() {
    assert_eq!(clean_text("\u{1b}[31mred\u{1b}[0m\u{c}!"), "red!");
    assert_eq!(clean_text("plain"), "plain");
}

#[test]
fn split_thought_takes_reasoning_out() {
    let (t, rest) = split_thought(&"<think>hmm</think>  answer".to_string());
    assert_eq!(t.as_deref(), Some("hmm"));
    assert_eq!(rest, "answer");
    let (t, rest) = split_thought(&"no reasoning".to_string());
    assert!(t.is_none());
    assert_eq!(rest, "no reasoning");
}

#[test]
fn classic_ram_parsing_does_not_trim_inside() {
    assert_eq!(tui_parse_ram_str("4GB"), Ok(4096));
    assert_eq!(tui_parse_ram_str("512mb"), Ok(512));
    assert_eq!(tui_parse_ram_str("4 GB"), Err(IntParseError::InvalidDigit));
}

#[test]
fn tab_cycles_classic_views() {
    let mut app = tui();
    assert_eq!(app.active_view, TuiView::VmList);
    key(&mut app, KeyCode::Tab);
    assert_eq!(app.active_view, TuiView::OllamaModelList);
    assert_eq!(app.ollama_model_list_state.selected, Some(0));
    key(&mut app, KeyCode::Tab);
    key(&mut app, KeyCode::Tab);
    key(&mut app, KeyCode::Tab);
    assert_eq!(app.active_view, TuiView::VmList);
    key(&mut app, KeyCode::BackTab);
    assert_eq!(app.active_view, TuiView::Logs);
}

#[test]
fn q_quits_classic_tui() {
    let mut app = tui();
    key(&mut app, KeyCode::Char('q'));
    assert!(app.should_quit);
}

#[test]
fn classic_log_buffer_is_bounded() {
    let mut app = tui();
    let logs: Vec<UILogEntry> = (0..2100)
        .map(|i| UILogEntry { timestamp: String::new(), level: LogLevel::Info, target: String::new(), message: format!("{}", i) })
        .collect();
    app.on_tick(logs, vec![]);
    assert_eq!(app.log_entries.len(), 2000);
    assert_eq!(app.log_entries[0].message, "100");
    assert_eq!(app.log_entries[1999].message, "2099");
}

#[test]
fn opening_a_chat_puts_the_cursor_at_the_start() {
    let mut app = tui();
    key(&mut app, KeyCode::Tab);
    app.current_input = "draft".to_string();
    app.input_cursor_char_idx = 5;
    key(&mut app, KeyCode::Enter);
    assert_eq!(app.active_view, TuiView::Chat);
    assert_eq!(app.current_input, "");
    assert_eq!(app.input_cursor_char_idx, 0);
}

#[test]
fn classic_cursor_stays_within_the_text() {
    let mut app = tui();
    key(&mut app, KeyCode::Tab);
    key(&mut app, KeyCode::Char('i'));
    assert_eq!(app.editing_system_prompt_for_model.as_deref(), Some("llama3"));
    app.current_input = "héllo wörld again".to_string();
    app.input_cursor_char_idx = 17;
    app.last_input_text_area_width = 6;
    let codes = [
        KeyCode::Up,
        KeyCode::Down,
        KeyCode::Down,
        KeyCode::Left,
        KeyCode::Right,
        KeyCode::Right,
        KeyCode::Backspace,
        KeyCode::Char('x'),
        KeyCode::Up,
        KeyCode::Up,
        KeyCode::Down,
    ];
    for code in codes {
        key(&mut app, code);
        assert!(app.input_cursor_char_idx <= app.current_input.chars().count());
    }
}

#[test]
fn classic_ram_parsing_refuses_overflowing_gigabytes() {
    assert_eq!(tui_try_parse_ram_str("18014398509481984GB"), None);
    assert_eq!(tui_try_parse_ram_str(" 8gb "), Some(Ok(8192)));
    assert_eq!(tui_try_parse_ram_str("8 GB"), Some(Err(IntParseError::InvalidDigit)));
}

#[test]
fn classic_backspace_undoes_typing_scenario() {
    let mut app = tui();
    key(&mut app, KeyCode::Tab);
    key(&mut app, KeyCode::Char('i'));
    app.current_input = "aé".to_string();
    app.input_cursor_char_idx = 1;
    key(&mut app, KeyCode::Char('ü'));
    assert_eq!(app.current_input, "aüé");
    assert_eq!(app.input_cursor_char_idx, 2);
    key(&mut app, KeyCode::Backspace);
    assert_eq!(app.current_input, "aé");
    assert_eq!(app.input_cursor_char_idx, 1);
}
