use hydravisor::bedrock_manager::{BedrockModelSummary, ModelLifecycleStatus};
use hydravisor::config::Config;
use hydravisor::libvirt_manager::{VmState, VmStatus};
use hydravisor::ollama_manager::LocalModel;
use hydravisor::tui::app::{App, AppView, ChatMessage, ChatSession, InputMode, LogLevel, UILogEntry};
use hydravisor::tui::tracing_layer::LogEntryVisitor;
use hydravisor::tui::widgets::about_modal::AboutModalWidget;
use hydravisor::tui::widgets::bedrock_model_list::BedrockModelListWidget;
use hydravisor::tui::widgets::chat::ChatWidget;
use hydravisor::tui::widgets::input_bar::InputBarWidget;
use hydravisor::tui::widgets::keybindings_modal::KeybindingsModalWidget;
use hydravisor::tui::widgets::layout::{centered_rect, Area};

fn inside(p: Area, a: Area) -> bool {
    a.x <= p.x && p.x + p.width <= a.x + a.width && a.y <= p.y && p.y + p.height <= a.y + a.height
}
use hydravisor::tui::widgets::logs::LogsWidget;
use hydravisor::tui::widgets::menu::{MenuList, MenuWidget};
use hydravisor::tui::widgets::new_vm_popup::NewVmPopupWidget;
use hydravisor::tui::widgets::ollama_model_list::OllamaModelListWidget;
use hydravisor::tui::widgets::status_bar::StatusBarWidget;
use hydravisor::tui::widgets::vm_list::VmListWidget;
use hydravisor::tui::widgets::{Row, Span, Tone};

fn new_app() -> App {
    App::new_with_vm_id(Config::default(), "id", Ok(String::new()))
}

fn texts(spans: &[Span]) -> Vec<String> {
    spans.iter().map(|s| s.text.clone()).collect()
}

fn row_texts(rows: &[Row]) -> Vec<(String, Option<String>)> {
    rows.iter().map(|(l, v)| (l.text.clone(), v.as_ref().map(|s| s.text.clone()))).collect()
}

fn vm(name: &str, state: VmState) -> VmStatus {
    VmStatus {
        instance_id: format!("uuid-{}", name),
        name: name.to_string(),
        state,
        ip_address: None,
        ssh_port: None,
        created_at: String::new(),
        updated_at: String::new(),
        base_image: None,
        cpu_cores_used: Some(4),
        memory_max_kb: Some(2048),
        memory_used_kb: None,
        error_details: None,
    }
}

fn model(id: &str, name: Option<&str>, status: Option<ModelLifecycleStatus>) -> BedrockModelSummary {
    BedrockModelSummary {
        model_id: id.to_string(),
        model_name: name.map(|n| n.to_string()),
        provider_name: None,
        lifecycle_status: status,
        customizations_supported: Some(vec!["FineTuning".to_string(), "Distillation".to_string()]),
        inference_types_supported: None,
        response_streaming_supported: None,
    }
}

#[test]
fn status_bar_left_part_of_new_app() {
    let app = new_app();
    let spans = StatusBarWidget::left_spans(&app);
    assert_eq!(texts(&spans), vec!["H", "ydravisor | ", "View: ", "VmList", " | Input: ", "Normal", " | VMs: 0 ", "| Ollama: 0 "]);
    assert_eq!(spans[0].tone, Tone::Plain);
    assert_eq!(spans[5].tone, Tone::ModeNormal);
}

#[test]
fn status_bar_lights_h_while_menu_open() {
    let mut app = new_app();
    app.show_menu = true;
    app.input_mode = InputMode::VmWizard;
    let spans = StatusBarWidget::left_spans(&app);
    assert_eq!(spans[0].tone, Tone::Active);
    assert_eq!(spans[5].text, "VmWizard");
    assert_eq!(spans[5].tone, Tone::ModeWizard);
}

#[test]
fn status_bar_right_part_shows_libvirt_in_vm_list() {
    let mut app = new_app();
    let spans = StatusBarWidget::right_spans_at(&app, "12:34:56".to_string());
    assert_eq!(texts(&spans), vec!["Libvirt: ", "Disconnected", " | ", "12:34:56"]);
    assert_eq!(spans[1].tone, Tone::Failure);
    app.libvirt_connected = true;
    let spans = StatusBarWidget::right_spans_at(&app, "01:02:03".to_string());
    assert_eq!(spans[1].text, "Connected");
    assert_eq!(spans[1].tone, Tone::Success);
    app.active_view = AppView::Logs;
    let spans = StatusBarWidget::right_spans_at(&app, "01:02:03".to_string());
    assert_eq!(texts(&spans), vec!["01:02:03"]);
}

#[test]
fn status_bar_clock_has_time_shape() {
    let mut app = new_app();
    app.active_view = AppView::Chat;
    let spans = StatusBarWidget::right_spans(&app);
    assert_eq!(spans.len(), 1);
    let t: Vec<char> = spans[0].text.chars().collect();
    assert_eq!(t.len(), 8);
    assert_eq!(t[2], ':');
    assert_eq!(t[5], ':');
    assert!(t.iter().enumerate().all(|(i, c)| i == 2 || i == 5 || c.is_ascii_digit()));
}

#[test]
fn log_line_pads_level() {
    let e = UILogEntry { timestamp: "10:00:00".to_string(), level: LogLevel::Warn, target: "core".to_string(), message: "disk low".to_string() };
    let spans = LogsWidget::entry_spans(&e);
    assert_eq!(texts(&spans), vec!["10:00:00 ", "WARN  ", "[core] ", "disk low"]);
    assert_eq!(spans[1].tone, Tone::LevelWarn);
    let e = UILogEntry { level: LogLevel::Error, ..e };
    assert_eq!(LogsWidget::entry_spans(&e)[1].text, "ERROR ");
    assert_eq!(LogsWidget::placeholder().text, "No log entries yet.");
}

#[test]
fn menu_levels() {
    let (items, title, height) = MenuWidget::contents(0);
    assert_eq!(items, vec!["About", "Preferences", "Quit"]);
    assert_eq!(title, "Menu");
    assert_eq!(height, 6);
    let (items, title, height) = MenuWidget::contents(1);
    assert_eq!(items, vec!["Keybindings"]);
    assert_eq!(title, "Preferences");
    assert_eq!(height, 4);
    assert_eq!(MenuWidget::contents(9).1, "Menu");
    let a = MenuWidget::area(Area { x: 0, y: 0, width: 80, height: 24 }, 6);
    assert_eq!(a, Area { x: 5, y: 1, width: 24, height: 6 });
}

#[test]
fn menu_list_in_use() {
    let mut app = new_app();
    assert_eq!(MenuWidget::list_in_use(&app), MenuList::Unshown);
    app.show_menu = true;
    assert_eq!(MenuWidget::list_in_use(&app), MenuList::Main);
    app.menu_level = 1;
    assert_eq!(MenuWidget::list_in_use(&app), MenuList::Preferences);
    app.menu_level = 2;
    assert_eq!(MenuWidget::list_in_use(&app), MenuList::Unshown);
}

#[test]
fn keybindings_dialog_rows() {
    let app = new_app();
    let rows = KeybindingsModalWidget::rows(&app);
    let t = row_texts(&rows);
    assert_eq!(t.len(), 13);
    assert_eq!(t[0], ("Quit: ".to_string(), Some("q".to_string())));
    assert_eq!(t[2], ("Menu: ".to_string(), Some("Ctrl+h".to_string())));
    assert_eq!(t[11], (String::new(), None));
    assert_eq!(t[12], ("Press Esc to close".to_string(), None));
    assert_eq!(rows[12].0.tone, Tone::Help);
    let a = KeybindingsModalWidget::popup_area(Area { x: 0, y: 0, width: 100, height: 40 });
    assert_eq!(a, Area { x: 25, y: 10, width: 50, height: 20 });
}

#[test]
fn centered_popups() {
    let frame = Area { x: 0, y: 0, width: 100, height: 40 };
    assert_eq!(AboutModalWidget::popup_area(frame), Area { x: 20, y: 10, width: 60, height: 20 });
    assert_eq!(centered_rect(60, 50, frame), Area { x: 20, y: 10, width: 60, height: 20 });
    let frame = Area { x: 0, y: 0, width: 100, height: 50 };
    assert_eq!(NewVmPopupWidget::popup_area(frame), Area { x: 10, y: 5, width: 80, height: 40 });
}

#[test]
fn about_dialog_content_only_while_open() {
    let mut app = App::new_with_vm_id(Config::default(), "id", Ok("Hello".to_string()));
    assert!(AboutModalWidget::content(&app).is_none());
    app.show_about_modal = true;
    assert_eq!(AboutModalWidget::content(&app), Some("Hello".to_string()));
    assert_eq!(AboutModalWidget::title(), "About Hydravisor");
}

#[test]
fn new_vm_form_fields() {
    let mut app = new_app();
    let f = NewVmPopupWidget::fields(&app);
    assert_eq!(f.len(), 8);
    assert_eq!(f[0].title.as_deref(), Some("VM Name"));
    assert_eq!(f[0].text, "archlinux-2025.04.01-id");
    assert_eq!(f[0].tone, Tone::Active);
    assert_eq!(f[6].title, None);
    assert_eq!(f[6].text, "[x] Boot from ISO");
    assert_eq!(f[7].tone, Tone::Plain);
    app.new_vm_use_iso = false;
    app.active_new_vm_input_idx = 7;
    let f = NewVmPopupWidget::fields(&app);
    assert_eq!(f[6].text, "[ ] Boot from ISO");
    assert_eq!(f[7].tone, Tone::Tertiary);
    assert_eq!(f[0].tone, Tone::Plain);
}

#[test]
fn vm_list_labels_and_details() {
    let mut app = new_app();
    app.apply_vm_listing(true, Ok(vec![vm("web", VmState::Running), vm("db", VmState::Error("bad \"disk\"".to_string()))]));
    let labels = VmListWidget::item_labels(&app);
    assert_eq!(labels[0], "web (uuid-web) - Running");
    assert_eq!(labels[1], "db (uuid-db) - Error(\"bad \\\"disk\\\"\")");
    assert_eq!(
        VmListWidget::details(&app),
        Some("Name: web\nID: uuid-web\nState: Running\nType: Vm\nCPUs: Some(4)\nMax Mem: Some(2048) KB\nUsed Mem: None KB".to_string())
    );
    app.vm_list_state.selected = None;
    assert_eq!(VmListWidget::details(&app), Some("No VM selected".to_string()));
    app.vm_list_state.selected = Some(5);
    assert_eq!(VmListWidget::details(&app), None);
}

#[test]
fn ollama_details_fill_prompt() {
    let mut app = new_app();
    let m = LocalModel { name: "llama3".to_string(), modified_at: "2025-01-01".to_string(), size: 4096 };
    app.apply_ollama_models(true, Ok(vec![m]));
    app.ollama_model_list_state.selected = Some(0);
    app.editable_ollama_model_prompts.insert("llama3".to_string(), "one two three four".to_string());
    let rows = OllamaModelListWidget::details(&app, 12);
    let t = row_texts(&rows);
    assert_eq!(t[0], ("Name: ".to_string(), Some("llama3".to_string())));
    assert_eq!(t[1], ("Modified: ".to_string(), Some("2025-01-01".to_string())));
    assert_eq!(t[2], ("Size: ".to_string(), Some("4096".to_string())));
    assert_eq!(t[3], (String::new(), None));
    assert_eq!(t[4], ("System Prompt ".to_string(), Some("(Model specific)".to_string())));
    assert_eq!(t[5], ("one two".to_string(), None));
    assert_eq!(t[6], ("three four".to_string(), None));
    assert_eq!(t.len(), 7);
    assert_eq!(OllamaModelListWidget::item_labels(&app), vec!["llama3"]);
}

#[test]
fn ollama_details_without_selection() {
    let app = new_app();
    let t = row_texts(&OllamaModelListWidget::details(&app, 40));
    assert_eq!(t, vec![("No model selected".to_string(), None)]);
}

#[test]
fn bedrock_view_filters_and_sorts() {
    let mut app = new_app();
    app.apply_bedrock_models(
        true,
        Ok(vec![
            model("m-b", Some("beta"), Some(ModelLifecycleStatus::Active)),
            model("m-c", Some("gamma"), Some(ModelLifecycleStatus::Legacy)),
            model("m-a", Some("alpha"), Some(ModelLifecycleStatus::Active)),
        ]),
    );
    BedrockModelListWidget::configure_view(&mut app);
    assert_eq!(app.bedrock_model_view_mode.filters.len(), 1);
    assert_eq!(app.bedrock_model_view_mode.sorters.len(), 1);
    app.bedrock_model_list_state.selected = Some(0);
    let shown = BedrockModelListWidget::shown_models(&app);
    assert_eq!(BedrockModelListWidget::item_labels(&shown), vec!["alpha", "beta"]);
    let t = row_texts(&BedrockModelListWidget::details(&app, &shown));
    assert_eq!(
        t,
        vec![
            ("Name: ".to_string(), Some("alpha".to_string())),
            ("ID: ".to_string(), Some("m-a".to_string())),
            ("Provider: ".to_string(), Some("N/A".to_string())),
            ("Customizations: ".to_string(), Some("[FineTuning, Distillation]".to_string())),
            ("Inference Types: ".to_string(), Some("[]".to_string())),
            ("Response Streaming: ".to_string(), Some("false".to_string())),
        ]
    );
    drop(shown);
    app.bedrock_model_list_state.selected = Some(7);
    let shown = BedrockModelListWidget::shown_models(&app);
    let t = row_texts(&BedrockModelListWidget::details(&app, &shown));
    assert_eq!(t, vec![("No model selected or data unavailable.".to_string(), None)]);
}

#[test]
fn bedrock_request_access_filter_and_unknown_names() {
    let mut app = new_app();
    app.current_bedrock_filter = "available_to_request_access".to_string();
    app.apply_bedrock_models(
        true,
        Ok(vec![model("m-x", None, None), model("m-a", Some("alpha"), Some(ModelLifecycleStatus::Active))]),
    );
    BedrockModelListWidget::configure_view(&mut app);
    let shown = BedrockModelListWidget::shown_models(&app);
    assert_eq!(BedrockModelListWidget::item_labels(&shown), vec!["Unknown Model"]);
    let title = BedrockModelListWidget::title(&app);
    assert_eq!(texts(&title), vec!["Bedrock Models ", "Filter: available_to_request_access", " | ", "Sort: alphabetical"]);
}

#[test]
fn chat_message_lines_layout() {
    let msg = ChatMessage { sender: "user".to_string(), content: "hello".to_string(), timestamp: "12:00:00".to_string(), thought: None };
    let spans = ChatWidget::message_lines(&msg, false, 20);
    assert_eq!(texts(&spans), vec!["user: ", "         12:00:00", "", "hello", ""]);
    assert_eq!(spans[0].tone, Tone::UserSender);
    assert_eq!(spans[3].tone, Tone::UserText);
}

#[test]
fn chat_streaming_answer_shows_ellipsis_and_thought() {
    let msg = ChatMessage {
        sender: "llama3".to_string(),
        content: "ok".to_string(),
        timestamp: "1".to_string(),
        thought: Some("hmm".to_string()),
    };
    let chat = ChatSession { model_name: "llama3".to_string(), messages: vec![msg], is_streaming: true };
    let lines = ChatWidget::chat_lines(&chat, 12);
    assert_eq!(texts(&lines[0]), vec!["llama3: ", "        1", "", "hmm", "", "ok...", ""]);
    assert_eq!(lines[0][3].tone, Tone::Thought);
    assert_eq!(lines[0][5].tone, Tone::ModelText);
}

#[test]
fn chat_pane_title() {
    let mut app = new_app();
    assert_eq!(ChatWidget::pane_title(&app), "Chat Area");
    app.active_chat = Some(ChatSession { model_name: "m".to_string(), messages: vec![], is_streaming: false });
    assert_eq!(ChatWidget::pane_title(&app), "Chat with m (idle)");
}

#[test]
fn input_bar_height_follows_wrapped_lines() {
    let mut app = new_app();
    assert_eq!(InputBarWidget::calculate_height(&app, 8), 3);
    app.input_mode = InputMode::Editing;
    app.current_input = "hello world".to_string();
    assert_eq!(InputBarWidget::calculate_height(&app, 8), 4);
    app.current_input = "a b c d e f g h i j k l m n o p".to_string();
    assert_eq!(InputBarWidget::calculate_height(&app, 4), 10);
}

#[test]
fn input_bar_shows_cursor_while_editing() {
    let mut app = new_app();
    app.current_input = "ab".to_string();
    assert_eq!(InputBarWidget::shown_text(&app), "ab");
    app.input_mode = InputMode::Editing;
    app.input_cursor_char_idx = 1;
    assert_eq!(InputBarWidget::shown_text(&app), "a|b");
}

#[test]
fn log_visitor_keeps_message_events() {
    let mut v = LogEntryVisitor::new_at(LogLevel::Info, "app".to_string(), "09:00:00".to_string());
    v.record_field("other", "x".to_string());
    assert!(v.message.is_none());
    v.record_field("message", "started".to_string());
    let e = v.into_entry().expect("an entry");
    assert_eq!(e.message, "started");
    assert_eq!(e.target, "app");
    assert_eq!(e.timestamp, "09:00:00");
    let v = LogEntryVisitor::new(LogLevel::Debug, "t".to_string());
    assert_eq!(v.timestamp.len(), 8);
    assert!(v.into_entry().is_none());
}

#[test]
fn popups_lie_within_their_frame() {
    for (w, h) in [(0u16, 0u16), (1, 1), (7, 3), (100, 40), (333, 71)] {
        let frame = Area { x: 3, y: 2, width: w, height: h };
        assert!(inside(NewVmPopupWidget::popup_area(frame), frame));
        assert!(inside(AboutModalWidget::popup_area(frame), frame));
        assert!(inside(centered_rect(100, 0, frame), frame));
    }
}
