use hydravisor::config::Config;
use hydravisor::libvirt_manager::{VmState, VmStatus};
use hydravisor::ollama_manager::LocalModel;
use hydravisor::tui::app::{
    parse_keybindings, parse_ram_str, readme_excerpt, requests_after, tick_requests, try_parse_ram_str,
    vm_config_from_request, App, AppEvent, AppView, InputMode, LogLevel, NewVmError, NewVmRequest, UILogEntry,
    MAX_LOG_ENTRIES,
};
use hydravisor::tui::keys::{parse_keybinding, KeyCode, KeyModifiers};
use hydravisor::text::IntParseError;

fn vm(id: &str, name: &str) -> VmStatus {
    VmStatus {
        instance_id: id.to_string(),
        name: name.to_string(),
        state: VmState::Running,
        ip_address: None,
        ssh_port: None,
        created_at: String::new(),
        updated_at: String::new(),
        base_image: None,
        cpu_cores_used: Some(2),
        memory_max_kb: None,
        memory_used_kb: None,
        error_details: None,
    }
}

fn entry(msg: &str) -> UILogEntry {
    UILogEntry { timestamp: "12:00:00".to_string(), level: LogLevel::Info, target: "t".to_string(), message: msg.to_string() }
}

fn new_app() -> App {
    App::new_with_vm_id(Config::default(), "0123456789abcdef0123456789abcdef", Ok("line one\nline two".to_string()))
}

#[test]
fn app_view_next_cycles_through_all_views() {
    assert_eq!(AppView::VmList.next(), AppView::OllamaModelList);
    assert_eq!(AppView::OllamaModelList.next(), AppView::BedrockModelList);
    assert_eq!(AppView::BedrockModelList.next(), AppView::Chat);
    assert_eq!(AppView::Chat.next(), AppView::Logs);
    assert_eq!(AppView::Logs.next(), AppView::VmList);
}

#[test]
fn app_view_previous_undoes_next() {
    for v in [AppView::VmList, AppView::OllamaModelList, AppView::BedrockModelList, AppView::Chat, AppView::Logs] {
        assert_eq!(v.next().previous(), v);
        assert_eq!(v.previous().next(), v);
    }
    assert_eq!(AppView::VmList.previous(), AppView::Logs);
}

#[test]
fn parse_ram_str_reads_gigabytes_and_megabytes() {
    assert_eq!(parse_ram_str("4GB"), Ok(4096));
    assert_eq!(parse_ram_str("4gb"), Ok(4096));
    assert_eq!(parse_ram_str(" 512MB "), Ok(512));
    assert_eq!(parse_ram_str("2048"), Ok(2048));
    assert_eq!(parse_ram_str("4 GB"), Ok(4096));
}

#[test]
fn ram_sizes_read_back_as_written() {
    for n in [0u64, 7, 12345, u64::MAX / 1024] {
        assert_eq!(parse_ram_str(&format!("{}GB", n)), Ok(n * 1024));
        assert_eq!(parse_ram_str(&format!("{}mb", n)), Ok(n));
        assert_eq!(parse_ram_str(&format!(" {} ", n)), Ok(n));
    }
    assert_eq!(parse_ram_str(&format!(" {} ", u64::MAX)), Ok(u64::MAX));
}

#[test]
fn parse_ram_str_rejects_non_numbers() {
    assert_eq!(parse_ram_str("abc"), Err(IntParseError::InvalidDigit));
    assert_eq!(parse_ram_str(""), Err(IntParseError::Empty));
    assert_eq!(parse_ram_str("GB"), Err(IntParseError::Empty));
    assert_eq!(parse_ram_str("1G"), Err(IntParseError::InvalidDigit));
}

#[test]
fn try_parse_ram_str_refuses_overflowing_gigabytes() {
    assert_eq!(try_parse_ram_str("18446744073709551615GB"), None);
    assert_eq!(try_parse_ram_str("8GB"), Some(Ok(8192)));
}

#[test]
fn parse_keybinding_reads_modifiers_and_names() {
    assert_eq!(parse_keybinding("q"), Some((KeyCode::Char('q'), KeyModifiers { bits: 0 })));
    assert_eq!(parse_keybinding("Q"), Some((KeyCode::Char('q'), KeyModifiers { bits: 0 })));
    assert_eq!(parse_keybinding("Ctrl+h"), Some((KeyCode::Char('h'), KeyModifiers { bits: 2 })));
    assert_eq!(parse_keybinding("Ctrl+Alt+Shift+x"), Some((KeyCode::Char('x'), KeyModifiers { bits: 7 })));
    assert_eq!(parse_keybinding("  Tab "), Some((KeyCode::Tab, KeyModifiers { bits: 0 })));
    assert_eq!(parse_keybinding("BackTab"), Some((KeyCode::BackTab, KeyModifiers { bits: 0 })));
    assert_eq!(parse_keybinding("F1"), None);
    assert_eq!(parse_keybinding(""), None);
}

#[test]
fn parse_keybindings_of_defaults() {
    let cfg = Config::default();
    let map = parse_keybindings(&cfg.keybindings);
    assert_eq!(map.get("quit"), Some(&(KeyCode::Char('q'), KeyModifiers { bits: 0 })));
    assert_eq!(map.get("menu"), Some(&(KeyCode::Char('h'), KeyModifiers { bits: 2 })));
    assert_eq!(map.get("next_tab"), Some(&(KeyCode::Tab, KeyModifiers { bits: 0 })));
    assert_eq!(map.get("filter"), Some(&(KeyCode::Char('f'), KeyModifiers { bits: 0 })));
    assert!(map.get("nothing").is_none());
}

#[test]
fn readme_excerpt_keeps_first_lines() {
    assert_eq!(readme_excerpt("a\nb\nc", 2), "a\nb");
    assert_eq!(readme_excerpt("a\nb", 10), "a\nb");
    assert_eq!(readme_excerpt("a\r\nb\r\n", 1), "a");
}

#[test]
fn new_app_starts_in_vm_list() {
    let app = new_app();
    assert_eq!(app.active_view, AppView::VmList);
    assert_eq!(app.input_mode, InputMode::Normal);
    assert_eq!(app.new_vm_name, "archlinux-2025.04.01-0123456789abcdef0123456789abcdef");
    assert_eq!(app.new_vm_cpu, "2");
    assert_eq!(app.new_vm_ram_mb, "4GB");
    assert_eq!(app.new_vm_disk_gb, "20");
    assert_eq!(app.readme_content, "line one\nline two");
    assert_eq!(app.current_bedrock_sort, "alphabetical");
    assert_eq!(app.current_bedrock_filter, "available_to_use");
}

#[test]
fn new_app_reports_unreadable_readme() {
    let app = App::new_with_vm_id(Config::default(), "x", Err("missing".to_string()));
    assert_eq!(app.readme_content, "Could not read README.md: missing");
}

#[test]
fn new_app_names_vm_with_fresh_hex_id() {
    let app = App::new(Config::default(), Ok(String::new()));
    let prefix = "archlinux-2025.04.01-";
    assert!(app.new_vm_name.starts_with(prefix));
    let id = &app.new_vm_name[prefix.len()..];
    assert_eq!(id.len(), 32);
    assert!(id.chars().all(|c| c.is_ascii_hexdigit() && !c.is_ascii_uppercase()));
}

#[test]
fn vm_list_navigation_wraps() {
    let mut app = new_app();
    app.apply_vm_listing(true, Ok(vec![vm("1", "a"), vm("2", "b"), vm("3", "c")]));
    assert!(app.libvirt_connected);
    app.select_next_item_in_vm_list();
    assert_eq!(app.vm_list_state.selected, Some(1));
    app.select_next_item_in_vm_list();
    app.select_next_item_in_vm_list();
    assert_eq!(app.vm_list_state.selected, Some(0));
    app.select_previous_item_in_vm_list();
    assert_eq!(app.vm_list_state.selected, Some(2));
}

#[test]
fn failed_vm_listing_empties_list() {
    let mut app = new_app();
    app.apply_vm_listing(true, Ok(vec![vm("1", "a")]));
    app.apply_vm_listing(false, Err("no libvirt".to_string()));
    assert!(!app.libvirt_connected);
    assert!(app.vms.is_empty());
}

#[test]
fn ollama_models_listing_selects_first() {
    let mut app = new_app();
    let m = LocalModel { name: "llama3".to_string(), modified_at: "today".to_string(), size: 10 };
    app.apply_ollama_models(true, Ok(vec![m]));
    assert!(app.ollama_connected);
    assert_eq!(app.ollama_models.len(), 1);
    app.select_next_item_in_ollama_list();
    assert_eq!(app.ollama_model_list_state.selected, Some(0));
}

#[test]
fn log_buffer_keeps_newest_entries() {
    let mut app = new_app();
    let first: Vec<UILogEntry> = (0..MAX_LOG_ENTRIES).map(|i| entry(&format!("m{}", i))).collect();
    app.absorb_log_entries(first);
    assert_eq!(app.log_entries.len(), MAX_LOG_ENTRIES);
    app.absorb_log_entries(vec![entry("newest")]);
    assert_eq!(app.log_entries.len(), MAX_LOG_ENTRIES);
    assert_eq!(app.log_entries[0].message, "m1");
    assert_eq!(app.log_entries[MAX_LOG_ENTRIES - 1].message, "newest");
}

#[test]
fn logs_view_follows_newest_entry() {
    let mut app = new_app();
    app.active_view = AppView::Logs;
    app.absorb_log_entries(vec![entry("a"), entry("b")]);
    assert_eq!(app.log_list_state.selected, Some(1));
    // The selection is checked against the end after the new entries are in.
    app.absorb_log_entries(vec![entry("c")]);
    assert_eq!(app.log_list_state.selected, Some(1));
    app.log_list_state.selected = None;
    app.absorb_log_entries(vec![]);
    assert_eq!(app.log_list_state.selected, Some(2));
}

#[test]
fn tick_asks_for_every_listing() {
    let r = tick_requests();
    assert_eq!(r.len(), 3);
    assert!(matches!(r[0], AppEvent::FetchVms));
    assert!(matches!(r[1], AppEvent::FetchOllamaModels));
    assert!(matches!(r[2], AppEvent::FetchBedrockModels));
}

#[test]
fn destroy_is_followed_by_vm_listing() {
    let r = requests_after(&AppEvent::DestroyVm("x".to_string()));
    assert_eq!(r.len(), 1);
    assert!(matches!(r[0], AppEvent::FetchVms));
    assert!(requests_after(&AppEvent::FetchVms).is_empty());
}

fn request(cpu: &str, ram: &str, disk_gb: &str, use_iso: bool) -> NewVmRequest {
    NewVmRequest {
        name: "vm-a".to_string(),
        use_iso,
        iso_path: "/isos/arch.iso".to_string(),
        source_image_path: "/images/base.qcow2".to_string(),
        disk_path: String::new(),
        cpu: cpu.to_string(),
        ram: ram.to_string(),
        disk_gb: disk_gb.to_string(),
    }
}

#[test]
fn creation_is_followed_by_vm_listing() {
    let r = requests_after(&AppEvent::CreateVm(request("2", "4GB", "20", true)));
    assert_eq!(r.len(), 1);
    assert!(matches!(r[0], AppEvent::FetchVms));
}

#[test]
fn form_contents_become_a_vm_config() {
    let c = vm_config_from_request(&request("4", " 4gb ", "20", true)).unwrap();
    assert_eq!(c.instance_id, "vm-a");
    assert_eq!(c.base_image, "/images/base.qcow2");
    assert_eq!(c.boot_iso.as_deref(), Some("/isos/arch.iso"));
    assert_eq!(c.cpu_cores, 4);
    assert_eq!(c.memory_mb, 4096);
    assert_eq!(c.disk_gb, Some(20));
    assert_eq!(c.network_policy, "default");
    assert_eq!(c.security_policy, "default");
    let c = vm_config_from_request(&request("1", "512", "8", false)).unwrap();
    assert_eq!(c.boot_iso, None);
    assert_eq!(c.memory_mb, 512);
}

#[test]
fn form_errors_name_the_first_bad_field() {
    assert_eq!(vm_config_from_request(&request("x", "4GB", "20", true)).err(), Some(NewVmError::InvalidCpuCount));
    assert_eq!(vm_config_from_request(&request("4294967296", "4GB", "20", true)).err(), Some(NewVmError::InvalidCpuCount));
    assert_eq!(vm_config_from_request(&request("2", "lots", "20", true)).err(), Some(NewVmError::InvalidRamSize));
    assert_eq!(
        vm_config_from_request(&request("2", "18014398509481984GB", "20", true)).err(),
        Some(NewVmError::RamSizeTooLarge)
    );
    assert_eq!(vm_config_from_request(&request("2", "4GB", "", true)).err(), Some(NewVmError::InvalidDiskSize));
}

#[test]
fn active_system_prompt_falls_back_to_default() {
    let app = new_app();
    let p = app.get_active_system_prompt("unknown-model");
    assert_eq!(Some(p), Config::default().default_system_prompt);
}
