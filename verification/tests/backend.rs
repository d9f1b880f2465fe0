use hydravisor::audit_engine::AuditEngine;
use hydravisor::bedrock_manager::{BedrockFilter, BedrockModelSummary, BedrockSorter, ModelLifecycleStatus};
use hydravisor::tui::view_mode::list::ListViewMode;
use hydravisor::cli::{check_policy, pad_right, policy_file_description, validation_report, vm_table_header, vm_table_row, LogLevelCli};
use hydravisor::config::Config;
use hydravisor::env_manager::{EnvironmentConfig, EnvironmentManager, EnvironmentState, EnvironmentType};
use hydravisor::libvirt_manager::{sorted_domain_names, vm_disk_path, vm_domain_xml, LibvirtManager, VmState, VmStatus};
use hydravisor::ollama_manager::{build_chat_messages, ollama_endpoint, stream_item_text, ChatRequestError, MessageRole};
use hydravisor::policy::{default_vm_resource_limits, PolicyConfig, PolicyEngine};
use hydravisor::ssh_manager::{default_ssh_port, default_true, SshManager};
use hydravisor::tui::app::ChatMessage;

fn expected_xml(name: &str, memory_kb: u64, vcpu: u32, disk_path: &str, boot_iso: Option<&str>) -> String {
    let mut iso_disk = "".to_string();
    if let Some(iso_path) = boot_iso {
        iso_disk = format!(
            r#"<disk type='file' device='cdrom'>
                      <driver name='qemu' type='raw'/>
                      <target dev='hda' bus='sata'/>
                      <source file='{}'/>
                      <readonly/>
                   </disk>"#,
            iso_path
        );
    }
    format!(
        r#"<domain type='kvm'>
                  <name>{}</name>
                  <memory unit='KiB'>{}</memory>
                  <vcpu>{}</vcpu>
                  <os>
                    <type arch='x86_64' machine='q35'>hvm</type>
                    <boot dev='hd'/>
                    {}
                  </os>
                  <devices>
                    <disk type='file' device='disk'>
                      <driver name='qemu' type='qcow2'/>
                      <source file='{}'/>
                      <target dev='vda' bus='virtio'/>
                    </disk>
                    {}
                    <interface type='network'>
                      <source network='default'/>
                      <model type='virtio'/>
                    </interface>
                    <graphics type='vnc' port='-1' autoport='yes' listen='127.0.0.1'>
                      <listen type='address' address='127.0.0.1'/>
                    </graphics>
                    <video>
                        <model type="virtio" heads="1" primary="yes"/>
                    </video>
                  </devices>
                </domain>"#,
        name, memory_kb, vcpu, if boot_iso.is_some() { "<boot dev='cdrom'/>" } else { "" }, disk_path, iso_disk
    )
}

fn msg(sender: &str, content: &str) -> ChatMessage {
    ChatMessage { sender: sender.to_string(), content: content.to_string(), timestamp: String::new(), thought: None }
}

#[test]
fn config_defaults() {
    let c = Config::default();
    assert_eq!(c.interface.about_modal_readme_lines, 10);
    assert_eq!(c.defaults.default_vm_image, "archlinux-2025.04.01");
    assert_eq!(c.defaults.default_cpu, 2);
    assert_eq!(c.defaults.default_ram, "4GB");
    assert_eq!(c.logging.log_dir, "~/.hydravisor/logs");
    assert_eq!(c.default_system_prompt.as_deref(), Some("You are a helpful AI assistant."));
    assert_eq!(c.keybindings.quit, "q");
    assert!(c.policy_file_path.is_none());
    assert!(c.get_system_prompt_for_model("llama3").is_none());
}

#[test]
fn companion_files_sit_beside_config() {
    let mut c = Config::default();
    c.resolve_companion_files("/etc/hydravisor/config.toml", None, Some("/home/u/.config/hydravisor/ssh.toml".to_string()));
    assert_eq!(c.policy_file_path.as_deref(), Some("/etc/hydravisor/policy.toml"));
    assert_eq!(c.ssh_config_file_path.as_deref(), Some("/home/u/.config/hydravisor/ssh.toml"));
    let mut c = Config::default();
    c.resolve_companion_files("config.toml", None, None);
    assert_eq!(c.policy_file_path.as_deref(), Some("policy.toml"));
    assert_eq!(c.ssh_config_file_path.as_deref(), Some("ssh.toml"));
    let mut c = Config::default();
    c.resolve_companion_files("/config.toml", None, None);
    assert_eq!(c.policy_file_path.as_deref(), Some("/policy.toml"));
}

#[test]
fn domain_xml_without_iso() {
    let xml = vm_domain_xml("vm1", 2, 4096, "/var/lib/libvirt/images/vm1.qcow2", None);
    assert_eq!(xml, expected_xml("vm1", 4096 * 1024, 2, "/var/lib/libvirt/images/vm1.qcow2", None));
    assert!(xml.contains("<memory unit='KiB'>4194304</memory>"));
}

#[test]
fn domain_xml_with_iso_boots_cdrom() {
    let m = LibvirtManager { libvirt_connected: false };
    let xml = m.create_vm_xml("vm2", 4, 1, "/d.qcow2", Some("/iso/arch.iso"));
    assert_eq!(xml, expected_xml("vm2", 1024, 4, "/d.qcow2", Some("/iso/arch.iso")));
    assert!(xml.contains("<boot dev='cdrom'/>"));
}

#[test]
fn disk_path_under_images_dir() {
    assert_eq!(vm_disk_path("web"), "/var/lib/libvirt/images/web.qcow2");
}

#[test]
fn domain_names_sorted_once() {
    let r = sorted_domain_names(vec!["web".to_string(), "db".to_string(), "web".to_string(), "cache".to_string()]);
    assert_eq!(r, vec!["cache", "db", "web"]);
    assert!(sorted_domain_names(vec![]).is_empty());
}

#[test]
fn libvirt_states_map() {
    let m = LibvirtManager { libvirt_connected: true };
    assert!(m.is_libvirt_connected());
    assert_eq!(m.map_libvirt_state_to_vm_state(0), VmState::Unknown);
    assert_eq!(m.map_libvirt_state_to_vm_state(1), VmState::Running);
    assert_eq!(m.map_libvirt_state_to_vm_state(3), VmState::Suspended);
    assert_eq!(m.map_libvirt_state_to_vm_state(4), VmState::Terminated);
    assert_eq!(m.map_libvirt_state_to_vm_state(5), VmState::Stopped);
    assert_eq!(m.map_libvirt_state_to_vm_state(6), VmState::Error("Crashed".to_string()));
    assert_eq!(m.map_libvirt_state_to_vm_state(42), VmState::Unknown);
}

#[test]
fn environment_states_and_creation() {
    let m = EnvironmentManager { libvirt_connected: false };
    assert_eq!(m.map_libvirt_state_to_hydra(2), EnvironmentState::Suspended);
    assert_eq!(m.map_libvirt_state_to_hydra(6), EnvironmentState::Error("Crashed".to_string()));
    let cfg = EnvironmentConfig {
        instance_id: "sbx".to_string(),
        env_type: EnvironmentType::Vm,
        base_image: "arch".to_string(),
        boot_iso: None,
        cpu_cores: 1,
        memory_mb: 512,
        disk_gb: Some(10),
        network_policy: String::new(),
        security_policy: String::new(),
        custom_script: None,
        template_name: None,
        labels: None,
    };
    let c = m.vm_creation(&cfg);
    assert_eq!(c.name, "sbx");
    assert_eq!(c.disk_path, "/var/lib/libvirt/images/sbx.qcow2");
    assert_eq!(c.xml, expected_xml("sbx", 512 * 1024, 1, "/var/lib/libvirt/images/sbx.qcow2", None));
}

#[test]
fn chat_request_puts_system_prompt_first() {
    let history = vec![msg("user", "hi"), msg("llama3", "hello"), msg("llama3", ""), msg("user", "how?")];
    let out = build_chat_messages(&history, Some("be brief".to_string())).expect("messages");
    let got: Vec<(MessageRole, String)> = out.into_iter().map(|m| (m.role, m.content)).collect();
    assert_eq!(
        got,
        vec![
            (MessageRole::System, "be brief".to_string()),
            (MessageRole::User, "hi".to_string()),
            (MessageRole::Assistant, "hello".to_string()),
            (MessageRole::User, "how?".to_string()),
        ]
    );
}

#[test]
fn chat_request_errors() {
    assert_eq!(build_chat_messages(&vec![], None).err(), Some(ChatRequestError::EmptyHistory));
    assert_eq!(build_chat_messages(&vec![msg("llama3", "")], Some(String::new())).err(), Some(ChatRequestError::EmptyHistory));
    assert_eq!(build_chat_messages(&vec![msg("user", "a"), msg("llama3", "b")], None).err(), Some(ChatRequestError::LastNotFromUser));
    assert_eq!(ChatRequestError::EmptyHistory.message(), "Message list for Ollama is empty after processing history.");
    assert_eq!(ChatRequestError::LastNotFromUser.message(), "Last message to Ollama was not from User.");
}

#[test]
fn stream_items() {
    assert_eq!(stream_item_text(Ok(Some("tok".to_string()))), Ok("tok".to_string()));
    assert_eq!(stream_item_text(Ok(None)), Ok(String::new()));
    assert_eq!(stream_item_text(Err(())), Err("Error processing stream item from Ollama".to_string()));
}

#[test]
fn ollama_default_endpoint() {
    let c = Config::default();
    let (host, port) = ollama_endpoint(&c);
    assert_eq!(host, "http://localhost");
    assert_eq!(port, 11434);
}

#[test]
fn policy_defaults() {
    let l = default_vm_resource_limits();
    assert_eq!((l.default_cpus, l.max_cpus, l.default_mem_mb, l.max_mem_mb), (1, 4, 2048, 8192));
    let p = PolicyConfig::default();
    assert!(!p.recording.record_by_default);
    assert_eq!(p.recording.record_for_roles, vec!["admin", "audited_user"]);
    assert!(p.audit.log_denied);
    assert_eq!(p.audit.log_approved_for_roles, vec!["admin"]);
    assert_eq!(p.roles.len(), 0);
}

#[test]
fn policy_engine_from_file_outcomes() {
    let e = PolicyEngine::from_policy_file(None).expect("default policy");
    assert_eq!(e.config.defaults.vm.max_cpus, 4);
    let r = PolicyEngine::from_policy_file(Some(Err("bad yaml".to_string())));
    assert_eq!(r.err(), Some("bad yaml".to_string()));
    let mut custom = PolicyConfig::default();
    custom.default_network_access_policy = Some(true);
    let e = PolicyEngine::from_policy_file(Some(Ok(custom))).expect("policy");
    assert_eq!(e.config.default_network_access_policy, Some(true));
}

#[test]
fn ssh_defaults() {
    assert_eq!(default_ssh_port(), 22);
    assert!(default_true());
    let m = SshManager::from_config_file(None).expect("no hosts");
    assert_eq!(m.config.hosts.len(), 0);
    assert_eq!(SshManager::from_config_file(Some(Err("x".to_string()))).err(), Some("x".to_string()));
}

#[test]
fn audit_ledger_paths() {
    assert_eq!(AuditEngine::ledger_dir_in("/var/log/hydra"), "/var/log/hydra/audit");
    assert_eq!(AuditEngine::ledger_dir_in("/var/log/hydra/"), "/var/log/hydra/audit");
    assert_eq!(AuditEngine::ledger_dir("/var/log"), "/var/log/audit");
    assert_eq!(AuditEngine::ledger_file("/var/log/audit"), "/var/log/audit/audit_ledger.jsonl");
    assert_eq!(AuditEngine::with_ledger("x".to_string()).ledger_path, "x");
}

#[test]
fn audit_ledger_dir_expands_home() {
    let d = AuditEngine::ledger_dir("~/.hydravisor/logs");
    assert!(!d.starts_with('~'));
    assert!(d.ends_with("/.hydravisor/logs/audit"));
}

#[test]
fn log_levels_as_words() {
    assert_eq!(LogLevelCli::Trace.as_str(), "trace");
    assert_eq!(LogLevelCli::Info.as_str(), "info");
    assert_eq!(LogLevelCli::Error.as_str(), "error");
}

#[test]
fn vm_table_columns() {
    assert_eq!(pad_right("ab", 5), "ab   ");
    assert_eq!(pad_right("abcdef", 3), "abcdef");
    assert_eq!(vm_table_header(), format!("{:<38} {:<25} {:<12} {:<10}", "ID", "NAME", "STATE", "CORES"));
    let vm = VmStatus {
        instance_id: "u-1".to_string(),
        name: "web".to_string(),
        state: VmState::Running,
        ip_address: None,
        ssh_port: None,
        created_at: String::new(),
        updated_at: String::new(),
        base_image: None,
        cpu_cores_used: Some(2),
        memory_max_kb: None,
        memory_used_kb: None,
        error_details: None,
    };
    assert_eq!(vm_table_row(&vm), format!("{:<38} {:<25} {} {:<10}", "u-1", "web", "Running", "2"));
    let vm = VmStatus { cpu_cores_used: None, ..vm };
    assert!(vm_table_row(&vm).ends_with("Running N/A       "));
}

#[test]
fn validation_reports() {
    assert_eq!(policy_file_description("p.toml"), "file 'p.toml'");
    assert_eq!(validation_report("file 'p'", &vec![]), Ok("SUCCESS: Policy from file 'p' is valid against the JSON schema.".to_string()));
    assert_eq!(
        validation_report("file 'p'", &vec!["a".to_string(), "b".to_string()]),
        Err("ERROR: Policy from file 'p' is INVALID against the JSON schema:\n  - a\n  - b".to_string())
    );
}

#[test]
fn policy_toml_errors_name_the_file() {
    let schema = r#"{"type": "object"}"#;
    let e = check_policy("p.toml", "a = [", "file 'p.toml'", schema).err().expect("an error");
    assert!(e.starts_with("Failed to parse TOML from policy file \"p.toml\": "));
    let e = check_policy("p.toml", "a = [", "file 'p.toml'", "{not json").err().expect("an error");
    assert!(e.starts_with("Failed to parse TOML from policy file \"p.toml\": "));
}

#[test]
fn policy_checked_against_schema() {
    let schema = r#"{"type": "object", "required": ["defaults"]}"#;
    let good = "[defaults]\nvm = 1\n";
    assert_eq!(
        check_policy("p", good, "file 'p'", schema),
        Ok("SUCCESS: Policy from file 'p' is valid against the JSON schema.".to_string())
    );
    let e = check_policy("p", "x = 1", "file 'p'", schema).err().expect("invalid");
    assert!(e.starts_with("ERROR: Policy from file 'p' is INVALID against the JSON schema:\n  - "));
    assert!(e.contains("defaults"));
    let e = check_policy("p", good, "file 'p'", "{not json").err().expect("bad schema");
    assert!(e.starts_with("Failed to parse policy schema JSON from \"technical_design/policy.schema.json\": "));
    let e = check_policy("p", good, "file 'p'", r#"{"type": 12}"#).err().expect("bad schema");
    assert!(e.starts_with("Failed to compile policy JSON schema: "));
}

#[test]
fn policy_violations_are_listed_one_per_line() {
    let schema = r#"{"type": "object", "required": ["defaults", "roles"]}"#;
    let e = check_policy("p", "x = 1", "file 'p'", schema).err().expect("invalid");
    let lines: Vec<&str> = e.lines().collect();
    assert_eq!(lines[0], "ERROR: Policy from file 'p' is INVALID against the JSON schema:");
    assert_eq!(lines.len(), 3);
    assert!(lines[1].starts_with("  - ") && lines[2].starts_with("  - "));
}

#[test]
fn environment_status_of_listed_domain() {
    let m = EnvironmentManager { libvirt_connected: true };
    assert!(m.is_libvirt_connected());
    let s = m.env_status_from_domain(None, "box".to_string(), 5, 2048, 1024, 2);
    assert_eq!(s.instance_id, "N/A-UUID");
    assert_eq!(s.name, "box");
    assert_eq!(s.state, EnvironmentState::Stopped);
    assert_eq!(s.memory_max_kb, Some(2048));
    assert_eq!(s.memory_used_kb, Some(1024));
    assert_eq!(s.cpu_cores_used, Some(2));
    let n = m.new_env_status("u-1".to_string(), "fresh".to_string());
    assert_eq!(n.state, EnvironmentState::Provisioning);
    assert_eq!(n.env_type, EnvironmentType::Vm);
}

fn listed_model(id: &str, name: &str, active: bool) -> BedrockModelSummary {
    BedrockModelSummary {
        model_id: id.to_string(),
        model_name: Some(name.to_string()),
        provider_name: None,
        lifecycle_status: Some(if active { ModelLifecycleStatus::Active } else { ModelLifecycleStatus::Legacy }),
        customizations_supported: None,
        inference_types_supported: None,
        response_streaming_supported: None,
    }
}

fn shown_ids(mode: &ListViewMode<BedrockModelSummary, BedrockFilter, BedrockSorter>, items: &[BedrockModelSummary]) -> Vec<String> {
    mode.apply(items).iter().map(|m| m.model_id.clone()).collect()
}

#[test]
fn adding_a_filter_only_removes_items() {
    let items = vec![listed_model("c", "C", true), listed_model("a", "A", false), listed_model("b", "B", true)];
    let mut mode: ListViewMode<BedrockModelSummary, BedrockFilter, BedrockSorter> = ListViewMode::new();
    assert_eq!(shown_ids(&mode, &items), vec!["c", "a", "b"]);
    mode.add_filter(BedrockFilter::AvailableToUse);
    assert_eq!(shown_ids(&mode, &items), vec!["c", "b"]);
    mode.add_filter(BedrockFilter::AvailableToRequestAccess);
    assert!(shown_ids(&mode, &items).is_empty());
}

#[test]
fn adding_a_sorter_resorts_stably() {
    let items = vec![
        listed_model("x", "B", true),
        listed_model("y", "A", true),
        listed_model("z", "B", true),
        listed_model("w", "A", true),
    ];
    let mut mode: ListViewMode<BedrockModelSummary, BedrockFilter, BedrockSorter> = ListViewMode::new();
    assert_eq!(shown_ids(&mode, &items), vec!["x", "y", "z", "w"]);
    mode.add_sorter(BedrockSorter::Alphabetical);
    assert_eq!(shown_ids(&mode, &items), vec!["y", "w", "x", "z"]);
}
