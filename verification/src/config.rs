// The configuration of the application (config.toml): its sections, their default
// values, and the lookup of a model's system prompt.
use vstd::prelude::*;
use crate::string_map::StringMap;
use crate::text::{dir_of, dir_path, join_path, push_path};

verus! {

broadcast use vstd::string::group_string_axioms;

pub const APP_NAME: &'static str = "hydravisor";
pub const DEFAULT_CONFIG_FILENAME: &'static str = "config.toml";
pub const DEFAULT_POLICY_FILENAME: &'static str = "policy.toml";
pub const DEFAULT_SSH_CONFIG_FILENAME: &'static str = "ssh.toml";

/// The whole configuration (config.toml), with the paths of the policy and SSH files
/// that loading resolves beside it.
#[derive(Debug)]
pub struct Config {
    pub interface: InterfaceConfig,
    pub defaults: DefaultsConfig,
    pub providers: ProvidersConfig,
    pub logging: LoggingConfig,
    pub tmux: TmuxConfig,
    pub mcp: McpConfig,
    pub keybindings: KeyBindingsConfig,
    pub policy_file_path: Option<String>,
    pub ssh_config_file_path: Option<String>,
    pub ollama_host: Option<String>,
    pub ollama_port: Option<u16>,
    pub default_system_prompt: Option<String>,
}

/// The `[interface]` section.
#[derive(Debug, Clone)]
pub struct InterfaceConfig {
    pub mode: String,
    pub modal_key: String,
    pub refresh_interval_ms: u64,
    pub about_modal_readme_lines: usize,
}

pub fn default_interface_mode() -> (r: String)
    ensures
        r@ == "session"@,
{
    "session".to_string()
}

pub fn default_modal_key() -> (r: String)
    ensures
        r@ == "9"@,
{
    "9".to_string()
}

pub fn default_refresh_interval_ms() -> (r: u64)
    ensures
        r == 500,
{
    500
}

pub fn default_about_modal_readme_lines() -> (r: usize)
    ensures
        r == 10,
{
    10
}

impl InterfaceConfig {
    /// The default `[interface]` section.
    pub open spec fn spec_default(self) -> bool {
        &&& self.mode@ == "session"@
        &&& self.modal_key@ == "9"@
        &&& self.refresh_interval_ms == 500
        &&& self.about_modal_readme_lines == 10
    }
}

impl Default for InterfaceConfig {
    fn default() -> (r: Self)
        ensures
            r.spec_default(),
    {
        InterfaceConfig {
            mode: default_interface_mode(),
            modal_key: default_modal_key(),
            refresh_interval_ms: default_refresh_interval_ms(),
            about_modal_readme_lines: default_about_modal_readme_lines(),
        }
    }
}

/// The `[defaults]` section: what a new VM or session starts from.
#[derive(Debug, Clone)]
pub struct DefaultsConfig {
    pub default_vm_image: String,
    pub default_vm_iso: String,
    pub default_source_image: Option<String>,
    pub default_container_image: String,
    pub default_model: String,
    pub default_cpu: u32,
    pub default_ram: String,
    pub default_disk_gb: u64,
}

pub fn default_vm_image() -> (r: String)
    ensures
        r@ == "archlinux-2025.04.01"@,
{
    "archlinux-2025.04.01".to_string()
}

pub fn default_vm_iso() -> (r: String)
    ensures
        r@ == "/mnt/DiskImages/archlinux-2025.04.01-x86_64.iso"@,
{
    "/mnt/DiskImages/archlinux-2025.04.01-x86_64.iso".to_string()
}

pub fn default_container_image() -> (r: String)
    ensures
        r@ == "ghcr.io/hydravisor/agent:latest"@,
{
    "ghcr.io/hydravisor/agent:latest".to_string()
}

pub fn default_model() -> (r: String)
    ensures
        r@ == "ollama:qwen3"@,
{
    "ollama:qwen3".to_string()
}

pub fn default_cpu() -> (r: u32)
    ensures
        r == 2,
{
    2
}

pub fn default_ram() -> (r: String)
    ensures
        r@ == "4GB"@,
{
    "4GB".to_string()
}

pub fn default_disk_gb() -> (r: u64)
    ensures
        r == 20,
{
    20
}

impl DefaultsConfig {
    /// The default `[defaults]` section.
    pub open spec fn spec_default(self) -> bool {
        &&& self.default_vm_image@ == "archlinux-2025.04.01"@
        &&& self.default_vm_iso@ == "/mnt/DiskImages/archlinux-2025.04.01-x86_64.iso"@
        &&& self.default_source_image is None
        &&& self.default_container_image@ == "ghcr.io/hydravisor/agent:latest"@
        &&& self.default_model@ == "ollama:qwen3"@
        &&& self.default_cpu == 2
        &&& self.default_ram@ == "4GB"@
        &&& self.default_disk_gb == 20
    }
}

impl Default for DefaultsConfig {
    fn default() -> (r: Self)
        ensures
            r.spec_default(),
    {
        DefaultsConfig {
            default_vm_image: default_vm_image(),
            default_vm_iso: default_vm_iso(),
            default_source_image: None,
            default_container_image: default_container_image(),
            default_model: default_model(),
            default_cpu: default_cpu(),
            default_ram: default_ram(),
            default_disk_gb: default_disk_gb(),
        }
    }
}

/// The `[providers]` section.
#[derive(Debug)]
pub struct ProvidersConfig {
    pub ollama: OllamaConfig,
    pub bedrock: BedrockConfig,
}

impl ProvidersConfig {
    /// The default `[providers]` section.
    pub open spec fn spec_default(self) -> bool {
        &&& self.ollama.spec_default()
        &&& self.bedrock.spec_default()
    }
}

impl Default for ProvidersConfig {
    fn default() -> (r: Self)
        ensures
            r.spec_default(),
    {
        ProvidersConfig { ollama: OllamaConfig::default(), bedrock: BedrockConfig::default() }
    }
}

/// The `[providers.ollama]` section, with the per-model system prompts.
#[derive(Debug)]
pub struct OllamaConfig {
    pub enabled: bool,
    pub path: String,
    pub models: Vec<String>,
    pub model_system_prompts: Option<StringMap<String>>,
}

pub fn default_ollama_path() -> (r: String)
    ensures
        r@ == "/usr/local/bin/ollama"@,
{
    "/usr/local/bin/ollama".to_string()
}

impl OllamaConfig {
    /// The default `[providers.ollama]` section.
    pub open spec fn spec_default(self) -> bool {
        &&& self.enabled
        &&& self.path@ == "/usr/local/bin/ollama"@
        &&& self.models@.len() == 2
        &&& self.models@[0]@ == "llama3"@
        &&& self.models@[1]@ == "mistral"@
        &&& self.model_system_prompts is None
    }
}

impl Default for OllamaConfig {
    fn default() -> (r: Self)
        ensures
            r.spec_default(),
    {
        let mut models: Vec<String> = Vec::new();
        models.push("llama3".to_string());
        models.push("mistral".to_string());
        OllamaConfig {
            enabled: true,
            path: default_ollama_path(),
            models,
            model_system_prompts: None,
        }
    }
}

/// The named Bedrock model filters and which one is active at start.
#[derive(Debug, Clone)]
pub struct BedrockFiltersConfig {
    pub default: String,
    pub available_to_request_access: Option<BedrockFilterDefinition>,
    pub available_to_use: Option<BedrockFilterDefinition>,
}

pub fn default_bedrock_filter_name() -> (r: String)
    ensures
        r@ == "available_to_use"@,
{
    "available_to_use".to_string()
}

impl Default for BedrockFiltersConfig {
    fn default() -> (r: Self)
        ensures
            r.default@ == Seq::<char>::empty(),
            r.available_to_request_access is None,
            r.available_to_use is None,
    {
        BedrockFiltersConfig {
            default: String::new(),
            available_to_request_access: None,
            available_to_use: None,
        }
    }
}

/// The description of one Bedrock model filter.
#[derive(Debug, Clone)]
pub struct BedrockFilterDefinition {
    pub description: String,
}

impl Default for BedrockFilterDefinition {
    fn default() -> (r: Self)
        ensures
            r.description@ == Seq::<char>::empty(),
    {
        BedrockFilterDefinition { description: String::new() }
    }
}

/// The `[providers.bedrock]` section.
#[derive(Debug, Clone)]
pub struct BedrockConfig {
    pub enabled: bool,
    pub region: String,
    pub profile: String,
    pub filters: BedrockFiltersConfig,
}

pub fn default_bedrock_region() -> (r: String)
    ensures
        r@ == "us-west-2"@,
{
    "us-west-2".to_string()
}

pub fn default_bedrock_profile() -> (r: String)
    ensures
        r@ == "default"@,
{
    "default".to_string()
}

impl BedrockConfig {
    /// The default `[providers.bedrock]` section.
    pub open spec fn spec_default(self) -> bool {
        &&& !self.enabled
        &&& self.region@ == "us-west-2"@
        &&& self.profile@ == "default"@
        &&& self.filters.default@ == "available_to_use"@
        &&& self.filters.available_to_request_access matches Some(d)
            && d.description@ == "Models you can request access to"@
        &&& self.filters.available_to_use matches Some(d) && d.description@
            == "Models you can use now"@
    }
}

impl Default for BedrockConfig {
    fn default() -> (r: Self)
        ensures
            r.spec_default(),
    {
        BedrockConfig {
            enabled: false,
            region: default_bedrock_region(),
            profile: default_bedrock_profile(),
            filters: BedrockFiltersConfig {
                default: default_bedrock_filter_name(),
                available_to_request_access: Some(
                    BedrockFilterDefinition {
                        description: "Models you can request access to".to_string(),
                    },
                ),
                available_to_use: Some(
                    BedrockFilterDefinition { description: "Models you can use now".to_string() },
                ),
            },
        }
    }
}

/// The `[logging]` section.
#[derive(Debug, Clone)]
pub struct LoggingConfig {
    pub level: String,
    pub log_dir: String,
    pub rotate_daily: bool,
    pub retain_days: u32,
}

pub fn default_log_level() -> (r: String)
    ensures
        r@ == "info"@,
{
    "info".to_string()
}

pub fn default_log_dir() -> (r: String)
    ensures
        r@ == "~/.hydravisor/logs"@,
{
    "~/.hydravisor/logs".to_string()
}

pub fn default_rotate_daily() -> (r: bool)
    ensures
        r,
{
    true
}

pub fn default_retain_days() -> (r: u32)
    ensures
        r == 7,
{
    7
}

impl LoggingConfig {
    /// The default `[logging]` section.
    pub open spec fn spec_default(self) -> bool {
        &&& self.level@ == "info"@
        &&& self.log_dir@ == "~/.hydravisor/logs"@
        &&& self.rotate_daily
        &&& self.retain_days == 7
    }
}

impl Default for LoggingConfig {
    fn default() -> (r: Self)
        ensures
            r.spec_default(),
    {
        LoggingConfig {
            level: default_log_level(),
            log_dir: default_log_dir(),
            rotate_daily: default_rotate_daily(),
            retain_days: default_retain_days(),
        }
    }
}

/// The `[tmux]` section.
#[derive(Debug, Clone)]
pub struct TmuxConfig {
    pub session_prefix: String,
    pub record_all_sessions: bool,
    pub record_format: String,
    pub autosave_on_exit: bool,
}

pub fn default_session_prefix() -> (r: String)
    ensures
        r@ == "hydra-"@,
{
    "hydra-".to_string()
}

pub fn default_record_all_sessions() -> (r: bool)
    ensures
        !r,
{
    false
}

pub fn default_record_format() -> (r: String)
    ensures
        r@ == "ansi"@,
{
    "ansi".to_string()
}

pub fn default_autosave_on_exit() -> (r: bool)
    ensures
        r,
{
    true
}

impl TmuxConfig {
    /// The default `[tmux]` section.
    pub open spec fn spec_default(self) -> bool {
        &&& self.session_prefix@ == "hydra-"@
        &&& !self.record_all_sessions
        &&& self.record_format@ == "ansi"@
        &&& self.autosave_on_exit
    }
}

impl Default for TmuxConfig {
    fn default() -> (r: Self)
        ensures
            r.spec_default(),
    {
        TmuxConfig {
            session_prefix: default_session_prefix(),
            record_all_sessions: default_record_all_sessions(),
            record_format: default_record_format(),
            autosave_on_exit: default_autosave_on_exit(),
        }
    }
}

/// The `[mcp]` section.
#[derive(Debug, Clone)]
pub struct McpConfig {
    pub socket_path: String,
    pub timeout_ms: u64,
    pub heartbeat_interval: u64,
}

pub fn default_mcp_socket_path() -> (r: String)
    ensures
        r@ == "/tmp/hydravisor_mcp.sock"@,
{
    "/tmp/hydravisor_mcp.sock".to_string()
}

pub fn default_mcp_timeout_ms() -> (r: u64)
    ensures
        r == 2000,
{
    2000
}

pub fn default_mcp_heartbeat_interval() -> (r: u64)
    ensures
        r == 30,
{
    30
}

impl McpConfig {
    /// The default `[mcp]` section.
    pub open spec fn spec_default(self) -> bool {
        &&& self.socket_path@ == "/tmp/hydravisor_mcp.sock"@
        &&& self.timeout_ms == 2000
        &&& self.heartbeat_interval == 30
    }
}

impl Default for McpConfig {
    fn default() -> (r: Self)
        ensures
            r.spec_default(),
    {
        McpConfig {
            socket_path: default_mcp_socket_path(),
            timeout_ms: default_mcp_timeout_ms(),
            heartbeat_interval: default_mcp_heartbeat_interval(),
        }
    }
}

/// The `[keybindings]` section: one key description per action.
#[derive(Debug, Clone)]
pub struct KeyBindingsConfig {
    pub quit: String,
    pub help: String,
    pub menu: String,
    pub next_tab: String,
    pub prev_tab: String,
    pub new_vm: String,
    pub destroy_vm: String,
    pub edit: String,
    pub enter: String,
    pub up: String,
    pub down: String,
    pub filter: String,
    pub sort: String,
    pub bedrock: BedrockKeyBindings,
}

/// The `[keybindings.bedrock]` section.
#[derive(Debug, Clone)]
pub struct BedrockKeyBindings {
    pub filter: String,
    pub sort: String,
}

pub fn default_bedrock_filter() -> (r: String)
    ensures
        r@ == "f"@,
{
    "f".to_string()
}

pub fn default_bedrock_sort() -> (r: String)
    ensures
        r@ == "s"@,
{
    "s".to_string()
}

impl Default for BedrockKeyBindings {
    fn default() -> (r: Self)
        ensures
            r.filter@ == "f"@,
            r.sort@ == "s"@,
    {
        Self { filter: default_bedrock_filter(), sort: default_bedrock_sort() }
    }
}

pub fn default_quit() -> (r: String)
    ensures
        r@ == "q"@,
{
    "q".to_string()
}

pub fn default_help() -> (r: String)
    ensures
        r@ == "?"@,
{
    "?".to_string()
}

pub fn default_menu() -> (r: String)
    ensures
        r@ == "Ctrl+h"@,
{
    "Ctrl+h".to_string()
}

pub fn default_next_tab() -> (r: String)
    ensures
        r@ == "Tab"@,
{
    "Tab".to_string()
}

pub fn default_prev_tab() -> (r: String)
    ensures
        r@ == "BackTab"@,
{
    "BackTab".to_string()
}

pub fn default_new_vm() -> (r: String)
    ensures
        r@ == "n"@,
{
    "n".to_string()
}

pub fn default_destroy_vm() -> (r: String)
    ensures
        r@ == "d"@,
{
    "d".to_string()
}

pub fn default_edit() -> (r: String)
    ensures
        r@ == "e"@,
{
    "e".to_string()
}

pub fn default_enter() -> (r: String)
    ensures
        r@ == "Enter"@,
{
    "Enter".to_string()
}

pub fn default_up() -> (r: String)
    ensures
        r@ == "Up"@,
{
    "Up".to_string()
}

pub fn default_down() -> (r: String)
    ensures
        r@ == "Down"@,
{
    "Down".to_string()
}

pub fn default_filter() -> (r: String)
    ensures
        r@ == "F"@,
{
    "F".to_string()
}

pub fn default_sort() -> (r: String)
    ensures
        r@ == "S"@,
{
    "S".to_string()
}

impl KeyBindingsConfig {
    /// The default `[keybindings]` section.
    pub open spec fn spec_default(self) -> bool {
        &&& self.quit@ == "q"@
        &&& self.help@ == "?"@
        &&& self.menu@ == "Ctrl+h"@
        &&& self.next_tab@ == "Tab"@
        &&& self.prev_tab@ == "BackTab"@
        &&& self.new_vm@ == "n"@
        &&& self.destroy_vm@ == "d"@
        &&& self.edit@ == "e"@
        &&& self.enter@ == "Enter"@
        &&& self.up@ == "Up"@
        &&& self.down@ == "Down"@
        &&& self.filter@ == "F"@
        &&& self.sort@ == "S"@
        &&& self.bedrock.filter@ == "f"@
        &&& self.bedrock.sort@ == "s"@
    }
}

impl Default for KeyBindingsConfig {
    fn default() -> (r: Self)
        ensures
            r.spec_default(),
    {
        Self {
            quit: default_quit(),
            help: default_help(),
            menu: default_menu(),
            next_tab: default_next_tab(),
            prev_tab: default_prev_tab(),
            new_vm: default_new_vm(),
            destroy_vm: default_destroy_vm(),
            edit: default_edit(),
            enter: default_enter(),
            up: default_up(),
            down: default_down(),
            filter: default_filter(),
            sort: default_sort(),
            bedrock: BedrockKeyBindings::default(),
        }
    }
}

pub fn default_global_system_prompt() -> (r: Option<String>)
    ensures
        r matches Some(p) && p@ == "You are a helpful AI assistant."@,
{
    Some("You are a helpful AI assistant.".to_string())
}

impl Config {
    /// The configuration used when no file gives one.
    pub open spec fn spec_default(self) -> bool {
        &&& self.interface.spec_default()
        &&& self.defaults.spec_default()
        &&& self.providers.spec_default()
        &&& self.logging.spec_default()
        &&& self.tmux.spec_default()
        &&& self.mcp.spec_default()
        &&& self.keybindings.spec_default()
        &&& self.policy_file_path is None
        &&& self.ssh_config_file_path is None
        &&& self.ollama_host is None
        &&& self.ollama_port is None
        &&& self.default_system_prompt matches Some(p) && p@
            == "You are a helpful AI assistant."@
    }

    /// The system prompt configured for a model, if the configuration names one.
    pub open spec fn spec_prompt_for_model(self, model_name: Seq<char>) -> Option<String> {
        match self.providers.ollama.model_system_prompts {
            Some(prompts) => if prompts@.contains_key(model_name) {
                Some(prompts@[model_name])
            } else {
                None
            },
            None => None,
        }
    }

    pub fn get_system_prompt_for_model(&self, model_name: &str) -> (r: Option<String>)
        ensures
            r == self.spec_prompt_for_model(model_name@),
    {
        match &self.providers.ollama.model_system_prompts {
            Some(prompts) => match prompts.get(model_name) {
                Some(p) => Some(p.clone()),
                None => None,
            },
            None => None,
        }
    }

    /// Sets where the policy and SSH files are read from: where the configuration
    /// directories hold them, as found there, else beside the configuration file. Nothing
    /// else changes.
    pub fn resolve_companion_files(&mut self, config_path: &str, found_policy: Option<String>, found_ssh: Option<String>)
        ensures
            final(self).policy_file_path matches Some(p) && p@ == companion_path(config_path@, found_policy, DEFAULT_POLICY_FILENAME@),
            final(self).ssh_config_file_path matches Some(p) && p@ == companion_path(config_path@, found_ssh, DEFAULT_SSH_CONFIG_FILENAME@),
            *final(self) == (Config {
                policy_file_path: final(self).policy_file_path,
                ssh_config_file_path: final(self).ssh_config_file_path,
                ..*old(self)
            }),
    {
        let dir = dir_path(config_path);
        let policy = match found_policy {
            Some(p) => p,
            None => push_path(dir.as_str(), DEFAULT_POLICY_FILENAME),
        };
        let ssh = match found_ssh {
            Some(p) => p,
            None => push_path(dir.as_str(), DEFAULT_SSH_CONFIG_FILENAME),
        };
        self.policy_file_path = Some(policy);
        self.ssh_config_file_path = Some(ssh);
    }
}

/// Where a file that goes with the configuration lies: where the configuration
/// directories hold it, else in the directory of the configuration file.
pub open spec fn companion_path(config_path: Seq<char>, found: Option<String>, name: Seq<char>) -> Seq<char> {
    match found {
        Some(p) => p@,
        None => join_path(dir_of(config_path), name),
    }
}

impl Default for Config {
    fn default() -> (r: Self)
        ensures
            r.spec_default(),
    {
        Config {
            interface: InterfaceConfig::default(),
            defaults: DefaultsConfig::default(),
            providers: ProvidersConfig::default(),
            logging: LoggingConfig::default(),
            tmux: TmuxConfig::default(),
            mcp: McpConfig::default(),
            keybindings: KeyBindingsConfig::default(),
            policy_file_path: None,
            ssh_config_file_path: None,
            ollama_host: None,
            ollama_port: None,
            default_system_prompt: default_global_system_prompt(),
        }
    }
}

} // verus!
