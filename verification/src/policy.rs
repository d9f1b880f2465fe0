// The security policy: resource limits for new machines, roles and their permissions,
// per-agent overrides, session recording, audit settings and network rules. The policy
// file is read and parsed by the runtime; the engine holds the policy in effect.
use vstd::prelude::*;
use crate::string_map::StringMap;

verus! {

broadcast use vstd::string::group_string_axioms;

/// The resource limits for new machines.
#[derive(Debug, Clone)]
pub struct VmResourceLimits {
    pub default_cpus: u32,
    pub max_cpus: u32,
    pub default_mem_mb: u64,
    pub max_mem_mb: u64,
}

/// The limits that hold where the policy sets none: one processor by default and four at
/// most, 2048 MB of memory by default and 8192 MB at most.
pub fn default_vm_resource_limits() -> (r: VmResourceLimits)
    ensures
        r.default_cpus == 1,
        r.max_cpus == 4,
        r.default_mem_mb == 2048,
        r.max_mem_mb == 8192,
{
    VmResourceLimits { default_cpus: 1, max_cpus: 4, default_mem_mb: 2048, max_mem_mb: 8192 }
}

/// The `[defaults]` table of the policy.
#[derive(Debug, Clone)]
pub struct Defaults {
    pub vm: VmResourceLimits,
}

impl Default for Defaults {
    fn default() -> (r: Self)
        ensures
            r.vm.default_cpus == 1 && r.vm.max_cpus == 4,
            r.vm.default_mem_mb == 2048 && r.vm.max_mem_mb == 8192,
    {
        Defaults { vm: default_vm_resource_limits() }
    }
}

/// What a role may do.
#[derive(Debug, Clone)]
pub struct RoleDefinition {
    pub can_create: bool,
    pub can_destroy: bool,
    pub can_attach_terminal: bool,
    pub audited: bool,
    pub session_recording: Option<bool>,
    pub allowed_commands: Option<Vec<String>>,
}

/// The permissions of one agent: its role, and settings that override the role's.
#[derive(Debug, Clone)]
pub struct PermissionOverride {
    pub role: String,
    pub override_settings: Option<OverrideSettings>,
}

/// Settings that override a role's.
#[derive(Debug, Clone)]
pub struct OverrideSettings {
    pub can_create: Option<bool>,
    pub can_attach_terminal: Option<bool>,
    pub audited: Option<bool>,
}

/// When sessions are recorded.
#[derive(Debug, Clone)]
pub struct SessionRecordingPolicy {
    pub record_by_default: bool,
    pub record_for_roles: Vec<String>,
}

impl Default for SessionRecordingPolicy {
    /// Sessions are not recorded by default, but they are for the "admin" and
    /// "audited_user" roles.
    fn default() -> (r: Self)
        ensures
            !r.record_by_default,
            crate::text::string_views(r.record_for_roles@) == seq!["admin"@, "audited_user"@],
    {
        let r = SessionRecordingPolicy {
            record_by_default: false,
            record_for_roles: vec!["admin".to_string(), "audited_user".to_string()],
        };
        assert(crate::text::string_views(r.record_for_roles@) =~= seq!["admin"@, "audited_user"@]);
        r
    }
}

/// What the audit log records.
#[derive(Debug, Clone)]
pub struct AuditPolicySettings {
    pub log_denied: bool,
    pub log_approved_for_roles: Vec<String>,
}

impl Default for AuditPolicySettings {
    /// Denied requests are logged, and approved ones for the "admin" role.
    fn default() -> (r: Self)
        ensures
            r.log_denied,
            crate::text::string_views(r.log_approved_for_roles@) == seq!["admin"@],
    {
        let r = AuditPolicySettings { log_denied: true, log_approved_for_roles: vec!["admin".to_string()] };
        assert(crate::text::string_views(r.log_approved_for_roles@) =~= seq!["admin"@]);
        r
    }
}

/// The network access of one kind of session.
#[derive(Debug, Clone)]
pub struct SessionTypePolicy {
    pub allow_all_network: Option<bool>,
    pub network_access: Option<Vec<NetworkRule>>,
}

/// One network rule: whether a host, port and protocol are allowed.
#[derive(Debug, Clone)]
pub struct NetworkRule {
    pub allow: Option<bool>,
    pub host: Option<String>,
    pub port: Option<u16>,
    pub protocol: Option<String>,
}

/// The whole policy.
#[derive(Debug)]
pub struct PolicyConfig {
    pub source_path: Option<String>,
    pub defaults: Defaults,
    pub roles: StringMap<RoleDefinition>,
    pub permissions: StringMap<PermissionOverride>,
    pub recording: SessionRecordingPolicy,
    pub audit: AuditPolicySettings,
    pub session_type_policies: StringMap<SessionTypePolicy>,
    pub default_network_access_policy: Option<bool>,
}

impl PolicyConfig {
    /// Whether this is the policy in effect when there is no policy file: the default
    /// limits, no roles, permissions or session kinds, the default recording and audit
    /// settings, and no network default.
    pub open spec fn is_default(self) -> bool {
        &&& self.source_path is None
        &&& self.defaults.vm.default_cpus == 1 && self.defaults.vm.max_cpus == 4
        &&& self.defaults.vm.default_mem_mb == 2048 && self.defaults.vm.max_mem_mb == 8192
        &&& self.roles@ == Map::<Seq<char>, RoleDefinition>::empty()
        &&& self.permissions@ == Map::<Seq<char>, PermissionOverride>::empty()
        &&& self.session_type_policies@ == Map::<Seq<char>, SessionTypePolicy>::empty()
        &&& !self.recording.record_by_default
        &&& crate::text::string_views(self.recording.record_for_roles@) == seq!["admin"@, "audited_user"@]
        &&& self.audit.log_denied
        &&& crate::text::string_views(self.audit.log_approved_for_roles@) == seq!["admin"@]
        &&& self.default_network_access_policy is None
    }
}

impl Default for PolicyConfig {
    fn default() -> (r: Self)
        ensures
            r.is_default(),
    {
        PolicyConfig {
            source_path: None,
            defaults: Defaults::default(),
            roles: StringMap::new(),
            permissions: StringMap::new(),
            recording: SessionRecordingPolicy::default(),
            audit: AuditPolicySettings::default(),
            session_type_policies: StringMap::new(),
            default_network_access_policy: None,
        }
    }
}

/// The engine that holds the policy in effect.
#[derive(Debug)]
pub struct PolicyEngine {
    pub config: PolicyConfig,
}

impl PolicyEngine {
    /// The engine for what reading the policy file gave: with no policy file named, or
    /// none where it was named (`None`), the default policy; a policy file that parsed, that
    /// policy; a policy file that could not be read or parsed, its error.
    pub fn from_policy_file(file: Option<Result<PolicyConfig, String>>) -> (r: Result<PolicyEngine, String>)
        ensures
            match file {
                None => r matches Ok(e) && e.config.is_default(),
                Some(Ok(c)) => r == Ok::<PolicyEngine, String>(PolicyEngine { config: c }),
                Some(Err(msg)) => r == Err::<PolicyEngine, String>(msg),
            },
    {
        match file {
            None => Ok(PolicyEngine { config: PolicyConfig::default() }),
            Some(Ok(c)) => Ok(PolicyEngine { config: c }),
            Some(Err(msg)) => Err(msg),
        }
    }
}

} // verus!
