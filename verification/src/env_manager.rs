// Environments (for now virtual machines) as the environment manager sees them: the
// request to create one, its state and status, and what the manager computes around
// the hypervisor's answers.
use vstd::prelude::*;
use crate::string_map::StringMap;
use crate::libvirt_manager::{
    DOMAIN_NOSTATE, DOMAIN_RUNNING, DOMAIN_BLOCKED, DOMAIN_PAUSED, DOMAIN_SHUTDOWN, DOMAIN_SHUTOFF,
    DOMAIN_CRASHED, IMAGES_DIR, domain_xml, opt_view, vm_disk_path, vm_domain_xml, vm_state_for, VmState,
};

verus! {

broadcast use vstd::string::group_string_axioms;

/// The kind of an environment.
#[derive(Clone, Copy, Debug, PartialEq, Eq, Hash, Structural)]
pub enum EnvironmentType {
    Vm,
    Container,
}

impl Default for EnvironmentType {
    fn default() -> (r: Self)
        ensures
            r == EnvironmentType::Vm,
    {
        EnvironmentType::Vm
    }
}

/// What a new environment is created from.
#[derive(Debug)]
pub struct EnvironmentConfig {
    pub instance_id: String,
    pub env_type: EnvironmentType,
    pub base_image: String,
    pub boot_iso: Option<String>,
    pub cpu_cores: u32,
    pub memory_mb: u64,
    pub disk_gb: Option<u64>,
    pub network_policy: String,
    pub security_policy: String,
    pub custom_script: Option<String>,
    pub template_name: Option<String>,
    pub labels: Option<StringMap<String>>,
}

/// The runtime state of an environment.
#[derive(Debug, Clone, PartialEq, Eq)]
pub enum EnvironmentState {
    Provisioning,
    Booting,
    Running,
    Suspended,
    Terminated,
    Stopped,
    Error(String),
    Unknown,
}

impl Default for EnvironmentState {
    fn default() -> (r: Self)
        ensures
            r == EnvironmentState::Unknown,
    {
        EnvironmentState::Unknown
    }
}

/// The status of an environment.
#[derive(Debug, Clone)]
pub struct EnvironmentStatus {
    pub instance_id: String,
    pub name: String,
    pub env_type: EnvironmentType,
    pub state: EnvironmentState,
    pub ip_address: Option<String>,
    pub ssh_port: Option<u16>,
    pub created_at: String,
    pub updated_at: String,
    pub base_image: Option<String>,
    pub cpu_cores_used: Option<u32>,
    pub memory_max_kb: Option<u64>,
    pub memory_used_kb: Option<u64>,
    pub error_details: Option<String>,
}

impl EnvironmentStatus {
    /// A VM status with every other field empty.
    pub open spec fn spec_blank(self) -> bool {
        &&& self.instance_id@.len() == 0 && self.name@.len() == 0
        &&& self.env_type == EnvironmentType::Vm
        &&& self.state == EnvironmentState::Unknown
        &&& self.ip_address is None && self.ssh_port is None
        &&& self.created_at@.len() == 0 && self.updated_at@.len() == 0
        &&& self.base_image is None && self.cpu_cores_used is None
        &&& self.memory_max_kb is None && self.memory_used_kb is None
        &&& self.error_details is None
    }
}

impl Default for EnvironmentStatus {
    fn default() -> (r: Self)
        ensures
            r.spec_blank(),
    {
        EnvironmentStatus {
            instance_id: String::new(),
            name: String::new(),
            env_type: EnvironmentType::Vm,
            state: EnvironmentState::Unknown,
            ip_address: None,
            ssh_port: None,
            created_at: String::new(),
            updated_at: String::new(),
            base_image: None,
            cpu_cores_used: None,
            memory_max_kb: None,
            memory_used_kb: None,
            error_details: None,
        }
    }
}

/// The environment state for a libvirt domain state number: no state is unknown,
/// blocked and paused are suspended, shutting down is terminated, shut off is stopped,
/// crashed is an error "Crashed", and an unknown number is unknown.
pub open spec fn env_state_for(code: u32, s: EnvironmentState) -> bool {
    if code == DOMAIN_NOSTATE {
        s == EnvironmentState::Unknown
    } else if code == DOMAIN_RUNNING {
        s == EnvironmentState::Running
    } else if code == DOMAIN_BLOCKED || code == DOMAIN_PAUSED {
        s == EnvironmentState::Suspended
    } else if code == DOMAIN_SHUTDOWN {
        s == EnvironmentState::Terminated
    } else if code == DOMAIN_SHUTOFF {
        s == EnvironmentState::Stopped
    } else if code == DOMAIN_CRASHED {
        s matches EnvironmentState::Error(m) && m@ == "Crashed"@
    } else {
        s == EnvironmentState::Unknown
    }
}

/// Each libvirt domain state number names its environment state: 1 is running, 2
/// (blocked) and 3 (paused) are suspended, 4 (shutting down) is terminated, 5 (shut off)
/// is stopped, 6 is a crash, and 0 or any other number is unknown.
pub proof fn domain_states_named(code: u32, s: EnvironmentState)
    requires
        env_state_for(code, s),
    ensures
        code == 1 ==> s == EnvironmentState::Running,
        code == 2 || code == 3 ==> s == EnvironmentState::Suspended,
        code == 4 ==> s == EnvironmentState::Terminated,
        code == 5 ==> s == EnvironmentState::Stopped,
        code == 6 ==> s is Error,
        code == 0 || code > 6 ==> s == EnvironmentState::Unknown,
{
}

/// An environment and a VM listed from the same domain state number are in the same state.
pub proof fn environment_and_vm_states_agree(code: u32, e: EnvironmentState, v: VmState)
    requires
        env_state_for(code, e),
        vm_state_for(code, v),
    ensures
        e == EnvironmentState::Running <==> v == VmState::Running,
        e == EnvironmentState::Suspended <==> v == VmState::Suspended,
        e == EnvironmentState::Terminated <==> v == VmState::Terminated,
        e == EnvironmentState::Stopped <==> v == VmState::Stopped,
        e == EnvironmentState::Unknown <==> v == VmState::Unknown,
        e is Error <==> v is Error,
{
}

/// The status of a listed domain from what libvirt gave: its UUID (or why it could not
/// give it), name, state number, maximum and current memory in KiB, and vCPU count.
pub open spec fn env_status_of_domain(s: EnvironmentStatus, uuid: Option<String>, name: String, state: u32, max_mem: u64, memory: u64, nr_virt_cpu: u32) -> bool {
    &&& s.instance_id@ == (match uuid {
        Some(u) => u@,
        None => "N/A-UUID"@,
    })
    &&& s.name == name
    &&& s.env_type == EnvironmentType::Vm
    &&& env_state_for(state, s.state)
    &&& s.memory_max_kb == Some(max_mem)
    &&& s.memory_used_kb == Some(memory)
    &&& s.cpu_cores_used == Some(nr_virt_cpu)
    &&& s.ip_address is None && s.ssh_port is None
    &&& s.created_at@.len() == 0 && s.updated_at@.len() == 0
    &&& s.base_image is None && s.error_details is None
}

/// What libvirt is asked to create for a VM request: the domain named after the request's
/// instance, its disk under the images directory, and its domain XML.
pub struct VmCreation {
    pub name: String,
    pub disk_path: String,
    pub xml: String,
}

/// Manages environments through libvirt; the connection itself lives with the caller,
/// and this records whether it was made.
pub struct EnvironmentManager {
    pub libvirt_connected: bool,
}

impl EnvironmentManager {
    /// Whether libvirt could be reached.
    pub fn is_libvirt_connected(&self) -> (r: bool)
        ensures
            r == self.libvirt_connected,
    {
        self.libvirt_connected
    }

    /// The environment state for a libvirt domain state number (see `env_state_for`).
    pub fn map_libvirt_state_to_hydra(&self, state_code: u32) -> (r: EnvironmentState)
        ensures
            env_state_for(state_code, r),
    {
        if state_code == DOMAIN_NOSTATE {
            EnvironmentState::Unknown
        } else if state_code == DOMAIN_RUNNING {
            EnvironmentState::Running
        } else if state_code == DOMAIN_BLOCKED || state_code == DOMAIN_PAUSED {
            EnvironmentState::Suspended
        } else if state_code == DOMAIN_SHUTDOWN {
            EnvironmentState::Terminated
        } else if state_code == DOMAIN_SHUTOFF {
            EnvironmentState::Stopped
        } else if state_code == DOMAIN_CRASHED {
            EnvironmentState::Error("Crashed".to_string())
        } else {
            EnvironmentState::Unknown
        }
    }

    /// The domain XML of a new VM (see `domain_xml`).
    pub fn create_vm_xml(&self, name: &str, vcpu: u32, memory_mb: u64, disk_path: &str, boot_iso: Option<&str>) -> (r: String)
        requires
            memory_mb * 1024 <= u64::MAX,
        ensures
            r@ == domain_xml(name@, (memory_mb * 1024) as nat, vcpu as nat, disk_path@, opt_view(boot_iso)),
    {
        vm_domain_xml(name, vcpu, memory_mb, disk_path, boot_iso)
    }

    /// What libvirt is asked to create for a VM request: the domain named after its
    /// instance, with its disk at `/var/lib/libvirt/images/<name>.qcow2`, its CPUs, memory
    /// and boot ISO.
    pub fn vm_creation(&self, env_config: &EnvironmentConfig) -> (r: VmCreation)
        requires
            env_config.memory_mb * 1024 <= u64::MAX,
        ensures
            r.name@ == env_config.instance_id@,
            r.disk_path@ == IMAGES_DIR@ + env_config.instance_id@ + ".qcow2"@,
            r.xml@ == domain_xml(
                env_config.instance_id@,
                (env_config.memory_mb * 1024) as nat,
                env_config.cpu_cores as nat,
                r.disk_path@,
                match env_config.boot_iso {
                    Some(p) => Some(p@),
                    None => None,
                },
            ),
    {
        let vm_name = env_config.instance_id.clone();
        let disk_path = vm_disk_path(vm_name.as_str());
        let iso = match &env_config.boot_iso {
            Some(p) => Some(p.as_str()),
            None => None,
        };
        let xml = self.create_vm_xml(vm_name.as_str(), env_config.cpu_cores, env_config.memory_mb, disk_path.as_str(), iso);
        VmCreation { name: vm_name, disk_path, xml }
    }

    /// The status of a listed domain from what libvirt gave (see `env_status_of_domain`).
    pub fn env_status_from_domain(&self, uuid: Option<String>, name: String, state: u32, max_mem: u64, memory: u64, nr_virt_cpu: u32) -> (r: EnvironmentStatus)
        ensures
            env_status_of_domain(r, uuid, name, state, max_mem, memory, nr_virt_cpu),
    {
        let instance_id = match uuid {
            Some(u) => u,
            None => "N/A-UUID".to_string(),
        };
        EnvironmentStatus {
            instance_id,
            name,
            env_type: EnvironmentType::Vm,
            state: self.map_libvirt_state_to_hydra(state),
            ip_address: None,
            ssh_port: None,
            created_at: String::new(),
            updated_at: String::new(),
            base_image: None,
            cpu_cores_used: Some(nr_virt_cpu),
            memory_max_kb: Some(max_mem),
            memory_used_kb: Some(memory),
            error_details: None,
        }
    }

    /// The status of a VM just created, from the UUID and name libvirt gave back.
    pub fn new_env_status(&self, uuid: String, name: String) -> (r: EnvironmentStatus)
        ensures
            r.instance_id == uuid && r.name == name,
            r.env_type == EnvironmentType::Vm && r.state == EnvironmentState::Provisioning,
            r.ip_address is None && r.ssh_port is None,
            r.created_at@.len() == 0 && r.updated_at@.len() == 0,
            r.base_image is None && r.cpu_cores_used is None,
            r.memory_max_kb is None && r.memory_used_kb is None && r.error_details is None,
    {
        EnvironmentStatus {
            instance_id: uuid,
            name,
            env_type: EnvironmentType::Vm,
            state: EnvironmentState::Provisioning,
            ip_address: None,
            ssh_port: None,
            created_at: String::new(),
            updated_at: String::new(),
            base_image: None,
            cpu_cores_used: None,
            memory_max_kb: None,
            memory_used_kb: None,
            error_details: None,
        }
    }

    /// The two sample VMs shown when no hypervisor data is wanted.
    pub fn list_vms_placeholder(&self) -> (r: Vec<EnvironmentStatus>)
        ensures
            r@.len() == 2,
            r@[0].instance_id@ == "vm-uuid-placeholder-001"@,
            r@[0].name@ == "dev-vm-arch-placeholder"@,
            r@[0].env_type == EnvironmentType::Vm,
            r@[0].state == EnvironmentState::Running,
            r@[0].ip_address matches Some(ip) && ip@ == "192.168.122.101"@,
            r@[0].memory_max_kb == Some(4194304u64),
            r@[0].memory_used_kb == Some(1048576u64),
            r@[0].cpu_cores_used == Some(2u32),
            r@[0].ssh_port is None && r@[0].base_image is None && r@[0].error_details is None,
            r@[0].created_at@.len() == 0 && r@[0].updated_at@.len() == 0,
            r@[1].instance_id@ == "vm-uuid-placeholder-002"@,
            r@[1].name@ == "test-vm-ubuntu-placeholder"@,
            r@[1].env_type == EnvironmentType::Vm,
            r@[1].state == EnvironmentState::Stopped,
            r@[1].ip_address is None,
            r@[1].memory_max_kb == Some(2097152u64),
            r@[1].memory_used_kb is None,
            r@[1].cpu_cores_used == Some(1u32),
            r@[1].ssh_port is None && r@[1].base_image is None && r@[1].error_details is None,
            r@[1].created_at@.len() == 0 && r@[1].updated_at@.len() == 0,
    {
        let mut v: Vec<EnvironmentStatus> = Vec::new();
        v.push(EnvironmentStatus {
            instance_id: "vm-uuid-placeholder-001".to_string(),
            name: "dev-vm-arch-placeholder".to_string(),
            env_type: EnvironmentType::Vm,
            state: EnvironmentState::Running,
            ip_address: Some("192.168.122.101".to_string()),
            ssh_port: None,
            created_at: String::new(),
            updated_at: String::new(),
            base_image: None,
            cpu_cores_used: Some(2),
            memory_max_kb: Some(4 * 1024 * 1024),
            memory_used_kb: Some(1 * 1024 * 1024),
            error_details: None,
        });
        v.push(EnvironmentStatus {
            instance_id: "vm-uuid-placeholder-002".to_string(),
            name: "test-vm-ubuntu-placeholder".to_string(),
            env_type: EnvironmentType::Vm,
            state: EnvironmentState::Stopped,
            ip_address: None,
            ssh_port: None,
            created_at: String::new(),
            updated_at: String::new(),
            base_image: None,
            cpu_cores_used: Some(1),
            memory_max_kb: Some(2 * 1024 * 1024),
            memory_used_kb: None,
            error_details: None,
        });
        v
    }
}

} // verus!
