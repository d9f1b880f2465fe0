// Virtual machines as the manager sees them: the request to create one, its state and
// status, and what the manager computes around the hypervisor's answers.
use vstd::prelude::*;
use crate::string_map::StringMap;
use crate::text::{decimal, push_all, push_decimal, str_eq, string_views, text_le_exec, text_lt, lemma_text_le_total, lemma_text_le_trans};

verus! {

broadcast use vstd::string::group_string_axioms;

/// What a new VM is created from.
#[derive(Debug)]
pub struct VmConfig {
    pub instance_id: String,
    pub base_image: String,
    pub boot_iso: Option<String>,
    pub cpu_cores: u32,
    pub memory_mb: u64,
    pub disk_gb: Option<u64>,
    pub network_policy: String,
    pub security_policy: String,
    pub custom_script: Option<String>,
    pub template_name: Option<String>,
    pub labels: Option<StringMap<String>>,
}

/// The runtime state of a VM.
#[derive(Debug, Clone, PartialEq, Eq)]
pub enum VmState {
    Provisioning,
    Booting,
    Running,
    Suspended,
    Terminated,
    Stopped,
    Error(String),
    Unknown,
}

impl Default for VmState {
    fn default() -> (r: Self)
        ensures
            r == VmState::Unknown,
    {
        VmState::Unknown
    }
}

/// The status of a VM.
#[derive(Debug, Clone)]
pub struct VmStatus {
    pub instance_id: String,
    pub name: String,
    pub state: VmState,
    pub ip_address: Option<String>,
    pub ssh_port: Option<u16>,
    pub created_at: String,
    pub updated_at: String,
    pub base_image: Option<String>,
    pub cpu_cores_used: Option<u32>,
    pub memory_max_kb: Option<u64>,
    pub memory_used_kb: Option<u64>,
    pub error_details: Option<String>,
}

impl VmStatus {
    /// A status with every field empty, except those the caller fills.
    pub open spec fn spec_blank(self) -> bool {
        &&& self.instance_id@ == Seq::<char>::empty()
        &&& self.name@ == Seq::<char>::empty()
        &&& self.state == VmState::Unknown
        &&& self.ip_address is None
        &&& self.ssh_port is None
        &&& self.created_at@ == Seq::<char>::empty()
        &&& self.updated_at@ == Seq::<char>::empty()
        &&& self.base_image is None
        &&& self.cpu_cores_used is None
        &&& self.memory_max_kb is None
        &&& self.memory_used_kb is None
        &&& self.error_details is None
    }
}

impl Default for VmStatus {
    fn default() -> (r: Self)
        ensures
            r.spec_blank(),
    {
        VmStatus {
            instance_id: String::new(),
            name: String::new(),
            state: VmState::Unknown,
            ip_address: None,
            ssh_port: None,
            created_at: String::new(),
            updated_at: String::new(),
            base_image: None,
            cpu_cores_used: None,
            memory_max_kb: None,
            memory_used_kb: None,
            error_details: None,
        }
    }
}

/// The part of the domain XML that opens the domain and its name.
pub const DOMAIN_XML_HEAD: &'static str = "<domain type='kvm'>\n                  <name>";

/// The part of the domain XML that closes the name and opens the memory size in KiB.
pub const DOMAIN_XML_AFTER_NAME: &'static str = "</name>\n                  <memory unit='KiB'>";

/// The part of the domain XML that closes the memory size and opens the vCPU count.
pub const DOMAIN_XML_AFTER_MEMORY: &'static str = "</memory>\n                  <vcpu>";

/// The part of the domain XML that closes the vCPU count, gives the OS type and the hard-disk boot entry.
pub const DOMAIN_XML_AFTER_VCPU: &'static str = "</vcpu>\n                  <os>\n                    <type arch='x86_64' machine='q35'>hvm</type>\n                    <boot dev='hd'/>\n                    ";

/// The part of the domain XML that closes the OS section and opens the main disk's source file.
pub const DOMAIN_XML_AFTER_BOOT: &'static str = "\n                  </os>\n                  <devices>\n                    <disk type='file' device='disk'>\n                      <driver name='qemu' type='qcow2'/>\n                      <source file='";

/// The part of the domain XML that closes the main disk.
pub const DOMAIN_XML_AFTER_DISK: &'static str = "'/>\n                      <target dev='vda' bus='virtio'/>\n                    </disk>\n                    ";

/// The part of the domain XML that gives the network interface, the VNC display and the video device, and closes the domain.
pub const DOMAIN_XML_TAIL: &'static str = "\n                    <interface type='network'>\n                      <source network='default'/>\n                      <model type='virtio'/>\n                    </interface>\n                    <graphics type='vnc' port='-1' autoport='yes' listen='127.0.0.1'>\n                      <listen type='address' address='127.0.0.1'/>\n                    </graphics>\n                    <video>\n                        <model type=\"virtio\" heads=\"1\" primary=\"yes\"/>\n                    </video>\n                  </devices>\n                </domain>";

/// The part of the CD-ROM disk XML that opens it and its source file.
pub const ISO_DISK_HEAD: &'static str = "<disk type='file' device='cdrom'>\n                      <driver name='qemu' type='raw'/>\n                      <target dev='hda' bus='sata'/>\n                      <source file='";

/// The part of the CD-ROM disk XML that closes its source file and the disk.
pub const ISO_DISK_TAIL: &'static str = "'/>\n                      <readonly/>\n                   </disk>";

/// The boot entry that makes the CD-ROM boot first.
pub const CDROM_BOOT: &'static str = "<boot dev='cdrom'/>";

/// Where a VM's disk image lives: under the libvirt images directory, named after the VM.
pub const IMAGES_DIR: &'static str = "/var/lib/libvirt/images/";

/// libvirt's domain states (`virDomainState`), by their numbers.
pub const DOMAIN_NOSTATE: u32 = 0;
pub const DOMAIN_RUNNING: u32 = 1;
pub const DOMAIN_BLOCKED: u32 = 2;
pub const DOMAIN_PAUSED: u32 = 3;
pub const DOMAIN_SHUTDOWN: u32 = 4;
pub const DOMAIN_SHUTOFF: u32 = 5;
pub const DOMAIN_CRASHED: u32 = 6;

/// The views of an optional text.
pub open spec fn opt_view(o: Option<&str>) -> Option<Seq<char>> {
    match o {
        Some(s) => Some(s@),
        None => None,
    }
}

/// The XML of a CD-ROM disk holding the ISO image at `iso`.
pub open spec fn iso_disk_xml(iso: Seq<char>) -> Seq<char> {
    ISO_DISK_HEAD@ + iso + ISO_DISK_TAIL@
}

/// The libvirt domain XML of a KVM guest: `name`, `memory_kb` KiB of memory, `vcpu`
/// virtual CPUs, a qcow2 disk at `disk_path`, and, with an ISO image, a CD-ROM that boots
/// first.
pub open spec fn domain_xml(name: Seq<char>, memory_kb: nat, vcpu: nat, disk_path: Seq<char>, boot_iso: Option<Seq<char>>) -> Seq<char> {
    DOMAIN_XML_HEAD@ + name + DOMAIN_XML_AFTER_NAME@ + decimal(memory_kb) + DOMAIN_XML_AFTER_MEMORY@
        + decimal(vcpu) + DOMAIN_XML_AFTER_VCPU@ + (if boot_iso is Some { CDROM_BOOT@ } else { Seq::<char>::empty() })
        + DOMAIN_XML_AFTER_BOOT@ + disk_path + DOMAIN_XML_AFTER_DISK@ + (match boot_iso {
        Some(iso) => iso_disk_xml(iso),
        None => Seq::<char>::empty(),
    }) + DOMAIN_XML_TAIL@
}

/// Builds the domain XML of a new VM (see `domain_xml`), its memory given in MiB.
pub fn vm_domain_xml(name: &str, vcpu: u32, memory_mb: u64, disk_path: &str, boot_iso: Option<&str>) -> (r: String)
    requires
        memory_mb * 1024 <= u64::MAX,
    ensures
        r@ == domain_xml(name@, (memory_mb * 1024) as nat, vcpu as nat, disk_path@, opt_view(boot_iso)),
{
    let memory_kb = memory_mb * 1024;
    let mut x = String::new();
    push_all(&mut x, DOMAIN_XML_HEAD);
    push_all(&mut x, name);
    push_all(&mut x, DOMAIN_XML_AFTER_NAME);
    push_decimal(&mut x, memory_kb);
    push_all(&mut x, DOMAIN_XML_AFTER_MEMORY);
    push_decimal(&mut x, vcpu as u64);
    push_all(&mut x, DOMAIN_XML_AFTER_VCPU);
    if boot_iso.is_some() {
        push_all(&mut x, CDROM_BOOT);
    }
    push_all(&mut x, DOMAIN_XML_AFTER_BOOT);
    push_all(&mut x, disk_path);
    push_all(&mut x, DOMAIN_XML_AFTER_DISK);
    match boot_iso {
        Some(iso) => {
            push_all(&mut x, ISO_DISK_HEAD);
            push_all(&mut x, iso);
            push_all(&mut x, ISO_DISK_TAIL);
        },
        None => {},
    }
    push_all(&mut x, DOMAIN_XML_TAIL);
    proof {
        let e = Seq::<char>::empty();
        let boot = if boot_iso is Some { CDROM_BOOT@ } else { e };
        let disk = match opt_view(boot_iso) {
            Some(iso) => iso_disk_xml(iso),
            None => e,
        };
        assert(x@ =~= domain_xml(name@, memory_kb as nat, vcpu as nat, disk_path@, opt_view(boot_iso)));
    }
    x
}

/// The path of a VM's disk image: `/var/lib/libvirt/images/<name>.qcow2`.
pub fn vm_disk_path(name: &str) -> (r: String)
    ensures
        r@ == IMAGES_DIR@ + name@ + ".qcow2"@,
{
    let mut p = IMAGES_DIR.to_string();
    push_all(&mut p, name);
    push_all(&mut p, ".qcow2");
    p
}

/// Whether `names` are in strictly increasing code-point order, so without repeats.
pub open spec fn strictly_sorted(names: Seq<Seq<char>>) -> bool {
    forall|i: int, j: int| 0 <= i < j < names.len() ==> #[trigger] text_lt(names[i], names[j])
}

/// The domain names to report, as sorting and deduplicating what libvirt listed gives
/// them: each listed name once, in increasing code-point (byte) order.
pub fn sorted_domain_names(names: Vec<String>) -> (r: Vec<String>)
    ensures
        strictly_sorted(string_views(r@)),
        string_views(r@).to_set() == string_views(names@).to_set(),
{
    let mut out: Vec<String> = Vec::new();
    let mut i: usize = 0;
    let n = names.len();
    let mut names = names;
    let ghost input = string_views(names@);
    while i < n
        invariant
            n == names@.len(),
            input == string_views(names@),
            i <= n,
            strictly_sorted(string_views(out@)),
            string_views(out@).to_set() == input.subrange(0, i as int).to_set(),
        decreases n - i,
    {
        let name = names[i].clone();
        insert_sorted(&mut out, name);
        proof {
            assert(input.subrange(0, i + 1) =~= input.subrange(0, i as int).push(input[i as int]));
            broadcast use vstd::seq_lib::group_seq_properties;
            assert(input.subrange(0, i as int).push(input[i as int]).to_set() =~= input.subrange(0, i as int).to_set().insert(input[i as int]));
        }
        i = i + 1;
    }
    proof {
        assert(input.subrange(0, n as int) =~= input);
    }
    out
}

fn insert_sorted(out: &mut Vec<String>, name: String)
    requires
        strictly_sorted(string_views(old(out)@)),
    ensures
        strictly_sorted(string_views(final(out)@)),
        string_views(final(out)@).to_set() == string_views(old(out)@).to_set().insert(name@),
{
    let ghost before = string_views(out@);
    let mut p: usize = 0;
    while p < out.len() && text_le_exec(out[p].as_str(), name.as_str()) && !str_eq(out[p].as_str(), name.as_str())
        invariant
            p <= out@.len(),
            before == string_views(out@),
            strictly_sorted(before),
            forall|q: int| 0 <= q < p ==> #[trigger] text_lt(before[q], name@),
        decreases out@.len() - p,
    {
        p = p + 1;
    }
    if p < out.len() && str_eq(out[p].as_str(), name.as_str()) {
        proof {
            assert(before[p as int] == name@);
            assert(before.contains(name@));
            assert(before.to_set().insert(name@) =~= before.to_set());
        }
        return;
    }
    proof {
        if p < before.len() {
            lemma_text_le_total(before[p as int], name@);
            assert(text_lt(name@, before[p as int]));
        }
    }
    out.insert(p, name);
    proof {
        let after = string_views(out@);
        assert(after =~= before.insert(p as int, name@));
        assert forall|i: int, j: int| 0 <= i < j < after.len() implies #[trigger] text_lt(after[i], after[j]) by {
            if j < p {
                assert(after[i] == before[i] && after[j] == before[j]);
            } else if j == p {
                assert(after[i] == before[i]);
            } else if i == p {
                assert(after[j] == before[j - 1]);
                if j - 1 > p {
                    assert(text_lt(before[p as int], before[j - 1]));
                    lemma_text_le_trans(name@, before[p as int], before[j - 1]);
                    if name@ == before[j - 1] {
                        lemma_text_le_total(before[p as int], name@);
                    }
                }
            } else if i < p {
                assert(after[i] == before[i] && after[j] == before[j - 1]);
            } else {
                assert(after[i] == before[i - 1] && after[j] == before[j - 1]);
            }
        }
        broadcast use vstd::seq_lib::group_seq_properties;
        assert(after.to_set() =~= before.to_set().insert(name@)) by {
            assert forall|x: Seq<char>| after.to_set().contains(x) <==> before.to_set().insert(name@).contains(x) by {
                if after.contains(x) {
                    let k = choose|k: int| 0 <= k < after.len() && after[k] == x;
                    if k < p {
                        assert(before[k] == x);
                    } else if k > p {
                        assert(before[k - 1] == x);
                    }
                }
                if before.contains(x) {
                    let k = choose|k: int| 0 <= k < before.len() && before[k] == x;
                    if k < p {
                        assert(after[k] == x);
                    } else {
                        assert(after[k + 1] == x);
                    }
                }
                if x == name@ {
                    assert(after[p as int] == x);
                }
            }
        }
    }
}

/// The VM state for a libvirt domain state number: no state is unknown, blocked and
/// paused are suspended, shutting down is terminated, shut off is stopped, crashed is an
/// error "Crashed", and an unknown number is unknown.
pub open spec fn vm_state_for(code: u32, s: VmState) -> bool {
    if code == DOMAIN_NOSTATE {
        s == VmState::Unknown
    } else if code == DOMAIN_RUNNING {
        s == VmState::Running
    } else if code == DOMAIN_BLOCKED || code == DOMAIN_PAUSED {
        s == VmState::Suspended
    } else if code == DOMAIN_SHUTDOWN {
        s == VmState::Terminated
    } else if code == DOMAIN_SHUTOFF {
        s == VmState::Stopped
    } else if code == DOMAIN_CRASHED {
        s matches VmState::Error(m) && m@ == "Crashed"@
    } else {
        s == VmState::Unknown
    }
}

/// Each libvirt domain state number names its VM state: 1 is running, 2 (blocked) and 3
/// (paused) are suspended, 4 (shutting down) is terminated, 5 (shut off) is stopped, 6 is
/// a crash, and 0 or any other number is unknown.
pub proof fn domain_states_named(code: u32, s: VmState)
    requires
        vm_state_for(code, s),
    ensures
        code == 1 ==> s == VmState::Running,
        code == 2 || code == 3 ==> s == VmState::Suspended,
        code == 4 ==> s == VmState::Terminated,
        code == 5 ==> s == VmState::Stopped,
        code == 6 ==> s is Error,
        code == 0 || code > 6 ==> s == VmState::Unknown,
{
}

/// The fields of a domain's status that libvirt gives: its UUID (or why it could not give
/// it), name, state number, maximum and current memory in KiB, and virtual CPU count.
pub open spec fn status_of_domain(s: VmStatus, uuid: Option<String>, name: String, state: u32, max_mem: u64, memory: u64, nr_virt_cpu: u32) -> bool {
    &&& s.instance_id@ == (match uuid {
        Some(u) => u@,
        None => "N/A-UUID"@,
    })
    &&& s.name == name
    &&& vm_state_for(state, s.state)
    &&& s.memory_max_kb == Some(max_mem)
    &&& s.memory_used_kb == Some(memory)
    &&& s.cpu_cores_used == Some(nr_virt_cpu)
    &&& s.ip_address is None && s.ssh_port is None
    &&& s.created_at@.len() == 0 && s.updated_at@.len() == 0
    &&& s.base_image is None && s.error_details is None
}

/// What a freshly created domain reports: its UUID and name, provisioning.
pub open spec fn status_of_new_domain(s: VmStatus, uuid: String, name: String) -> bool {
    &&& s.instance_id == uuid && s.name == name && s.state == VmState::Provisioning
    &&& s.ip_address is None && s.ssh_port is None
    &&& s.created_at@.len() == 0 && s.updated_at@.len() == 0
    &&& s.base_image is None && s.cpu_cores_used is None
    &&& s.memory_max_kb is None && s.memory_used_kb is None && s.error_details is None
}

/// Manages VMs through libvirt; the connection itself lives with the caller, and this
/// records whether it was made.
pub struct LibvirtManager {
    pub libvirt_connected: bool,
}

impl LibvirtManager {
    /// Whether libvirt could be reached.
    pub fn is_libvirt_connected(&self) -> (r: bool)
        ensures
            r == self.libvirt_connected,
    {
        self.libvirt_connected
    }

    /// The VM state for a libvirt domain state number (see `vm_state_for`).
    pub fn map_libvirt_state_to_vm_state(&self, state_code: u32) -> (r: VmState)
        ensures
            vm_state_for(state_code, r),
    {
        if state_code == DOMAIN_NOSTATE {
            VmState::Unknown
        } else if state_code == DOMAIN_RUNNING {
            VmState::Running
        } else if state_code == DOMAIN_BLOCKED || state_code == DOMAIN_PAUSED {
            VmState::Suspended
        } else if state_code == DOMAIN_SHUTDOWN {
            VmState::Terminated
        } else if state_code == DOMAIN_SHUTOFF {
            VmState::Stopped
        } else if state_code == DOMAIN_CRASHED {
            VmState::Error("Crashed".to_string())
        } else {
            VmState::Unknown
        }
    }

    /// The domain XML of a new VM (see `domain_xml`).
    pub fn create_vm_xml(&self, name: &str, vcpu: u32, memory_mb: u64, disk_path: &str, boot_iso: Option<&str>) -> (r: String)
        requires
            memory_mb * 1024 <= u64::MAX,
        ensures
            r@ == domain_xml(name@, (memory_mb * 1024) as nat, vcpu as nat, disk_path@, opt_view(boot_iso)),
    {
        vm_domain_xml(name, vcpu, memory_mb, disk_path, boot_iso)
    }

    /// The status of a listed domain from what libvirt gave (see `status_of_domain`).
    pub fn vm_status_from_domain(&self, uuid: Option<String>, name: String, state: u32, max_mem: u64, memory: u64, nr_virt_cpu: u32) -> (r: VmStatus)
        ensures
            status_of_domain(r, uuid, name, state, max_mem, memory, nr_virt_cpu),
    {
        let instance_id = match uuid {
            Some(u) => u,
            None => "N/A-UUID".to_string(),
        };
        VmStatus {
            instance_id,
            name,
            state: self.map_libvirt_state_to_vm_state(state),
            ip_address: None,
            ssh_port: None,
            created_at: String::new(),
            updated_at: String::new(),
            base_image: None,
            cpu_cores_used: Some(nr_virt_cpu),
            memory_max_kb: Some(max_mem),
            memory_used_kb: Some(memory),
            error_details: None,
        }
    }

    /// The status of a domain just created from a UUID and name libvirt gave back.
    pub fn new_vm_status(&self, uuid: String, name: String) -> (r: VmStatus)
        ensures
            status_of_new_domain(r, uuid, name),
    {
        VmStatus {
            instance_id: uuid,
            name,
            state: VmState::Provisioning,
            ip_address: None,
            ssh_port: None,
            created_at: String::new(),
            updated_at: String::new(),
            base_image: None,
            cpu_cores_used: None,
            memory_max_kb: None,
            memory_used_kb: None,
            error_details: None,
        }
    }

    /// The two sample VMs shown when no hypervisor data is wanted.
    pub fn list_vms_placeholder(&self) -> (r: Vec<VmStatus>)
        ensures
            r@.len() == 2,
            r@[0].instance_id@ == "vm-uuid-placeholder-001"@,
            r@[0].name@ == "dev-vm-arch-placeholder"@,
            r@[0].state == VmState::Running,
            r@[0].ip_address matches Some(ip) && ip@ == "192.168.122.101"@,
            r@[0].memory_max_kb == Some(4194304u64),
            r@[0].memory_used_kb == Some(1048576u64),
            r@[0].cpu_cores_used == Some(2u32),
            r@[0].ssh_port is None && r@[0].base_image is None && r@[0].error_details is None,
            r@[0].created_at@.len() == 0 && r@[0].updated_at@.len() == 0,
            r@[1].instance_id@ == "vm-uuid-placeholder-002"@,
            r@[1].name@ == "test-vm-ubuntu-placeholder"@,
            r@[1].state == VmState::Stopped,
            r@[1].ip_address is None,
            r@[1].memory_max_kb == Some(2097152u64),
            r@[1].memory_used_kb is None,
            r@[1].cpu_cores_used == Some(1u32),
            r@[1].ssh_port is None && r@[1].base_image is None && r@[1].error_details is None,
            r@[1].created_at@.len() == 0 && r@[1].updated_at@.len() == 0,
    {
        let mut v: Vec<VmStatus> = Vec::new();
        v.push(VmStatus {
            instance_id: "vm-uuid-placeholder-001".to_string(),
            name: "dev-vm-arch-placeholder".to_string(),
            state: VmState::Running,
            ip_address: Some("192.168.122.101".to_string()),
            ssh_port: None,
            created_at: String::new(),
            updated_at: String::new(),
            base_image: None,
            cpu_cores_used: Some(2),
            memory_max_kb: Some(4 * 1024 * 1024),
            memory_used_kb: Some(1 * 1024 * 1024),
            error_details: None,
        });
        v.push(VmStatus {
            instance_id: "vm-uuid-placeholder-002".to_string(),
            name: "test-vm-ubuntu-placeholder".to_string(),
            state: VmState::Stopped,
            ip_address: None,
            ssh_port: None,
            created_at: String::new(),
            updated_at: String::new(),
            base_image: None,
            cpu_cores_used: Some(1),
            memory_max_kb: Some(2 * 1024 * 1024),
            memory_used_kb: None,
            error_details: None,
        });
        v
    }
}

} // verus!
