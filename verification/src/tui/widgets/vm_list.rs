// The machine list: each machine with its id and state on the left, the selected
// machine's particulars on the right.
use vstd::prelude::*;
use crate::tui::app::App;
use crate::libvirt_manager::{VmStatus, VmState};
use crate::text::{push_all, push_decimal, decimal, string_views, debug_quoted, quote_debug};

verus! {

broadcast use vstd::string::group_string_axioms;

/// The machine list.
pub struct VmListWidget;

/// A machine's state as it is printed for debugging.
pub open spec fn state_text(s: VmState) -> Seq<char> {
    match s {
        VmState::Provisioning => "Provisioning"@,
        VmState::Booting => "Booting"@,
        VmState::Running => "Running"@,
        VmState::Suspended => "Suspended"@,
        VmState::Terminated => "Terminated"@,
        VmState::Stopped => "Stopped"@,
        VmState::Error(m) => "Error("@ + debug_quoted(m@) + ")"@,
        VmState::Unknown => "Unknown"@,
    }
}

/// An optional number as it is printed for debugging: `Some(n)` or `None`.
pub open spec fn option_text(n: Option<u64>) -> Seq<char> {
    match n {
        Some(v) => "Some("@ + decimal(v as nat) + ")"@,
        None => "None"@,
    }
}

/// A machine's entry in the list: its name, its id in brackets, and its state.
pub open spec fn vm_label(vm: VmStatus) -> Seq<char> {
    vm.name@ + " ("@ + vm.instance_id@ + ") - "@ + state_text(vm.state)
}

/// The particulars of a machine, one per line: name, id, state, kind, processors, and
/// the largest and the used memory in KB.
pub open spec fn vm_details(vm: VmStatus) -> Seq<char> {
    "Name: "@ + vm.name@ + "\nID: "@ + vm.instance_id@ + "\nState: "@ + state_text(vm.state) + "\nType: Vm\nCPUs: "@
        + option_text(match vm.cpu_cores_used {
        Some(c) => Some(c as u64),
        None => None,
    }) + "\nMax Mem: "@ + option_text(vm.memory_max_kb) + " KB\nUsed Mem: "@ + option_text(vm.memory_used_kb) + " KB"@
}

/// What the details pane shows: a note without a selection, the selected machine's
/// particulars, or nothing when the selection is past the list.
pub open spec fn details_text(app: App) -> Option<Seq<char>> {
    match app.vm_list_state.selected {
        None => Some("No VM selected"@),
        Some(i) => if i < app.vms@.len() {
            Some(vm_details(app.vms@[i as int]))
        } else {
            None
        },
    }
}

fn push_state(s: &mut String, st: &VmState)
    ensures
        final(s)@ == old(s)@ + state_text(*st),
{
    match st {
        VmState::Provisioning => push_all(s, "Provisioning"),
        VmState::Booting => push_all(s, "Booting"),
        VmState::Running => push_all(s, "Running"),
        VmState::Suspended => push_all(s, "Suspended"),
        VmState::Terminated => push_all(s, "Terminated"),
        VmState::Stopped => push_all(s, "Stopped"),
        VmState::Error(m) => {
            push_all(s, "Error(");
            push_all(s, quote_debug(m.as_str()).as_str());
            push_all(s, ")");
        },
        VmState::Unknown => push_all(s, "Unknown"),
    }
}

fn push_option(s: &mut String, n: Option<u64>)
    ensures
        final(s)@ == old(s)@ + option_text(n),
{
    match n {
        Some(v) => {
            push_all(s, "Some(");
            push_decimal(s, v);
            push_all(s, ")");
        },
        None => push_all(s, "None"),
    }
}

impl VmListWidget {
    /// A machine's state as it is printed for debugging (see `state_text`).
    pub fn state_label(st: &VmState) -> (r: String)
        ensures
            r@ == state_text(*st),
    {
        let mut s = String::new();
        push_state(&mut s, st);
        s
    }

    /// The titles of the list pane and of the details pane.
    pub fn titles() -> (r: (String, String))
        ensures
            r.0@ == "VMs"@,
            r.1@ == "VM Details"@,
    {
        ("VMs".to_string(), "VM Details".to_string())
    }

    /// The entry of a machine in the list (see `vm_label`).
    pub fn label(vm: &VmStatus) -> (r: String)
        ensures
            r@ == vm_label(*vm),
    {
        let mut s = vm.name.clone();
        push_all(&mut s, " (");
        push_all(&mut s, vm.instance_id.as_str());
        push_all(&mut s, ") - ");
        push_state(&mut s, &vm.state);
        s
    }

    /// The entries of all machines, in order.
    pub fn item_labels(app: &App) -> (r: Vec<String>)
        ensures
            string_views(r@) == app.vms@.map_values(|vm: VmStatus| vm_label(vm)),
    {
        let mut out: Vec<String> = Vec::new();
        let mut i: usize = 0;
        while i < app.vms.len()
            invariant
                i <= app.vms@.len(),
                string_views(out@) == app.vms@.take(i as int).map_values(|vm: VmStatus| vm_label(vm)),
            decreases app.vms@.len() - i,
        {
            let ghost before = string_views(out@);
            out.push(VmListWidget::label(&app.vms[i]));
            proof {
                assert(string_views(out@) =~= before.push(vm_label(app.vms@[i as int])));
                assert(app.vms@.take(i + 1).map_values(|vm: VmStatus| vm_label(vm)) =~= app.vms@.take(i as int).map_values(
                    |vm: VmStatus| vm_label(vm),
                ).push(vm_label(app.vms@[i as int])));
            }
            i = i + 1;
        }
        assert(app.vms@.take(i as int) =~= app.vms@);
        out
    }

    /// The text of the details pane (see `details_text`).
    pub fn details(app: &App) -> (r: Option<String>)
        ensures
            match r {
                Some(t) => details_text(*app) == Some(t@),
                None => details_text(*app) is None,
            },
    {
        match app.vm_list_state.selected {
            None => Some("No VM selected".to_string()),
            Some(i) => {
                if i < app.vms.len() {
                    let vm = &app.vms[i];
                    let mut s = "Name: ".to_string();
                    push_all(&mut s, vm.name.as_str());
                    push_all(&mut s, "\nID: ");
                    push_all(&mut s, vm.instance_id.as_str());
                    push_all(&mut s, "\nState: ");
                    push_state(&mut s, &vm.state);
                    push_all(&mut s, "\nType: Vm\nCPUs: ");
                    push_option(&mut s, match vm.cpu_cores_used {
                        Some(c) => Some(c as u64),
                        None => None,
                    });
                    push_all(&mut s, "\nMax Mem: ");
                    push_option(&mut s, vm.memory_max_kb);
                    push_all(&mut s, " KB\nUsed Mem: ");
                    push_option(&mut s, vm.memory_used_kb);
                    push_all(&mut s, " KB");
                    Some(s)
                } else {
                    None
                }
            },
        }
    }
}

} // verus!
