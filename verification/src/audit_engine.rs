// The audit ledger: the kinds of events it records, their risk levels, and where the
// ledger file lies under the log directory. Creating the directory and writing the file
// is the runtime's part.
use vstd::prelude::*;
use crate::text::{join_path, push_path};

verus! {

broadcast use vstd::string::group_string_axioms;

/// The kinds of auditable events and their particulars.
#[derive(Debug, Clone)]
pub enum AuditEventType {
    SystemStart,
    SystemShutdown,
    ConfigLoaded,
    PolicyLoaded,
    InstanceCreated { instance_id: String, instance_type: String },
    InstanceDeleted { instance_id: String },
    InstanceSnapshot { instance_id: String, snapshot_id: String },
    ModelAttached { instance_id: String, model_id: String },
    ModelDetached { instance_id: String, model_id: String },
    ResourceAllocation { instance_id: String, resource: String, value: String, success: bool },
    SessionStart { session_id: String },
    SessionEnd { session_id: String },
    TerminalSessionRecorded { session_id: String, recording_path: String, format: String },
    McpMessageInbound { source: String, dest: String, message_type: String, success: bool, error: Option<String> },
    McpMessageOutbound { source: String, dest: String, message_type: String, success: bool, error: Option<String> },
    PolicyViolation { rule_id: String, agent_id: Option<String>, action: String, resource: Option<String> },
    PolicyDecision { agent_id: Option<String>, action: String, resource: Option<String>, allowed: bool, reason: Option<String> },
    RoleOverrideUsed { agent_id: String, role: String, original_role: String },
    SshSessionEstablished { session_id: String, agent_id: String, source_ip: Option<String> },
    SshSessionTerminated { session_id: String, agent_id: String },
    CommandExecuted { session_id: String, agent_id: Option<String>, command: String, exit_code: Option<i32>, output_summary: Option<String> },
    FileSystemOperation { session_id: String, agent_id: Option<String>, operation: String, path: String, success: bool },
    NetworkConnection { session_id: String, agent_id: Option<String>, destination: String, protocol: String, allowed: bool },
    ProcessCreated { session_id: String, agent_id: Option<String>, process_name: String, pid: u32 },
    AuthFailure { user_or_agent_id: String, reason: String },
    ResourceLimitViolation { instance_id: String, resource: String, limit: String, actual: String },
    AnomalyDetected { description: String, severity: RiskLevel },
    KeyOperation { operation: String, key_id: Option<String>, success: bool },
    CliCommandExecuted { command: String, args: Vec<String>, success: bool },
    GenericMessage { message: String, level: RiskLevel },
}

/// How risky an event is.
#[derive(Clone, Copy, Debug, PartialEq, Eq, Structural)]
pub enum RiskLevel {
    Low,
    Medium,
    High,
    Critical,
    Info,
}

/// Whether `r` is what expanding a leading tilde of `input` can give: the input itself
/// unless it is `~` or starts with `~/`; for those, the rest after the tilde behind some
/// home directory (or the input unchanged, where no home directory is known).
pub open spec fn tilde_expansion_of(input: Seq<char>, r: Seq<char>) -> bool {
    if input.len() > 0 && input[0] == '~' && (input.len() == 1 || input[1] == '/') {
        r == input || exists|home: Seq<char>| r == home + input.drop_first()
    } else {
        r == input
    }
}

/// `shellexpand::tilde`: a leading `~` (alone or before `/`) is replaced by the home
/// directory that the `dirs` crate finds; other inputs come back unchanged. Which home
/// directory that is depends on the environment and is left open.
#[verifier::external_body]
fn expand_tilde(input: &str) -> (r: String)
    ensures
        tilde_expansion_of(input@, r@),
{
    shellexpand::tilde(input).into_owned()
}

/// The audit engine: where its ledger lies.
#[derive(Debug, Clone)]
pub struct AuditEngine {
    pub ledger_path: String,
}

impl AuditEngine {
    /// The directory of the ledger under an expanded log directory: its "audit" directory.
    pub fn ledger_dir_in(expanded_log_dir: &str) -> (r: String)
        ensures
            r@ == join_path(expanded_log_dir@, "audit"@),
    {
        push_path(expanded_log_dir, "audit")
    }

    /// The directory of the ledger under the configured log directory, its leading tilde
    /// expanded.
    pub fn ledger_dir(log_dir: &str) -> (r: String)
        ensures
            exists|e: Seq<char>| tilde_expansion_of(log_dir@, e) && r@ == join_path(e, "audit"@),
    {
        let expanded = expand_tilde(log_dir);
        let r = AuditEngine::ledger_dir_in(expanded.as_str());
        assert(tilde_expansion_of(log_dir@, expanded@) && r@ == join_path(expanded@, "audit"@));
        r
    }

    /// The ledger file in its directory: "audit_ledger.jsonl".
    pub fn ledger_file(dir: &str) -> (r: String)
        ensures
            r@ == join_path(dir@, "audit_ledger.jsonl"@),
    {
        push_path(dir, "audit_ledger.jsonl")
    }

    /// The engine that writes to a ledger file.
    pub fn with_ledger(ledger_path: String) -> (r: AuditEngine)
        ensures
            r.ledger_path == ledger_path,
    {
        AuditEngine { ledger_path }
    }
}

} // verus!
