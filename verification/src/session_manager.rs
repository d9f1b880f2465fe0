// Sessions: an agent's workspace tied to one machine, and the manager that will hold them.
use vstd::prelude::*;

verus! {

/// An agent workspace tied to one machine.
#[derive(Debug, Clone)]
pub struct Session {
    pub session_id: String,
    pub environment_instance_id: String,
    pub agent_id: Option<String>,
    pub model_id: Option<String>,
    pub tmux_session_name: Option<String>,
    pub created_at: String,
    pub status: SessionStatus,
}

/// Where a session is in its life.
#[derive(Debug, Clone, PartialEq, Eq)]
pub enum SessionStatus {
    Pending,
    Active,
    AgentAttached,
    Inactive,
    Terminated,
    Error(String),
}

/// The manager of sessions; it holds none yet.
#[derive(Debug)]
pub struct SessionManager {}

impl SessionManager {
    /// A manager; making one cannot fail.
    pub fn new() -> (r: SessionManager) {
        SessionManager {}
    }
}

} // verus!
