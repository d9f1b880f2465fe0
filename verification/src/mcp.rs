// The Model Context Protocol's message metadata.
use vstd::prelude::*;

verus! {

/// The optional metadata block of a protocol message: a name for what is created, and
/// whether its session is recorded.
#[derive(Debug, Clone)]
pub struct McpMeta {
    pub name: Option<String>,
    pub record_session: Option<bool>,
}

} // verus!
