// The command line: its options and subcommands, the table that lists machines, and the
// check of a policy against its JSON schema. Parsing the arguments, reading files and
// printing is the runtime's part.
use vstd::prelude::*;
use crate::libvirt_manager::VmStatus;
use crate::tui::widgets::{spaces, joined, join_with};
use crate::tui::widgets::vm_list::state_text;
use crate::text::{push_all, push_decimal, decimal, chars_of, owned, string_views, debug_quoted, quote_debug};

verus! {

broadcast use vstd::string::group_string_axioms;

/// The command line.
#[derive(Debug, Clone)]
pub struct Cli {
    pub config: Option<String>,
    pub headless: bool,
    pub log_level: LogLevelCli,
    pub command: Option<Commands>,
}

/// The subcommands.
#[derive(Debug, Clone)]
pub enum Commands {
    Policy(PolicyCommands),
    Agent(AgentCommands),
    Vm(VmCommands),
    Log(LogCommands),
}

/// The policy subcommands.
#[derive(Debug, Clone)]
pub enum PolicyCommands {
    Validate { path: Option<String> },
    Check { agent_id: String, vm_id: String, action: String },
}

/// The agent subcommands.
#[derive(Debug, Clone)]
pub enum AgentCommands {
    List,
    Info { agent_id: String },
}

/// The machine subcommands.
#[derive(Debug, Clone)]
pub enum VmCommands {
    List,
    Info { vm_id: String },
    Snapshot { vm_id: String, output: String },
}

/// The log subcommands.
#[derive(Debug, Clone)]
pub enum LogCommands {
    List { log_type: LogType, limit: usize },
    View { session_id: String },
    Export { session_id: String, format: LogFormat, output: String },
}

/// The log levels the command line takes.
#[derive(Clone, Copy, Debug, PartialEq, Eq, Structural)]
pub enum LogLevelCli {
    Trace,
    Debug,
    Info,
    Warn,
    Error,
}

/// The kinds of logs.
#[derive(Clone, Copy, Debug, PartialEq, Eq, Structural)]
pub enum LogType {
    Vm,
    Container,
    System,
    Mcp,
    Audit,
}

/// The export formats of logs.
#[derive(Clone, Copy, Debug, PartialEq, Eq, Structural)]
pub enum LogFormat {
    Cast,
    Jsonl,
    Ansi,
}

/// A level's name as the command line and the log filter write it.
pub open spec fn level_word(l: LogLevelCli) -> Seq<char> {
    match l {
        LogLevelCli::Trace => "trace"@,
        LogLevelCli::Debug => "debug"@,
        LogLevelCli::Info => "info"@,
        LogLevelCli::Warn => "warn"@,
        LogLevelCli::Error => "error"@,
    }
}

impl LogLevelCli {
    /// The level's name in lower case.
    pub fn as_str(&self) -> (r: String)
        ensures
            r@ == level_word(*self),
    {
        match self {
            LogLevelCli::Trace => "trace".to_string(),
            LogLevelCli::Debug => "debug".to_string(),
            LogLevelCli::Info => "info".to_string(),
            LogLevelCli::Warn => "warn".to_string(),
            LogLevelCli::Error => "error".to_string(),
        }
    }
}

/// A text left-aligned in a column `width` characters wide: spaces after it up to the
/// width; a longer text is kept whole.
pub open spec fn padded(s: Seq<char>, width: nat) -> Seq<char> {
    if s.len() < width {
        s + spaces((width - s.len()) as nat)
    } else {
        s
    }
}

/// A text left-aligned in a column (see `padded`).
pub fn pad_right(s: &str, width: usize) -> (r: String)
    ensures
        r@ == padded(s@, width as nat),
{
    let mut out = owned(s);
    let n = chars_of(s).len();
    let mut i = n;
    while i < width
        invariant
            n == s@.len(),
            n <= i <= width || (i == n && n >= width),
            out@ == s@ + spaces((i - n) as nat),
        decreases width - i,
    {
        crate::text::push_char(&mut out, ' ');
        i = i + 1;
        assert(out@ =~= s@ + spaces((i - n) as nat));
    }
    assert(n >= width ==> spaces(0) =~= Seq::<char>::empty());
    out
}

/// The heading of the machine table: id, name, state and processors, in columns of 38,
/// 25, 12 and 10 characters with a space between them.
pub open spec fn table_header() -> Seq<char> {
    padded("ID"@, 38) + " "@ + padded("NAME"@, 25) + " "@ + padded("STATE"@, 12) + " "@ + padded("CORES"@, 10)
}

/// A machine's row of the table: id and name in their columns, its state as printed for
/// debugging (which fills no column), and its processors or "N/A".
pub open spec fn table_row(vm: VmStatus) -> Seq<char> {
    padded(vm.instance_id@, 38) + " "@ + padded(vm.name@, 25) + " "@ + state_text(vm.state) + " "@ + padded(
        match vm.cpu_cores_used {
            Some(c) => decimal(c as nat),
            None => "N/A"@,
        },
        10,
    )
}

/// The heading of the machine table (see `table_header`).
pub fn vm_table_header() -> (r: String)
    ensures
        r@ == table_header(),
{
    let mut s = pad_right("ID", 38);
    push_all(&mut s, " ");
    push_all(&mut s, pad_right("NAME", 25).as_str());
    push_all(&mut s, " ");
    push_all(&mut s, pad_right("STATE", 12).as_str());
    push_all(&mut s, " ");
    push_all(&mut s, pad_right("CORES", 10).as_str());
    s
}

/// A machine's row of the table (see `table_row`).
pub fn vm_table_row(vm: &VmStatus) -> (r: String)
    ensures
        r@ == table_row(*vm),
{
    let mut s = pad_right(vm.instance_id.as_str(), 38);
    push_all(&mut s, " ");
    push_all(&mut s, pad_right(vm.name.as_str(), 25).as_str());
    push_all(&mut s, " ");
    push_all(&mut s, crate::tui::widgets::vm_list::VmListWidget::state_label(&vm.state).as_str());
    push_all(&mut s, " ");
    let cores = match vm.cpu_cores_used {
        Some(c) => {
            let mut t = String::new();
            push_decimal(&mut t, c as u64);
            t
        },
        None => "N/A".to_string(),
    };
    push_all(&mut s, pad_right(cores.as_str(), 10).as_str());
    s
}

/// Where the schema of policies is read from.
pub const POLICY_SCHEMA_PATH: &'static str = "technical_design/policy.schema.json";

/// How a policy file is named in messages.
pub fn policy_file_description(path: &str) -> (r: String)
    ensures
        r@ == "file '"@ + path@ + "'"@,
{
    let mut s = "file '".to_string();
    push_all(&mut s, path);
    push_all(&mut s, "'");
    s
}

/// The outcome of checking a policy, given the schema's complaints about it: none means
/// the policy is valid, and the message says so; otherwise the message lists each
/// complaint on a line of its own.
pub open spec fn report(description: Seq<char>, violations: Seq<Seq<char>>) -> Result<Seq<char>, Seq<char>> {
    if violations.len() == 0 {
        Ok("SUCCESS: Policy from "@ + description + " is valid against the JSON schema."@)
    } else {
        Err("ERROR: Policy from "@ + description + " is INVALID against the JSON schema:\n"@ + joined(
            violations.map_values(|v: Seq<char>| "  - "@ + v),
            "\n"@,
        ))
    }
}

/// The views of a result of texts.
pub open spec fn result_view(r: Result<String, String>) -> Result<Seq<char>, Seq<char>> {
    match r {
        Ok(s) => Ok(s@),
        Err(s) => Err(s@),
    }
}

/// The outcome of checking a policy (see `report`).
pub fn validation_report(description: &str, violations: &Vec<String>) -> (r: Result<String, String>)
    ensures
        result_view(r) == report(description@, string_views(violations@)),
{
    if violations.len() == 0 {
        let mut s = "SUCCESS: Policy from ".to_string();
        push_all(&mut s, description);
        push_all(&mut s, " is valid against the JSON schema.");
        Ok(s)
    } else {
        let mut items: Vec<String> = Vec::new();
        let mut i: usize = 0;
        while i < violations.len()
            invariant
                i <= violations@.len(),
                string_views(items@) == string_views(violations@).take(i as int).map_values(|v: Seq<char>| "  - "@ + v),
            decreases violations@.len() - i,
        {
            let mut item = "  - ".to_string();
            push_all(&mut item, violations[i].as_str());
            let ghost before = string_views(items@);
            items.push(item);
            proof {
                let vs = string_views(violations@);
                assert(string_views(items@) =~= before.push("  - "@ + vs[i as int]));
                assert(vs.take(i + 1).map_values(|v: Seq<char>| "  - "@ + v) =~= vs.take(i as int).map_values(
                    |v: Seq<char>| "  - "@ + v,
                ).push("  - "@ + vs[i as int]));
            }
            i = i + 1;
        }
        assert(string_views(violations@).take(i as int) =~= string_views(violations@));
        let mut s = "ERROR: Policy from ".to_string();
        push_all(&mut s, description);
        push_all(&mut s, " is INVALID against the JSON schema:\n");
        push_all(&mut s, join_with(&items, "\n").as_str());
        Err(s)
    }
}

/// What `toml::from_str::<toml::Value>` makes of a text: no message where it parses, the
/// parser's message where it does not.
pub uninterp spec fn toml_parse_failure(text: Seq<char>) -> Option<Seq<char>>;

/// `toml::from_str::<toml::Value>`, its error taken as its message.
#[verifier::external_body]
fn toml_failure(text: &str) -> (r: Option<String>)
    ensures
        option_view(r) == toml_parse_failure(text@),
{
    toml::from_str::<toml::Value>(text).err().map(|e| e.to_string())
}

/// What `serde_json::to_value` makes of the TOML value that a text parses to: no message
/// where the conversion succeeds, its message where it does not.
pub uninterp spec fn json_conversion_failure(text: Seq<char>) -> Option<Seq<char>>;

/// `serde_json::to_value` on the `toml::Value` that `toml::from_str` reads from the text
/// (which must parse), its error taken as its message.
#[verifier::external_body]
fn conversion_failure(text: &str) -> (r: Option<String>)
    requires
        toml_parse_failure(text@) is None,
    ensures
        option_view(r) == json_conversion_failure(text@),
{
    let value = toml::from_str::<toml::Value>(text).unwrap();
    serde_json::to_value(value).err().map(|e| e.to_string())
}

/// What `serde_json::from_str::<serde_json::Value>` makes of a text: no message where it
/// parses, the parser's message where it does not.
pub uninterp spec fn json_parse_failure(text: Seq<char>) -> Option<Seq<char>>;

/// `serde_json::from_str::<serde_json::Value>`, its error taken as its message.
#[verifier::external_body]
fn json_failure(text: &str) -> (r: Option<String>)
    ensures
        option_view(r) == json_parse_failure(text@),
{
    serde_json::from_str::<serde_json::Value>(text).err().map(|e| e.to_string())
}

/// What `jsonschema::JSONSchema::compile` makes of the JSON value that a schema's text
/// parses to: no message where it compiles, the compiler's message where it does not.
pub uninterp spec fn schema_compile_failure(schema_text: Seq<char>) -> Option<Seq<char>>;

/// `jsonschema::JSONSchema::compile` on the value that `serde_json::from_str` reads from
/// the schema's text (which must parse), its error taken as its message.
#[verifier::external_body]
fn compile_failure(schema_text: &str) -> (r: Option<String>)
    requires
        json_parse_failure(schema_text@) is None,
    ensures
        option_view(r) == schema_compile_failure(schema_text@),
{
    let schema = serde_json::from_str::<serde_json::Value>(schema_text).unwrap();
    jsonschema::JSONSchema::compile(&schema).err().map(|e| e.to_string())
}

/// The messages, in the order `jsonschema` reports them, of the violations of the schema
/// (given by its text) by the policy (given by its TOML text); none where it is valid. The
/// crate is built without its features that fetch schemas from files or the network, so
/// nothing but the two texts decides them.
pub uninterp spec fn schema_violation_messages(schema_text: Seq<char>, policy_text: Seq<char>) -> Seq<Seq<char>>;

/// `jsonschema::JSONSchema::validate`: the schema compiled from its JSON text, the policy
/// read from its TOML text and converted to JSON with `serde_json::to_value` (all of which
/// must succeed), and each violation taken as its message.
#[verifier::external_body]
fn violations_of(schema_text: &str, policy_text: &str) -> (r: Vec<String>)
    requires
        json_parse_failure(schema_text@) is None,
        schema_compile_failure(schema_text@) is None,
        toml_parse_failure(policy_text@) is None,
        json_conversion_failure(policy_text@) is None,
    ensures
        string_views(r@) == schema_violation_messages(schema_text@, policy_text@),
{
    let schema = serde_json::from_str::<serde_json::Value>(schema_text).unwrap();
    let compiled = jsonschema::JSONSchema::compile(&schema).unwrap();
    let policy = serde_json::to_value(toml::from_str::<toml::Value>(policy_text).unwrap()).unwrap();
    let messages = match compiled.validate(&policy) {
        Ok(()) => Vec::new(),
        Err(errors) => errors.map(|e| e.to_string()).collect(),
    };
    messages
}

/// The views of an optional text.
pub open spec fn option_view(o: Option<String>) -> Option<Seq<char>> {
    match o {
        Some(s) => Some(s@),
        None => None,
    }
}

/// The message for a policy file that does not parse as TOML: the file's path as printed
/// for debugging, and the parser's message.
pub open spec fn toml_failure_message(path: Seq<char>, m: Seq<char>) -> Seq<char> {
    "Failed to parse TOML from policy file "@ + debug_quoted(path) + ": "@ + m
}

/// The message for a schema that does not parse as JSON: the schema's path as printed for
/// debugging, and the parser's message.
pub open spec fn schema_failure_message(m: Seq<char>) -> Seq<char> {
    "Failed to parse policy schema JSON from "@ + debug_quoted(POLICY_SCHEMA_PATH@) + ": "@ + m
}

/// The message for a schema that does not compile: the compiler's message after
/// "Failed to compile policy JSON schema: ".
pub open spec fn compile_failure_message(m: Seq<char>) -> Seq<char> {
    "Failed to compile policy JSON schema: "@ + m
}

/// The outcome of checking the policy text `policy` (read from `path`, described as
/// `description`) against the schema text `schema`, from the outcomes of the parsers, the
/// conversion, the compiler and the validator, each checked in that order.
pub open spec fn policy_check_outcome(
    path: Seq<char>,
    policy: Seq<char>,
    description: Seq<char>,
    schema: Seq<char>,
) -> Result<Seq<char>, Seq<char>> {
    match toml_parse_failure(policy) {
        Some(m) => Err(toml_failure_message(path, m)),
        None => match json_conversion_failure(policy) {
            Some(m) => Err(m),
            None => match json_parse_failure(schema) {
                Some(m) => Err(schema_failure_message(m)),
                None => match schema_compile_failure(schema) {
                    Some(m) => Err(compile_failure_message(m)),
                    None => report(description, schema_violation_messages(schema, policy)),
                },
            },
        },
    }
}

/// Checks the TOML text of a policy (read from `policy_path`) against the JSON text of the
/// schema: a policy that does not parse, or does not convert to JSON, gives that message; a
/// schema that does not parse or compile gives its message; otherwise the outcome is the
/// report (see `report`) on the policy's violations of the schema.
pub fn check_policy(policy_path: &str, policy_text: &str, description: &str, schema_text: &str) -> (r: Result<String, String>)
    ensures
        result_view(r) == policy_check_outcome(policy_path@, policy_text@, description@, schema_text@),
{
    match toml_failure(policy_text) {
        Some(m) => {
            let mut s = "Failed to parse TOML from policy file ".to_string();
            push_all(&mut s, quote_debug(policy_path).as_str());
            push_all(&mut s, ": ");
            push_all(&mut s, m.as_str());
            return Err(s);
        },
        None => {},
    }
    match conversion_failure(policy_text) {
        Some(m) => return Err(m),
        None => {},
    }
    match json_failure(schema_text) {
        Some(m) => {
            let mut s = "Failed to parse policy schema JSON from ".to_string();
            push_all(&mut s, quote_debug(POLICY_SCHEMA_PATH).as_str());
            push_all(&mut s, ": ");
            push_all(&mut s, m.as_str());
            return Err(s);
        },
        None => {},
    }
    match compile_failure(schema_text) {
        Some(m) => {
            let mut s = "Failed to compile policy JSON schema: ".to_string();
            push_all(&mut s, m.as_str());
            return Err(s);
        },
        None => {},
    }
    let violations = violations_of(schema_text, policy_text);
    validation_report(description, &violations)
}

} // verus!
