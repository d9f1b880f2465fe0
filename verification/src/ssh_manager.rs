// The SSH settings of the known hosts. The SSH configuration file is read and parsed by
// the runtime; the manager holds the settings in effect.
use vstd::prelude::*;
use crate::string_map::StringMap;

verus! {

/// The SSH settings: one entry per host name.
#[derive(Debug)]
pub struct SshConfig {
    pub hosts: StringMap<SshHostConfigEntry>,
}

impl Default for SshConfig {
    /// No hosts.
    fn default() -> (r: Self)
        ensures
            r.hosts@ == Map::<Seq<char>, SshHostConfigEntry>::empty(),
    {
        SshConfig { hosts: StringMap::new() }
    }
}

/// How to reach one host.
#[derive(Debug, Clone)]
pub struct SshHostConfigEntry {
    pub address: String,
    pub username: String,
    pub identity_file: String,
    pub port: u16,
    pub host_key_check: bool,
    pub forward_agent: bool,
    pub connect_timeout: Option<u64>,
    pub session_timeout: Option<u64>,
}

/// The port of a host entry that names none.
pub fn default_ssh_port() -> (r: u16)
    ensures
        r == 22,
{
    22
}

/// Host keys are checked unless an entry says otherwise.
pub fn default_true() -> (r: bool)
    ensures
        r,
{
    true
}

/// The manager that holds the SSH settings in effect.
#[derive(Debug)]
pub struct SshManager {
    pub config: SshConfig,
}

impl SshManager {
    /// The manager for what reading the SSH configuration file gave: with no file named,
    /// or none where it was named (`None`), no hosts; a file that parsed, its settings; a
    /// file that could not be read or parsed, its error.
    pub fn from_config_file(file: Option<Result<SshConfig, String>>) -> (r: Result<SshManager, String>)
        ensures
            match file {
                None => r matches Ok(m) && m.config.hosts@ == Map::<Seq<char>, SshHostConfigEntry>::empty(),
                Some(Ok(c)) => r == Ok::<SshManager, String>(SshManager { config: c }),
                Some(Err(msg)) => r == Err::<SshManager, String>(msg),
            },
    {
        match file {
            None => Ok(SshManager { config: SshConfig::default() }),
            Some(Ok(c)) => Ok(SshManager { config: c }),
            Some(Err(msg)) => Err(msg),
        }
    }
}

} // verus!
