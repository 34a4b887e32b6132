//! The cached configuration: bridge address and credential kept between runs.

use vstd::prelude::*;

use crate::address::IpAddress;

verus! {

/// What is known of the bridge.
#[derive(Clone, Debug)]
pub struct Bridge {
    pub ip: Option<IpAddress>,
    pub username: Option<String>,
}

/// The configuration of an installation, with the file it was read from.
#[derive(Clone, Debug)]
pub struct Config {
    pub path: Option<String>,
    pub bridge: Bridge,
}

/// What was found at the configuration file's place.
#[derive(Clone, Debug)]
pub enum ConfigFile {
    /// No file there.
    Missing,
    /// A file that could not be read.
    Unreadable,
    /// A file whose text is not a configuration document.
    Malformed,
    /// A well-formed document, with the bridge record it holds.
    Parsed(Bridge),
}

/// Why a configuration could not be loaded or stored.
#[derive(Clone, Copy, Debug, PartialEq, Eq, Structural)]
pub enum ConfigError {
    /// The file is not a configuration document.
    Parse,
    /// The file or its directory could not be read or written.
    Io,
}

/// The outcome of a successful registration with a bridge.
#[derive(Clone, Debug)]
pub struct Paired {
    pub ip: IpAddress,
    pub username: String,
}

/// The view of an optional string.
pub open spec fn opt_view(o: Option<String>) -> Option<Seq<char>> {
    match o {
        Some(s) => Some(s@),
        None => None,
    }
}

impl Bridge {
    /// Address and credential, as plain values.
    pub open spec fn cached(self) -> (Option<IpAddress>, Option<Seq<char>>) {
        (self.ip, opt_view(self.username))
    }
}

impl Config {
    /// Address and credential of the configuration, as plain values.
    pub open spec fn cached(self) -> (Option<IpAddress>, Option<Seq<char>>) {
        self.bridge.cached()
    }
}

impl Paired {
    /// Address and credential that the bridge handed out.
    pub open spec fn cached(self) -> (IpAddress, Seq<char>) {
        (self.ip, self.username@)
    }
}

/// Address and credential after a pairing attempt: a registration replaces
/// both at once; a failed one leaves both as they were.
pub open spec fn pairing_result(
    before: (Option<IpAddress>, Option<Seq<char>>),
    outcome: Option<(IpAddress, Seq<char>)>,
) -> (Option<IpAddress>, Option<Seq<char>>) {
    match outcome {
        Some((ip, username)) => (Some(ip), Some(username)),
        None => before,
    }
}

impl Default for Config {
    /// The configuration of an installation that never paired: no file, no
    /// address, no credential.
    fn default() -> (r: Config)
        ensures
            r.path.is_none(),
            r.bridge.ip.is_none(),
            r.bridge.username.is_none(),
    {
        Config { path: None, bridge: Bridge { ip: None, username: None } }
    }
}

impl Config {
    /// The configuration loaded from `path`, given what was found there. A
    /// missing file gives the empty configuration; an unreadable one an
    /// `Io` error, a malformed one a `Parse` error; a well-formed one its
    /// record. The result remembers `path`.
    pub fn read_file(path: String, file: ConfigFile) -> (r: Result<Config, ConfigError>)
        ensures
            match file {
                ConfigFile::Missing => r.is_ok() && r.unwrap().cached() == (
                    None::<IpAddress>,
                    None::<Seq<char>>,
                ),
                ConfigFile::Unreadable => r == Err::<Config, ConfigError>(ConfigError::Io),
                ConfigFile::Malformed => r == Err::<Config, ConfigError>(ConfigError::Parse),
                ConfigFile::Parsed(b) => r.is_ok() && r.unwrap().cached() == b.cached(),
            },
            r.is_ok() ==> r.unwrap().path == Some(path),
    {
        match file {
            ConfigFile::Missing => {
                let mut config = Config::default();
                config.path = Some(path);
                Ok(config)
            },
            ConfigFile::Unreadable => Err(ConfigError::Io),
            ConfigFile::Malformed => Err(ConfigError::Parse),
            ConfigFile::Parsed(bridge) => Ok(Config { path: Some(path), bridge }),
        }
    }

    /// Records the outcome of a pairing attempt. A registration replaces
    /// address and credential together and asks to be saved (`true`); a
    /// failed one changes nothing (`false`). The path is kept.
    pub fn apply_pairing(&mut self, outcome: Option<Paired>) -> (save: bool)
        ensures
            final(self).cached() == pairing_result(
                old(self).cached(),
                match outcome {
                    Some(p) => Some(p.cached()),
                    None => None,
                },
            ),
            final(self).path == old(self).path,
            save == outcome.is_some(),
    {
        match outcome {
            Some(paired) => {
                self.bridge = Bridge { ip: Some(paired.ip), username: Some(paired.username) };
                true
            },
            None => false,
        }
    }
}

/// A registration sets address and credential together, to what the bridge
/// handed out, whatever was cached before.
pub proof fn lemma_pairing_sets_both(
    before: (Option<IpAddress>, Option<Seq<char>>),
    ip: IpAddress,
    username: Seq<char>,
)
    ensures
        pairing_result(before, Some((ip, username))).0 == Some(ip),
        pairing_result(before, Some((ip, username))).1 == Some(username),
{
}

/// A failed registration leaves address and credential as they were.
pub proof fn lemma_aborted_pairing_keeps_config(before: (Option<IpAddress>, Option<Seq<char>>))
    ensures
        pairing_result(before, None) == before,
{
}

} // verus!
