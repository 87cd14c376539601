//! Settings of the relay. What the command line gives comes before what the
//! settings file gives, and that before the defaults.

use vstd::prelude::*;

use crate::text::clone_texts;

verus! {

broadcast use vstd::string::group_string_axioms;

/// Where the key is kept by default.
pub const DEFAULT_KEY_FILE: &'static str = "relay-server.key";

/// The port by default.
pub const DEFAULT_PORT: u16 = 4001;

/// Settings of the relay.
#[derive(Debug, Clone)]
pub struct Config {
    /// Listen on IPv6 too.
    pub use_ipv6: bool,
    /// The file of the relay's key.
    pub key_file: String,
    pub port: u16,
    /// Public addresses, IPv4 and IPv6, to tell peers of.
    pub public_ips: Vec<String>,
}

/// What the command line sets.
#[derive(Debug)]
pub struct CliOverrides {
    pub use_ipv6: bool,
    pub key_file: Option<String>,
    pub port: Option<u16>,
    pub public_ips: Vec<String>,
}

impl Default for Config {
    fn default() -> (r: Config)
        ensures
            !r.use_ipv6,
            r.key_file@ == DEFAULT_KEY_FILE@,
            r.port == DEFAULT_PORT,
            r.public_ips@.len() == 0,
    {
        Config {
            use_ipv6: false,
            key_file: DEFAULT_KEY_FILE.to_owned(),
            port: DEFAULT_PORT,
            public_ips: Vec::new(),
        }
    }
}

impl Default for CliOverrides {
    fn default() -> (r: CliOverrides)
        ensures
            !r.use_ipv6,
            r.key_file is None,
            r.port is None,
            r.public_ips@.len() == 0,
    {
        CliOverrides { use_ipv6: false, key_file: None, port: None, public_ips: Vec::new() }
    }
}

/// Whether `after` is `before` with what the command line sets put in its place.
pub open spec fn overridden(before: Config, cli: CliOverrides, after: Config) -> bool {
    &&& after.use_ipv6 == (before.use_ipv6 || cli.use_ipv6)
    &&& after.key_file == match cli.key_file {
        Some(k) => k,
        None => before.key_file,
    }
    &&& after.port == match cli.port {
        Some(p) => p,
        None => before.port,
    }
    &&& after.public_ips@ == if cli.public_ips@.len() > 0 {
        cli.public_ips@
    } else {
        before.public_ips@
    }
}

impl Config {
    /// Puts what the command line sets in place. A list of public addresses there
    /// replaces the whole list.
    pub fn apply_cli_overrides(&mut self, cli: &CliOverrides)
        ensures
            overridden(*old(self), *cli, *final(self)),
    {
        if cli.use_ipv6 {
            self.use_ipv6 = true;
        }
        if let Some(key_file) = &cli.key_file {
            self.key_file = key_file.clone();
        }
        if let Some(port) = cli.port {
            self.port = port;
        }
        if cli.public_ips.len() > 0 {
            self.public_ips = clone_texts(&cli.public_ips);
        }
    }
}

/// Giving the same command line twice changes nothing more.
pub proof fn law_overrides_once(before: Config, cli: CliOverrides, after: Config, again: Config)
    requires
        overridden(before, cli, after),
        overridden(after, cli, again),
    ensures
        again.use_ipv6 == after.use_ipv6,
        again.key_file == after.key_file,
        again.port == after.port,
        again.public_ips@ == after.public_ips@,
{
}

/// What the command line says wins over the configuration, and what it does not say is
/// left alone; IPv6 can be switched on there but not off.
pub proof fn law_command_line_wins(before: Config, cli: CliOverrides, after: Config)
    requires
        overridden(before, cli, after),
    ensures
        cli.port matches Some(p) ==> after.port == p,
        cli.port is None ==> after.port == before.port,
        cli.key_file matches Some(k) ==> after.key_file@ == k@,
        cli.key_file is None ==> after.key_file@ == before.key_file@,
        cli.public_ips@.len() > 0 ==> after.public_ips@ == cli.public_ips@,
        cli.public_ips@.len() == 0 ==> after.public_ips@ == before.public_ips@,
        cli.use_ipv6 || before.use_ipv6 <==> after.use_ipv6,
{
}

} // verus!
