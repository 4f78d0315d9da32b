//! Configuration values the endpoints are started from: the process mode
//! selector and the record of bind/peer addresses and log verbosity.
//!
//! Reading a configuration file and parsing command-line arguments are
//! plumbing and live outside this crate; what stands here is the pure logic:
//! which mode a string names, and which fields a server or client run
//! requires before an endpoint can be bound.

use vstd::prelude::*;
use vstd::string::StrSliceExecFns;
use vstd::string::StringExecFns;
use crate::state::IpAddress;
use crate::state::SockAddr;

verus! {

/// The process mode: connection initiator, listener, or the (unimplemented)
/// relay role.
#[derive(Clone, Copy, PartialEq, Eq, Structural, Debug)]
pub enum AzukiWorkMode {
    Client,
    Server,
    Relay,
}

impl Default for AzukiWorkMode {
    /// The mode a process runs in when none is chosen.
    fn default() -> (r: AzukiWorkMode)
        ensures
            r == AzukiWorkMode::Client,
    {
        AzukiWorkMode::Client
    }
}

/// Character-for-character comparison of two strings.
fn str_eq(a: &str, b: &str) -> (r: bool)
    ensures
        r == (a@ == b@),
{
    let n = a.unicode_len();
    if n != b.unicode_len() {
        return false;
    }
    let mut i: usize = 0;
    while i < n
        invariant
            n == a@.len(),
            n == b@.len(),
            i <= n,
            forall|j: int| 0 <= j < i ==> a@[j] == b@[j],
        decreases n - i,
    {
        if a.get_char(i) != b.get_char(i) {
            return false;
        }
        i = i + 1;
    }
    proof {
        assert(a@ =~= b@);
    }
    true
}

impl AzukiWorkMode {
    /// The mode a string names: exactly `"client"`, `"server"` or `"relay"`;
    /// any other string is rejected with a message naming it.
    pub fn from_str(s: &str) -> (r: Result<AzukiWorkMode, String>)
        ensures
            s@ == "client"@ ==> r == Ok::<AzukiWorkMode, String>(AzukiWorkMode::Client),
            s@ == "server"@ ==> r == Ok::<AzukiWorkMode, String>(AzukiWorkMode::Server),
            s@ == "relay"@ ==> r == Ok::<AzukiWorkMode, String>(AzukiWorkMode::Relay),
            s@ != "client"@ && s@ != "server"@ && s@ != "relay"@ ==> (r matches Err(m) && m@ == s@
                + " is not a valid AzukiWorkMode"@),
    {
        proof {
            reveal_strlit("client");
            reveal_strlit("server");
            reveal_strlit("relay");
            assert("client"@.len() == 6 && "server"@.len() == 6 && "relay"@.len() == 5);
            assert("client"@[0] == 'c' && "server"@[0] == 's');
            assert("client"@ != "server"@);
            assert("client"@ != "relay"@);
            assert("server"@ != "relay"@);
        }
        if str_eq(s, "client") {
            Ok(AzukiWorkMode::Client)
        } else if str_eq(s, "server") {
            Ok(AzukiWorkMode::Server)
        } else if str_eq(s, "relay") {
            Ok(AzukiWorkMode::Relay)
        } else {
            Err(s.to_owned().concat(" is not a valid AzukiWorkMode"))
        }
    }
}

/// A configuration-field error: the run mode asked for a field the
/// configuration does not set.
#[derive(Clone, Copy, PartialEq, Eq, Structural, Debug)]
pub enum ConfigError {
    MissingBindAddr,
    MissingBindPort,
    MissingPeerAddr,
    MissingPeerPort,
}

/// The configuration values supplied by the external configuration source.
/// Every field is optional in the file; which must be present depends on the
/// run mode.
pub struct Config {
    pub bind_addr: Option<IpAddress>,
    pub bind_port: Option<u16>,
    pub peer_addr: Option<IpAddress>,
    pub peer_port: Option<u16>,
    pub log_level: Option<String>,
}

impl Config {
    /// The local address a server run binds: owed exactly when `bind_addr`
    /// and `bind_port` are both set; the first missing field (address before
    /// port) is named otherwise.
    pub fn server_params(&self) -> (r: Result<SockAddr, ConfigError>)
        ensures
            r is Ok <==> (self.bind_addr is Some && self.bind_port is Some),
            r matches Ok(a) ==> (self.bind_addr matches Some(ip) && self.bind_port matches Some(
                port,
            ) && a == (SockAddr { ip, port })),
            self.bind_addr is None ==> r == Err::<SockAddr, ConfigError>(
                ConfigError::MissingBindAddr,
            ),
            self.bind_addr is Some && self.bind_port is None ==> r == Err::<SockAddr, ConfigError>(
                ConfigError::MissingBindPort,
            ),
    {
        let ip = match self.bind_addr {
            Some(ip) => ip,
            None => {
                return Err(ConfigError::MissingBindAddr);
            },
        };
        let port = match self.bind_port {
            Some(port) => port,
            None => {
                return Err(ConfigError::MissingBindPort);
            },
        };
        Ok(SockAddr { ip, port })
    }

    /// The local and peer addresses a client run uses: owed exactly when all
    /// four address fields are set; the first missing field (bind address,
    /// bind port, peer address, peer port) is named otherwise.
    pub fn client_params(&self) -> (r: Result<(SockAddr, SockAddr), ConfigError>)
        ensures
            r is Ok <==> (self.bind_addr is Some && self.bind_port is Some && self.peer_addr
                is Some && self.peer_port is Some),
            r matches Ok(pair) ==> (self.bind_addr matches Some(bip) && self.bind_port
                matches Some(bport) && self.peer_addr matches Some(pip) && self.peer_port
                matches Some(pport) && pair == ((
                SockAddr { ip: bip, port: bport },
                SockAddr { ip: pip, port: pport },
            ))),
            self.bind_addr is None ==> r == Err::<(SockAddr, SockAddr), ConfigError>(
                ConfigError::MissingBindAddr,
            ),
            self.bind_addr is Some && self.bind_port is None ==> r == Err::<
                (SockAddr, SockAddr),
                ConfigError,
            >(ConfigError::MissingBindPort),
            self.bind_addr is Some && self.bind_port is Some && self.peer_addr is None ==> r
                == Err::<(SockAddr, SockAddr), ConfigError>(ConfigError::MissingPeerAddr),
            self.bind_addr is Some && self.bind_port is Some && self.peer_addr is Some
                && self.peer_port is None ==> r == Err::<(SockAddr, SockAddr), ConfigError>(
                ConfigError::MissingPeerPort,
            ),
    {
        let bind_ip = match self.bind_addr {
            Some(ip) => ip,
            None => {
                return Err(ConfigError::MissingBindAddr);
            },
        };
        let bind_port = match self.bind_port {
            Some(port) => port,
            None => {
                return Err(ConfigError::MissingBindPort);
            },
        };
        let peer_ip = match self.peer_addr {
            Some(ip) => ip,
            None => {
                return Err(ConfigError::MissingPeerAddr);
            },
        };
        let peer_port = match self.peer_port {
            Some(port) => port,
            None => {
                return Err(ConfigError::MissingPeerPort);
            },
        };
        Ok((SockAddr { ip: bind_ip, port: bind_port }, SockAddr { ip: peer_ip, port: peer_port }))
    }
}

} // verus!
