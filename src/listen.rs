//! What the relay listens on, and the service record it announces for its
//! TCP listener.
use vstd::prelude::*;
use crate::config::Config;

verus! {

/// Where the TCP listener binds.
pub struct TcpBinding {
    /// The address, in numeric form.
    pub ip: String,
    /// The port; 0 asks for an ephemeral one.
    pub port: u16,
}

/// The listeners to run.
pub struct ListenerPlan {
    /// The TCP listener, unless TCP is disabled.
    pub tcp: Option<TcpBinding>,
    /// The path of the local socket listener, if one is configured.
    pub local_path: Option<String>,
    /// Whether the TCP listener's port is announced on the network.
    pub announce: bool,
}

impl ListenerPlan {
    /// At least one listener runs; without one the relay has no purpose.
    pub open spec fn spec_serves_clients(&self) -> bool {
        self.tcp is Some || self.local_path is Some
    }

    /// Whether at least one listener runs.
    pub fn serves_clients(&self) -> (r: bool)
        ensures
            r == self.spec_serves_clients(),
    {
        self.tcp.is_some() || self.local_path.is_some()
    }
}

impl Config {
    /// The listeners for this configuration, with the TCP listener bound to
    /// `ip`: TCP unless it is disabled, a local socket when a path is
    /// configured, and an announcement only of a TCP listener that runs.
    pub fn listener_plan(&self, ip: String) -> (plan: ListenerPlan)
        ensures
            self.no_tcp ==> plan.tcp is None,
            !self.no_tcp ==> (plan.tcp matches Some(t) && t.ip == ip && t.port == self.port),
            match self.socket_path {
                Some(p) => plan.local_path matches Some(q) && q@ == p@,
                None => plan.local_path is None,
            },
            plan.announce == (self.announce_on_net && !self.no_tcp),
            plan.spec_serves_clients() == (!self.no_tcp || self.socket_path is Some),
    {
        let tcp = if self.no_tcp {
            None
        } else {
            Some(TcpBinding { ip, port: self.port })
        };
        let local_path = match &self.socket_path {
            Some(p) => Some(p.clone()),
            None => None,
        };
        ListenerPlan { tcp, local_path, announce: self.announce_on_net && !self.no_tcp }
    }
}

/// A DNS-SD service record, as the service-discovery daemon takes it.
pub struct ServiceRecord {
    /// The interface index; -1 for every interface.
    pub interface: i32,
    /// The protocol; -1 for both IPv4 and IPv6.
    pub protocol: i32,
    pub flags: u32,
    pub name: String,
    pub service_type: String,
    /// The domain; empty for the default one.
    pub domain: String,
    /// The host; empty for this host.
    pub host: String,
    pub port: u16,
    /// The TXT record's entries.
    pub txt: Vec<String>,
}

pub open spec fn service_name() -> Seq<char> {
    seq!['g', 'p', 's', '-', 's', 'h', 'a', 'r', 'e']
}

/// The registered DNS-SD type for NMEA-0183 over TCP.
pub open spec fn nmea_service_type() -> Seq<char> {
    seq!['_', 'n', 'm', 'e', 'a', '-', '0', '1', '8', '3', '.', '_', 't', 'c', 'p']
}

pub open spec fn accuracy_entry() -> Seq<char> {
    seq!['a', 'c', 'c', 'u', 'r', 'a', 'c', 'y', '=', 'e', 'x', 'a', 'c', 't']
}

/// The record that announces the relay's TCP `port`. `iface_index` is the
/// index of the interface the listener is bound to, when one is configured
/// and its index could be found; otherwise the record covers every interface.
pub fn service_record(iface_index: Option<i32>, port: u16) -> (r: ServiceRecord)
    ensures
        r.interface == match iface_index {
            Some(i) => i as int,
            None => -1,
        },
        r.protocol == -1,
        r.flags == 0,
        r.name@ == service_name(),
        r.service_type@ == nmea_service_type(),
        r.domain@.len() == 0,
        r.host@.len() == 0,
        r.port == port,
        r.txt@.len() == 1,
        r.txt@[0]@ == accuracy_entry(),
{
    proof {
        reveal_strlit("gps-share");
        reveal_strlit("_nmea-0183._tcp");
        reveal_strlit("accuracy=exact");
    }
    let name = "gps-share".to_string();
    let service_type = "_nmea-0183._tcp".to_string();
    let entry = "accuracy=exact".to_string();
    assert(name@ =~= service_name());
    assert(service_type@ =~= nmea_service_type());
    assert(entry@ =~= accuracy_entry());
    let mut txt: Vec<String> = Vec::new();
    txt.push(entry);
    ServiceRecord {
        interface: match iface_index {
            Some(i) => i,
            None => -1,
        },
        protocol: -1,
        flags: 0,
        name,
        service_type,
        domain: String::new(),
        host: String::new(),
        port,
        txt,
    }
}

} // verus!
