//! The relay's configuration, fixed before the relay starts, and what is
//! derived from it: the serial line speed and the address to bind.
use vstd::prelude::*;

verus! {

/// How the GPS device is named on the command line.
pub enum DeviceID {
    /// A device node, or `-` for standard input.
    Path(String),
    /// The hardware address of a Bluetooth receiver.
    MAC(String),
}

/// The recognised options.
pub struct Config {
    /// The device to read from; `None` asks for autodetection.
    pub dev_id: Option<DeviceID>,
    /// Whether to announce the TCP service on the local network.
    pub announce_on_net: bool,
    /// The TCP port to listen on; 0 asks for an ephemeral one.
    pub port: u16,
    /// The network interface to bind to; `None` binds to all of them.
    pub net_iface: Option<String>,
    /// The serial line speed, in bits per second.
    pub baudrate: usize,
    /// Whether the TCP listener is disabled.
    pub no_tcp: bool,
    /// The path of the local socket to listen on, if any.
    pub socket_path: Option<String>,
}

/// A serial line speed: one of the standard rates, or any other.
#[derive(Clone, Copy, Debug, PartialEq, Eq, Structural)]
pub enum BaudRate {
    Baud110,
    Baud300,
    Baud600,
    Baud1200,
    Baud2400,
    Baud4800,
    Baud9600,
    Baud19200,
    Baud38400,
    Baud57600,
    Baud115200,
    BaudOther(usize),
}

impl BaudRate {
    /// The speed in bits per second.
    pub open spec fn spec_speed(self) -> usize {
        match self {
            BaudRate::Baud110 => 110,
            BaudRate::Baud300 => 300,
            BaudRate::Baud600 => 600,
            BaudRate::Baud1200 => 1200,
            BaudRate::Baud2400 => 2400,
            BaudRate::Baud4800 => 4800,
            BaudRate::Baud9600 => 9600,
            BaudRate::Baud19200 => 19200,
            BaudRate::Baud38400 => 38400,
            BaudRate::Baud57600 => 57600,
            BaudRate::Baud115200 => 115200,
            BaudRate::BaudOther(n) => n,
        }
    }

    /// The speed in bits per second.
    pub fn speed(&self) -> (n: usize)
        ensures
            n == self.spec_speed(),
    {
        match self {
            BaudRate::Baud110 => 110,
            BaudRate::Baud300 => 300,
            BaudRate::Baud600 => 600,
            BaudRate::Baud1200 => 1200,
            BaudRate::Baud2400 => 2400,
            BaudRate::Baud4800 => 4800,
            BaudRate::Baud9600 => 9600,
            BaudRate::Baud19200 => 19200,
            BaudRate::Baud38400 => 38400,
            BaudRate::Baud57600 => 57600,
            BaudRate::Baud115200 => 115200,
            BaudRate::BaudOther(n) => *n,
        }
    }
}

/// One of the standard serial speeds, which have a rate of their own.
pub open spec fn is_standard_speed(n: usize) -> bool {
    n == 110 || n == 300 || n == 600 || n == 1200 || n == 2400 || n == 4800 || n == 9600 || n
        == 19200 || n == 38400 || n == 57600 || n == 115200
}

/// The address family of an interface address.
#[derive(Clone, Copy, Debug, PartialEq, Eq, Structural)]
pub enum AddressFamily {
    /// IPv4.
    Inet,
    /// IPv6.
    Inet6,
    /// Any other family (a link-layer address, for one).
    Other,
    /// The entry carries no address.
    Missing,
}

/// What turning an address into its numeric text form gave.
pub enum NumericHost {
    /// The address in numeric form.
    Text(String),
    /// The conversion succeeded but its result is not valid UTF-8.
    NotUtf8,
    /// The conversion failed.
    Failed,
}

/// One entry of the system's interface address table.
pub struct InterfaceAddress {
    /// The interface name; `None` when it is not valid UTF-8.
    pub name: Option<String>,
    pub family: AddressFamily,
    /// The address in numeric form; only read for IPv4 and IPv6 entries.
    pub host: NumericHost,
}

/// The address that binds to every interface.
pub open spec fn any_address() -> Seq<char> {
    seq!['0', '.', '0', '.', '0', '.', '0']
}

/// The address to bind for interface `iface`, given the interface address
/// table: the numeric form of the first IPv4 or IPv6 address of that
/// interface. An entry whose numeric form is not valid UTF-8 is skipped; a
/// conversion that fails, or a table with no such entry, gives the address
/// that binds to every interface.
pub open spec fn ip_for_iface_spec(table: Seq<InterfaceAddress>, iface: Seq<char>) -> Seq<char>
    decreases table.len(),
{
    if table.len() == 0 {
        any_address()
    } else {
        let e = table[0];
        let candidate = (e.name matches Some(n) && n@ == iface) && (e.family == AddressFamily::Inet
            || e.family == AddressFamily::Inet6);
        if !candidate {
            ip_for_iface_spec(table.drop_first(), iface)
        } else {
            match e.host {
                NumericHost::Text(ip) => ip@,
                NumericHost::NotUtf8 => ip_for_iface_spec(table.drop_first(), iface),
                NumericHost::Failed => any_address(),
            }
        }
    }
}

fn any_address_string() -> (s: String)
    ensures
        s@ == any_address(),
{
    let a = "0.0.0.0";
    proof {
        reveal_strlit("0.0.0.0");
    }
    a.to_string()
}

impl Config {
    /// The address the TCP listener binds to: that of the configured
    /// interface, looked up in `table`, or the address that binds to every
    /// interface when none is configured.
    pub fn get_ip(&self, table: &Vec<InterfaceAddress>) -> (ip: String)
        ensures
            ip@ == match self.net_iface {
                Some(iface) => ip_for_iface_spec(table@, iface@),
                None => any_address(),
            },
    {
        match &self.net_iface {
            Some(iface) => Config::get_ip_for_iface(table, iface),
            None => any_address_string(),
        }
    }

    /// The address of interface `iface` in the interface address table (see
    /// [`ip_for_iface_spec`]).
    pub fn get_ip_for_iface(table: &Vec<InterfaceAddress>, iface: &String) -> (ip: String)
        ensures
            ip@ == ip_for_iface_spec(table@, iface@),
    {
        let mut i: usize = 0;
        proof {
            assert(table@.skip(0) =~= table@);
        }
        while i < table.len()
            invariant
                i <= table@.len(),
                ip_for_iface_spec(table@, iface@) == ip_for_iface_spec(
                    table@.skip(i as int),
                    iface@,
                ),
            decreases table@.len() - i,
        {
            proof {
                assert(table@.skip(i as int).drop_first() =~= table@.skip(i + 1));
            }
            let e = &table[i];
            let name_matches = match &e.name {
                Some(n) => *n == *iface,
                None => false,
            };
            if name_matches && (e.family == AddressFamily::Inet || e.family
                == AddressFamily::Inet6) {
                match &e.host {
                    NumericHost::Text(ip) => {
                        return ip.clone();
                    },
                    NumericHost::NotUtf8 => {},
                    NumericHost::Failed => {
                        return any_address_string();
                    },
                }
            }
            i = i + 1;
        }
        any_address_string()
    }

    /// The serial line speed as a rate: a standard speed gets its own rate,
    /// any other is carried as it is.
    pub fn get_baudrate(&self) -> (b: BaudRate)
        ensures
            b.spec_speed() == self.baudrate,
            is_standard_speed(self.baudrate) <==> !(b is BaudOther),
    {
        match self.baudrate {
            110 => BaudRate::Baud110,
            300 => BaudRate::Baud300,
            600 => BaudRate::Baud600,
            1200 => BaudRate::Baud1200,
            2400 => BaudRate::Baud2400,
            4800 => BaudRate::Baud4800,
            9600 => BaudRate::Baud9600,
            19200 => BaudRate::Baud19200,
            38400 => BaudRate::Baud38400,
            57600 => BaudRate::Baud57600,
            115200 => BaudRate::Baud115200,
            b => BaudRate::BaudOther(b),
        }
    }
}

} // verus!
