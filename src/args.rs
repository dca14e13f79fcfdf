//! Turning the raw command-line option values into a [`Config`]: defaults for
//! what was not given, and the decimal numbers parsed as the standard library
//! parses unsigned integers (an optional `+`, then at least one ASCII digit,
//! within range).
use vstd::prelude::*;
use vstd::string::StringSliceAdditionalSpecFns;
use crate::config::{Config, DeviceID};

verus! {

/// The TCP port used when none is given: the port registered for NMEA over TCP.
pub const DEFAULT_PORT: u16 = 10110;

/// The serial line speed used when none is given, or when it does not parse.
pub const DEFAULT_BAUDRATE: usize = 38400;

pub open spec fn is_digit(b: u8) -> bool {
    48 <= b <= 57
}

/// The value of a string of decimal digits.
pub open spec fn decimal_value(d: Seq<u8>) -> nat
    decreases d.len(),
{
    if d.len() == 0 {
        0
    } else {
        decimal_value(d.drop_last()) * 10 + (d.last() - 48) as nat
    }
}

/// The digits of an unsigned number: what follows a leading `+`, if any.
pub open spec fn unsigned_digits(b: Seq<u8>) -> Seq<u8> {
    if b.len() > 0 && b[0] == 43 {
        b.drop_first()
    } else {
        b
    }
}

/// The unsigned number that `b` spells, if it spells one no larger than `max`.
pub open spec fn parse_unsigned(b: Seq<u8>, max: nat) -> Option<nat> {
    let d = unsigned_digits(b);
    if d.len() > 0 && (forall|i: int| 0 <= i < d.len() ==> is_digit(#[trigger] d[i]))
        && decimal_value(d) <= max {
        Some(decimal_value(d))
    } else {
        None
    }
}

proof fn lemma_value_prefix(d: Seq<u8>, k: int)
    requires
        0 <= k <= d.len(),
        forall|i: int| 0 <= i < d.len() ==> is_digit(#[trigger] d[i]),
    ensures
        decimal_value(d.take(k)) <= decimal_value(d),
    decreases d.len(),
{
    if k < d.len() {
        assert(d.drop_last().take(k) =~= d.take(k));
        lemma_value_prefix(d.drop_last(), k);
    } else {
        assert(d.take(k) =~= d);
    }
}

/// The unsigned decimal number `s` spells, if it spells one no larger than
/// `max`.
pub fn parse_decimal(s: &str, max: usize) -> (r: Option<usize>)
    ensures
        match r {
            Some(v) => parse_unsigned(s.spec_bytes(), max as nat) == Some(v as nat),
            None => parse_unsigned(s.spec_bytes(), max as nat) is None,
        },
{
    let b = s.as_bytes();
    let n = b.len();
    let start: usize = if n > 0 && b[0] == 43 {
        1
    } else {
        0
    };
    let ghost d = unsigned_digits(b@);
    proof {
        assert(d =~= b@.subrange(start as int, n as int));
    }
    if start >= n {
        return None;
    }
    let mut value: usize = 0;
    let mut i: usize = start;
    proof {
        assert(d.take(0) =~= Seq::<u8>::empty());
    }
    while i < n
        invariant
            start <= i <= n,
            n == b@.len(),
            b@ == s.spec_bytes(),
            d == b@.subrange(start as int, n as int),
            d == unsigned_digits(b@),
            forall|j: int| 0 <= j < i - start ==> is_digit(#[trigger] d[j]),
            value == decimal_value(d.take(i - start)),
            value <= max,
        decreases n - i,
    {
        let c = b[i];
        if c < 48 || c > 57 {
            assert(!is_digit(d[i - start]));
            return None;
        }
        let digit = (c - 48) as usize;
        proof {
            assert(d.take(i - start + 1).drop_last() =~= d.take(i - start));
        }
        if digit > max || value > (max - digit) / 10 {
            proof {
                assert(value * 10 + digit > max) by (nonlinear_arith)
                    requires
                        digit > max || value > (max - digit) / 10,
                        digit <= 9,
                ;
                if forall|j: int| 0 <= j < d.len() ==> is_digit(#[trigger] d[j]) {
                    lemma_value_prefix(d, i - start + 1);
                }
            }
            return None;
        }
        proof {
            assert(value * 10 + digit <= max) by (nonlinear_arith)
                requires
                    digit <= max,
                    value <= (max - digit) / 10,
            ;
        }
        value = value * 10 + digit;
        i = i + 1;
    }
    proof {
        assert(d.take(n - start) =~= d);
    }
    Some(value)
}

/// The TCP port for the `--port` value: [`DEFAULT_PORT`] when none is given,
/// and 0 (an ephemeral port) when the value is not a port number.
pub fn port_from_arg(arg: Option<&str>) -> (port: u16)
    ensures
        port == match arg {
            None => DEFAULT_PORT as nat,
            Some(s) => match parse_unsigned(s.spec_bytes(), u16::MAX as nat) {
                Some(v) => v,
                None => 0,
            },
        },
{
    match arg {
        None => DEFAULT_PORT,
        Some(s) => match parse_decimal(s, u16::MAX as usize) {
            Some(v) => v as u16,
            None => 0,
        },
    }
}

/// The serial line speed for the `--baudrate` value: [`DEFAULT_BAUDRATE`]
/// when none is given or the value is not a number.
pub fn baudrate_from_arg(arg: Option<&str>) -> (baudrate: usize)
    ensures
        baudrate == match arg {
            None => DEFAULT_BAUDRATE as nat,
            Some(s) => match parse_unsigned(s.spec_bytes(), usize::MAX as nat) {
                Some(v) => v,
                None => DEFAULT_BAUDRATE as nat,
            },
        },
{
    match arg {
        None => DEFAULT_BAUDRATE,
        Some(s) => match parse_decimal(s, usize::MAX) {
            Some(v) => v,
            None => DEFAULT_BAUDRATE,
        },
    }
}

fn owned(s: Option<&str>) -> (r: Option<String>)
    ensures
        match s {
            Some(t) => r matches Some(u) && u@ == t@,
            None => r is None,
        },
{
    match s {
        Some(t) => Some(t.to_string()),
        None => None,
    }
}

/// The configuration for the given option values: the device (a path, or
/// `-` for standard input), whether announcing was disabled, the port, the
/// interface, the baud rate, whether TCP was disabled, and the local socket
/// path.
pub fn config_from_args(
    device: Option<&str>,
    disable_announce: bool,
    port: Option<&str>,
    interface: Option<&str>,
    baudrate: Option<&str>,
    no_tcp: bool,
    socket_path: Option<&str>,
) -> (config: Config)
    ensures
        match device {
            Some(d) => config.dev_id matches Some(DeviceID::Path(p)) && p@ == d@,
            None => config.dev_id is None,
        },
        config.announce_on_net == !disable_announce,
        config.port == match port {
            None => DEFAULT_PORT as nat,
            Some(s) => match parse_unsigned(s.spec_bytes(), u16::MAX as nat) {
                Some(v) => v,
                None => 0,
            },
        },
        match interface {
            Some(i) => config.net_iface matches Some(n) && n@ == i@,
            None => config.net_iface is None,
        },
        config.baudrate == match baudrate {
            None => DEFAULT_BAUDRATE as nat,
            Some(s) => match parse_unsigned(s.spec_bytes(), usize::MAX as nat) {
                Some(v) => v,
                None => DEFAULT_BAUDRATE as nat,
            },
        },
        config.no_tcp == no_tcp,
        match socket_path {
            Some(p) => config.socket_path matches Some(q) && q@ == p@,
            None => config.socket_path is None,
        },
{
    let dev_id = match device {
        Some(d) => Some(DeviceID::Path(d.to_string())),
        None => None,
    };
    Config {
        dev_id,
        announce_on_net: !disable_announce,
        port: port_from_arg(port),
        net_iface: owned(interface),
        baudrate: baudrate_from_arg(baudrate),
        no_tcp,
        socket_path: owned(socket_path),
    }
}

} // verus!
