use gps_share::args::{baudrate_from_arg, config_from_args, parse_decimal, port_from_arg};
use gps_share::camel::to_camel;
use gps_share::config::{AddressFamily, BaudRate, Config, DeviceID, InterfaceAddress, NumericHost};
use gps_share::listen::service_record;
use gps_share::source::{
    after_attempt, first_source_step, is_serial_candidate, next_detect_step, CandidateOutcome, DetectStep, Fatal,
    OpenOutcome, SourceChoice, SourceStep,
};

fn config(dev: Option<DeviceID>) -> Config {
    Config {
        dev_id: dev,
        announce_on_net: true,
        port: 10110,
        net_iface: None,
        baudrate: 38400,
        no_tcp: false,
        socket_path: None,
    }
}

fn entry(name: &str, family: AddressFamily, host: NumericHost) -> InterfaceAddress {
    InterfaceAddress { name: Some(name.to_string()), family, host }
}

#[test]
fn camel_case_names() {
    assert_eq!(to_camel("entry_group_new"), "EntryGroupNew");
    assert_eq!(to_camel("get_network_interface_index_by_name"), "GetNetworkInterfaceIndexByName");
    assert_eq!(to_camel("commit"), "Commit");
    assert_eq!(to_camel("__a__b_"), "AB");
    assert_eq!(to_camel("x1_2y"), "X12y");
    assert_eq!(to_camel(""), "");
}

#[test]
fn baud_rates() {
    let mut c = config(None);
    assert_eq!(c.get_baudrate(), BaudRate::Baud38400);
    c.baudrate = 9600;
    assert_eq!(c.get_baudrate(), BaudRate::Baud9600);
    c.baudrate = 115200;
    assert_eq!(c.get_baudrate(), BaudRate::Baud115200);
    c.baudrate = 4_000_000;
    assert_eq!(c.get_baudrate(), BaudRate::BaudOther(4_000_000));
    assert_eq!(c.get_baudrate().speed(), 4_000_000);
    assert_eq!(BaudRate::Baud110.speed(), 110);
}

#[test]
fn bind_address_without_interface() {
    let c = config(None);
    let table = vec![entry("lo", AddressFamily::Inet, NumericHost::Text("127.0.0.1".to_string()))];
    assert_eq!(c.get_ip(&table), "0.0.0.0");
}

#[test]
fn bind_address_of_interface() {
    let mut c = config(None);
    c.net_iface = Some("eth0".to_string());
    let table = vec![
        entry("lo", AddressFamily::Inet, NumericHost::Text("127.0.0.1".to_string())),
        entry("eth0", AddressFamily::Other, NumericHost::Failed),
        entry("eth0", AddressFamily::Inet, NumericHost::Text("192.168.1.20".to_string())),
        entry("eth0", AddressFamily::Inet6, NumericHost::Text("fe80::1".to_string())),
    ];
    assert_eq!(c.get_ip(&table), "192.168.1.20");
}

#[test]
fn bind_address_lookup_failures() {
    let iface = "wlan0".to_string();
    let skipped = vec![
        entry("wlan0", AddressFamily::Missing, NumericHost::Failed),
        entry("wlan0", AddressFamily::Inet6, NumericHost::NotUtf8),
        InterfaceAddress { name: None, family: AddressFamily::Inet, host: NumericHost::Text("10.0.0.1".to_string()) },
        entry("wlan0", AddressFamily::Inet6, NumericHost::Text("fe80::2".to_string())),
    ];
    assert_eq!(Config::get_ip_for_iface(&skipped, &iface), "fe80::2");
    let failing = vec![
        entry("wlan0", AddressFamily::Inet, NumericHost::Failed),
        entry("wlan0", AddressFamily::Inet6, NumericHost::Text("fe80::2".to_string())),
    ];
    assert_eq!(Config::get_ip_for_iface(&failing, &iface), "0.0.0.0");
    assert_eq!(Config::get_ip_for_iface(&vec![], &iface), "0.0.0.0");
}

#[test]
fn decimal_parsing() {
    assert_eq!(parse_decimal("10110", 65535), Some(10110));
    assert_eq!(parse_decimal("+42", 65535), Some(42));
    assert_eq!(parse_decimal("0007", 65535), Some(7));
    assert_eq!(parse_decimal("65535", 65535), Some(65535));
    assert_eq!(parse_decimal("65536", 65535), None);
    assert_eq!(parse_decimal("", 65535), None);
    assert_eq!(parse_decimal("+", 65535), None);
    assert_eq!(parse_decimal("-1", 65535), None);
    assert_eq!(parse_decimal("12a", 65535), None);
    assert_eq!(parse_decimal(" 12", 65535), None);
    assert_eq!(parse_decimal("18446744073709551615", usize::MAX), Some(usize::MAX));
    assert_eq!(parse_decimal("18446744073709551616", usize::MAX), None);
    assert_eq!(parse_decimal("99999999999999999999x", usize::MAX), None);
}

#[test]
fn port_and_baudrate_defaults() {
    assert_eq!(port_from_arg(None), 10110);
    assert_eq!(port_from_arg(Some("9314")), 9314);
    assert_eq!(port_from_arg(Some("0")), 0);
    assert_eq!(port_from_arg(Some("not-a-port")), 0);
    assert_eq!(port_from_arg(Some("70000")), 0);
    assert_eq!(baudrate_from_arg(None), 38400);
    assert_eq!(baudrate_from_arg(Some("4800")), 4800);
    assert_eq!(baudrate_from_arg(Some("fast")), 38400);
}

#[test]
fn config_from_option_values() {
    let c = config_from_args(Some("-"), true, Some("9315"), Some("lo"), None, true, Some("/tmp/sock"));
    assert!(matches!(c.dev_id, Some(DeviceID::Path(ref p)) if p == "-"));
    assert!(!c.announce_on_net);
    assert_eq!(c.port, 9315);
    assert_eq!(c.net_iface.as_deref(), Some("lo"));
    assert_eq!(c.baudrate, 38400);
    assert!(c.no_tcp);
    assert_eq!(c.socket_path.as_deref(), Some("/tmp/sock"));

    let d = config_from_args(None, false, None, None, Some("9600"), false, None);
    assert!(d.dev_id.is_none());
    assert!(d.announce_on_net);
    assert_eq!(d.port, 10110);
    assert!(d.net_iface.is_none());
    assert_eq!(d.baudrate, 9600);
    assert!(!d.no_tcp);
    assert!(d.socket_path.is_none());
}

#[test]
fn stdin_sentinel_short_circuits() {
    let c = config(Some(DeviceID::Path("-".to_string())));
    assert!(matches!(first_source_step(&c), SourceStep::Use(SourceChoice::Stdin)));
}

#[test]
fn named_device_then_gnss_then_exit() {
    let c = config(Some(DeviceID::Path("/dev/ttyUSB0".to_string())));
    let step = first_source_step(&c);
    let tried = match step {
        SourceStep::Try(SourceChoice::SerialDevice(p)) => {
            assert_eq!(p, "/dev/ttyUSB0");
            SourceChoice::SerialDevice(p)
        }
        _ => panic!("expected the named serial device"),
    };
    let next = after_attempt(tried, OpenOutcome::NotFound);
    let gnss = match next {
        SourceStep::Try(SourceChoice::GnssDevice(p)) => {
            assert_eq!(p, "/dev/ttyUSB0");
            SourceChoice::GnssDevice(p)
        }
        _ => panic!("expected the same path as a GNSS device"),
    };
    assert!(matches!(after_attempt(gnss, OpenOutcome::NotFound), SourceStep::Exit(Fatal::SourceNotFound)));
    let serial = SourceChoice::SerialDevice("/dev/ttyS0".to_string());
    assert!(matches!(after_attempt(serial, OpenOutcome::Failed), SourceStep::Exit(Fatal::SourceOpen)));
}

#[test]
fn autodetect_order() {
    let c = config(None);
    assert!(matches!(first_source_step(&c), SourceStep::Try(SourceChoice::SerialAutodetect)));
    assert!(matches!(
        after_attempt(SourceChoice::SerialAutodetect, OpenOutcome::NotFound),
        SourceStep::Try(SourceChoice::GnssAutodetect)
    ));
    assert!(matches!(
        after_attempt(SourceChoice::SerialAutodetect, OpenOutcome::Opened),
        SourceStep::Use(SourceChoice::SerialAutodetect)
    ));
    assert!(matches!(
        after_attempt(SourceChoice::GnssAutodetect, OpenOutcome::Opened),
        SourceStep::Use(SourceChoice::GnssAutodetect)
    ));
    assert!(matches!(
        after_attempt(SourceChoice::GnssAutodetect, OpenOutcome::NotFound),
        SourceStep::Exit(Fatal::SourceNotFound)
    ));
    assert!(matches!(
        after_attempt(SourceChoice::SerialAutodetect, OpenOutcome::Failed),
        SourceStep::Exit(Fatal::SourceOpen)
    ));
}

#[test]
fn bluetooth_address_cannot_be_opened() {
    let c = config(Some(DeviceID::MAC("00:11:22:33:44:55".to_string())));
    assert!(matches!(first_source_step(&c), SourceStep::Exit(Fatal::SourceOpen)));
}

#[test]
fn exit_codes_are_distinct() {
    let codes = [Fatal::SourceNotFound.exit_code(), Fatal::SourceOpen.exit_code(), Fatal::ListenerBind.exit_code()];
    assert_eq!(codes, [1, 3, 2]);
}

#[test]
fn usb_serial_drivers() {
    assert!(is_serial_candidate(Some("pl2303")));
    assert!(is_serial_candidate(Some("cdc_acm")));
    assert!(!is_serial_candidate(None));
    assert!(!is_serial_candidate(Some("ftdi_sio")));
    assert!(!is_serial_candidate(Some("pl2303x")));
}

#[test]
fn listener_plans() {
    let mut c = config(None);
    let plan = c.listener_plan("0.0.0.0".to_string());
    let tcp = plan.tcp.as_ref().unwrap();
    assert_eq!((tcp.ip.as_str(), tcp.port), ("0.0.0.0", 10110));
    assert!(plan.local_path.is_none());
    assert!(plan.announce);
    assert!(plan.serves_clients());

    c.no_tcp = true;
    c.socket_path = Some("/tmp/sock".to_string());
    let plan = c.listener_plan("0.0.0.0".to_string());
    assert!(plan.tcp.is_none());
    assert_eq!(plan.local_path.as_deref(), Some("/tmp/sock"));
    assert!(!plan.announce);
    assert!(plan.serves_clients());

    c.socket_path = None;
    assert!(!c.listener_plan("0.0.0.0".to_string()).serves_clients());
}

#[test]
fn announced_record() {
    let r = service_record(None, 10110);
    assert_eq!(r.interface, -1);
    assert_eq!(r.protocol, -1);
    assert_eq!(r.flags, 0);
    assert_eq!(r.name, "gps-share");
    assert_eq!(r.service_type, "_nmea-0183._tcp");
    assert_eq!(r.domain, "");
    assert_eq!(r.host, "");
    assert_eq!(r.port, 10110);
    assert_eq!(r.txt, vec!["accuracy=exact".to_string()]);
    assert_eq!(service_record(Some(3), 9314).interface, 3);
}

#[test]
fn autodetection_takes_first_verified_candidate() {
    assert_eq!(next_detect_step(None, false), DetectStep::NotFound);
    assert_eq!(next_detect_step(None, true), DetectStep::TryNext);
    assert_eq!(next_detect_step(Some(CandidateOutcome::Skipped), true), DetectStep::TryNext);
    assert_eq!(next_detect_step(Some(CandidateOutcome::OpenFailed), true), DetectStep::TryNext);
    assert_eq!(next_detect_step(Some(CandidateOutcome::Rejected), true), DetectStep::TryNext);
    assert_eq!(next_detect_step(Some(CandidateOutcome::Verified), true), DetectStep::Use);
    assert_eq!(next_detect_step(Some(CandidateOutcome::Verified), false), DetectStep::Use);
    assert_eq!(next_detect_step(Some(CandidateOutcome::Rejected), false), DetectStep::NotFound);
    assert_eq!(next_detect_step(Some(CandidateOutcome::OpenFailed), false), DetectStep::NotFound);
}

#[test]
fn autodetection_run_over_candidates() {
    // Candidates: an unknown driver, one that will not open, one that fails
    // the probe, one that passes, and one never reached.
    let outcomes = [
        CandidateOutcome::Skipped,
        CandidateOutcome::OpenFailed,
        CandidateOutcome::Rejected,
        CandidateOutcome::Verified,
        CandidateOutcome::Verified,
    ];
    let mut last = None;
    let mut tried = 0;
    let result = loop {
        match next_detect_step(last, tried < outcomes.len()) {
            DetectStep::TryNext => {
                last = Some(outcomes[tried]);
                tried += 1;
            }
            step => break step,
        }
    };
    assert_eq!((result, tried), (DetectStep::Use, 4));
}
