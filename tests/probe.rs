use gps_share::probe::{is_plausible_sentence, Probe, ProbeVerdict};

/// Runs the probe over a simulated device stream; `None` is a failed read.
/// Returns the verdict and how many reads the probe asked for.
fn run(stream: &[Option<&str>]) -> (ProbeVerdict, usize) {
    let mut probe = Probe::new();
    let mut reads = 0;
    while probe.verdict() == ProbeVerdict::ReadAnother {
        let line = stream.get(reads).copied().flatten();
        probe.record(line);
        reads += 1;
    }
    (probe.verdict(), reads)
}

#[test]
fn nmea_stream_is_accepted() {
    let stream = [
        Some("$GPVTG,0.0,T,,M,0.0,N,0.0,K,A*0D\n"),
        Some("$GPGLL,5744.4784,N,01201.6130,E,122731.00,A,A*66\n"),
    ];
    assert_eq!(run(&stream), (ProbeVerdict::Accepted, 1));
}

#[test]
fn unrelated_text_is_rejected_after_two_reads() {
    let stream = [
        Some("hello, this is not a GPS\n"),
        Some("login: \n"),
        Some("$GPVTG,0.0,T,,M,0.0,N,0.0,K,A*0D\n"),
    ];
    assert_eq!(run(&stream), (ProbeVerdict::Rejected, 2));
}

#[test]
fn second_line_can_accept() {
    let stream = [Some("garbage\n"), Some("$GNGGA,122732.000,5744.4784,N*62\n")];
    assert_eq!(run(&stream), (ProbeVerdict::Accepted, 2));
}

#[test]
fn failed_reads_count_as_probe_reads() {
    let stream = [None, None, Some("$GPVTG,0.0,T,,M,0.0,N,0.0,K,A*0D\n")];
    assert_eq!(run(&stream), (ProbeVerdict::Rejected, 2));
    let stream = [None, Some("$GPVTG,0.0,T,,M,0.0,N,0.0,K,A*0D\n")];
    assert_eq!(run(&stream), (ProbeVerdict::Accepted, 2));
}

#[test]
fn sentence_checks() {
    assert!(is_plausible_sentence("$GPVTG,0.0,T,,M,0.0,N,0.0,K,A*0D\n"));
    assert!(is_plausible_sentence("$GPGGA,12345678"));
    // Fourteen bytes is one too few.
    assert!(!is_plausible_sentence("$GPGGA,1234567"));
    // Another talker than a GPS.
    assert!(!is_plausible_sentence("$PUBX,00,081350.00,4717.113210,N*5B\n"));
    assert!(!is_plausible_sentence("GPGGA,122732.000,5744.4784\n"));
    // No comma after the address.
    assert!(!is_plausible_sentence("$GPGGAX122732.000,5744.4784\n"));
    assert!(!is_plausible_sentence(""));
}

#[test]
fn sentence_length_counts_bytes() {
    // Eleven characters, sixteen bytes: "é" takes two bytes and "€" three.
    assert!(is_plausible_sentence("$GPGGA,ééé€"));
    // Fourteen bytes in ten characters is too short.
    assert!(!is_plausible_sentence("$GPGGA,éé€"));
    // The seventh character, not the seventh byte, must be the comma.
    assert!(!is_plausible_sentence("$GéAB,CDEFGHIJKLMN"));
    assert!(is_plausible_sentence("$GéABC,DEFGHIJKLM"));
}
