//! Choosing the line source at start-up.
//!
//! The sources are tried in a fixed order: standard input when the device is
//! named `-`, else the named device, else serial/USB autodetection, then GNSS
//! autodetection. Opening a source is the caller's work: it asks
//! [`first_source_step`] what to do, opens what it is told to try, and hands
//! the outcome to [`after_attempt`], until it is told which source to use or
//! to exit.
use vstd::prelude::*;
use crate::config::{Config, DeviceID};

verus! {

/// A line source the relay can read from.
pub enum SourceChoice {
    /// The process's standard input.
    Stdin,
    /// A serial device at this path.
    SerialDevice(String),
    /// A GNSS character device at this path.
    GnssDevice(String),
    /// The first USB serial device that passes the probe.
    SerialAutodetect,
    /// The first GNSS character device that passes the probe.
    GnssAutodetect,
}

/// What trying to open a source gave.
#[derive(Clone, Copy, Debug, PartialEq, Eq, Structural)]
pub enum OpenOutcome {
    /// The source is open and, for autodetection, verified.
    Opened,
    /// There is no such device, or autodetection found none.
    NotFound,
    /// The device exists but could not be opened or configured.
    Failed,
}

/// A condition that ends the process.
#[derive(Clone, Copy, Debug, PartialEq, Eq, Structural)]
pub enum Fatal {
    /// No GPS source could be found.
    SourceNotFound,
    /// The GPS source could not be opened.
    SourceOpen,
    /// A listener could not be bound.
    ListenerBind,
}

impl Fatal {
    pub open spec fn spec_exit_code(self) -> i32 {
        match self {
            Fatal::SourceNotFound => 1,
            Fatal::ListenerBind => 2,
            Fatal::SourceOpen => 3,
        }
    }

    /// The process exit status for this condition; each has its own, and
    /// none is 0.
    pub fn exit_code(&self) -> (code: i32)
        ensures
            code == self.spec_exit_code(),
            code != 0,
    {
        match self {
            Fatal::SourceNotFound => 1,
            Fatal::ListenerBind => 2,
            Fatal::SourceOpen => 3,
        }
    }
}

/// What the caller does next while choosing a source.
pub enum SourceStep {
    /// Try to open this source and report the outcome.
    Try(SourceChoice),
    /// Read from this source: it is open.
    Use(SourceChoice),
    /// Give up, ending the process with this condition.
    Exit(Fatal),
}

/// The name that selects standard input.
pub open spec fn stdin_sentinel() -> Seq<char> {
    seq!['-']
}

/// The first step for a configured device.
pub open spec fn first_step_spec(dev: Option<DeviceID>) -> SourceStep {
    match dev {
        None => SourceStep::Try(SourceChoice::SerialAutodetect),
        Some(DeviceID::Path(p)) => if p@ == stdin_sentinel() {
            SourceStep::Use(SourceChoice::Stdin)
        } else {
            SourceStep::Try(SourceChoice::SerialDevice(p))
        },
        Some(DeviceID::MAC(_)) => SourceStep::Exit(Fatal::SourceOpen),
    }
}

/// The step after trying `tried`: use it once open; when it was not found,
/// fall back from a serial device to a GNSS device at the same path, and from
/// serial autodetection to GNSS autodetection; exit otherwise.
pub open spec fn after_attempt_spec(tried: SourceChoice, outcome: OpenOutcome) -> SourceStep {
    match outcome {
        OpenOutcome::Opened => SourceStep::Use(tried),
        OpenOutcome::NotFound => match tried {
            SourceChoice::SerialDevice(p) => SourceStep::Try(SourceChoice::GnssDevice(p)),
            SourceChoice::SerialAutodetect => SourceStep::Try(SourceChoice::GnssAutodetect),
            _ => SourceStep::Exit(Fatal::SourceNotFound),
        },
        OpenOutcome::Failed => SourceStep::Exit(Fatal::SourceOpen),
    }
}

fn is_stdin_sentinel(p: &String) -> (r: bool)
    ensures
        r == (p@ == stdin_sentinel()),
{
    let dash = "-";
    proof {
        reveal_strlit("-");
    }
    let d = dash.to_string();
    assert(d@ =~= stdin_sentinel());
    *p == d
}

/// Where choosing a source starts for `config`: standard input when the
/// device is named `-` (no autodetection, no device setup), the named device
/// when there is one, and serial autodetection when none is named. A
/// Bluetooth address names a device this relay cannot open.
pub fn first_source_step(config: &Config) -> (step: SourceStep)
    ensures
        step == first_step_spec(config.dev_id),
{
    match &config.dev_id {
        None => SourceStep::Try(SourceChoice::SerialAutodetect),
        Some(DeviceID::Path(p)) => {
            if is_stdin_sentinel(p) {
                SourceStep::Use(SourceChoice::Stdin)
            } else {
                SourceStep::Try(SourceChoice::SerialDevice(p.clone()))
            }
        },
        Some(DeviceID::MAC(_)) => SourceStep::Exit(Fatal::SourceOpen),
    }
}

/// The step after trying to open `tried` (see [`after_attempt_spec`]).
pub fn after_attempt(tried: SourceChoice, outcome: OpenOutcome) -> (step: SourceStep)
    ensures
        step == after_attempt_spec(tried, outcome),
{
    match outcome {
        OpenOutcome::Opened => SourceStep::Use(tried),
        OpenOutcome::NotFound => match tried {
            SourceChoice::SerialDevice(p) => SourceStep::Try(SourceChoice::GnssDevice(p)),
            SourceChoice::SerialAutodetect => SourceStep::Try(SourceChoice::GnssAutodetect),
            _ => SourceStep::Exit(Fatal::SourceNotFound),
        },
        OpenOutcome::Failed => SourceStep::Exit(Fatal::SourceOpen),
    }
}

pub open spec fn pl2303() -> Seq<char> {
    seq!['p', 'l', '2', '3', '0', '3']
}

pub open spec fn cdc_acm() -> Seq<char> {
    seq!['c', 'd', 'c', '_', 'a', 'c', 'm']
}

/// Whether serial autodetection probes a USB TTY whose parent device is bound
/// to `driver`: only one of the known-good USB-serial drivers (`pl2303`,
/// `cdc_acm`) passes; a device that reports no driver does not.
pub open spec fn is_serial_candidate_spec(driver: Option<Seq<char>>) -> bool {
    match driver {
        None => false,
        Some(d) => d == pl2303() || d == cdc_acm(),
    }
}

/// Whether serial autodetection probes a USB TTY whose parent device is bound
/// to `driver` (see [`is_serial_candidate_spec`]).
pub fn is_serial_candidate(driver: Option<&str>) -> (r: bool)
    ensures
        r == is_serial_candidate_spec(
            match driver {
                Some(d) => Some(d@),
                None => None,
            },
        ),
{
    match driver {
        None => false,
        Some(d) => {
            proof {
                reveal_strlit("pl2303");
                reveal_strlit("cdc_acm");
            }
            let name = d.to_string();
            let a = "pl2303".to_string();
            let b = "cdc_acm".to_string();
            assert(a@ =~= pl2303());
            assert(b@ =~= cdc_acm());
            name == a || name == b
        },
    }
}

/// What trying one autodetection candidate gave.
#[derive(Clone, Copy, Debug, PartialEq, Eq, Structural)]
pub enum CandidateOutcome {
    /// The device opened and passed the probe.
    Verified,
    /// The device opened but failed the probe.
    Rejected,
    /// The device could not be opened or configured.
    OpenFailed,
    /// The device is not one autodetection considers.
    Skipped,
}

/// What the caller does next during autodetection.
#[derive(Clone, Copy, Debug, PartialEq, Eq, Structural)]
pub enum DetectStep {
    /// Use the candidate just tried.
    Use,
    /// Try the next candidate.
    TryNext,
    /// Give up: no candidate passed.
    NotFound,
}

/// The step after `last` (the outcome of the candidate just tried, `None`
/// before the first), where `more` says whether candidates remain: the first
/// candidate that passes wins, any other outcome moves on to the next one, and
/// running out of candidates means none was found.
pub open spec fn next_detect_step_spec(last: Option<CandidateOutcome>, more: bool) -> DetectStep {
    if last == Some(CandidateOutcome::Verified) {
        DetectStep::Use
    } else if more {
        DetectStep::TryNext
    } else {
        DetectStep::NotFound
    }
}

/// The next step of autodetection (see [`next_detect_step_spec`]).
pub fn next_detect_step(last: Option<CandidateOutcome>, more: bool) -> (step: DetectStep)
    ensures
        step == next_detect_step_spec(last, more),
{
    match last {
        Some(CandidateOutcome::Verified) => DetectStep::Use,
        _ => if more {
            DetectStep::TryNext
        } else {
            DetectStep::NotFound
        },
    }
}

} // verus!
