//! The verification probe run on each candidate device during autodetection:
//! a device is taken for a GPS receiver when one of the first lines it emits
//! looks like an NMEA-0183 sentence.
//!
//! The probe does no I/O itself. Whoever drives it reads a line from the
//! candidate while [`Probe::verdict`] asks for one, and hands the line (or the
//! read failure) to [`Probe::record`].
use vstd::prelude::*;
use vstd::utf8::encode_utf8;

verus! {

/// The fewest bytes a line needs to pass for a sentence.
pub const MIN_SENTENCE_LEN: usize = 15;

/// How many lines the probe reads before it gives up on a device.
pub const MAX_PROBE_READS: usize = 2;

/// A line that looks like an NMEA sentence from a GPS talker: at least
/// [`MIN_SENTENCE_LEN`] bytes long, starting with `$G`, and with a comma as
/// its seventh character (after the five-letter address).
pub open spec fn plausible_sentence(line: Seq<char>) -> bool {
    &&& encode_utf8(line).len() >= MIN_SENTENCE_LEN
    &&& line.len() > 6
    &&& line[0] == '$'
    &&& line[1] == 'G'
    &&& line[6] == ','
}

/// Whether `line` looks like an NMEA sentence (see [`plausible_sentence`]).
pub fn is_plausible_sentence(line: &str) -> (r: bool)
    ensures
        r == plausible_sentence(line@),
{
    if line.as_bytes().len() < MIN_SENTENCE_LEN {
        return false;
    }
    let mut first: Option<char> = None;
    let mut second: Option<char> = None;
    let mut seventh: Option<char> = None;
    let mut idx: usize = 0;
    for c in it: line.chars()
        invariant
            it.seq() == line@,
            idx == if it.index() < 7 { it.index() } else { 7 },
            first == if idx > 0 { Some(line@[0]) } else { None::<char> },
            second == if idx > 1 { Some(line@[1]) } else { None::<char> },
            seventh == if idx > 6 { Some(line@[6]) } else { None::<char> },
    {
        if idx == 0 {
            first = Some(c);
        } else if idx == 1 {
            second = Some(c);
        } else if idx == 6 {
            seventh = Some(c);
        }
        if idx < 7 {
            idx = idx + 1;
        }
    }
    first == Some('$') && second == Some('G') && seventh == Some(',')
}

/// What the probe asks of its driver.
#[derive(Clone, Copy, Debug, PartialEq, Eq, Structural)]
pub enum ProbeVerdict {
    /// Read one more line from the device and record it.
    ReadAnother,
    /// The device emits NMEA sentences.
    Accepted,
    /// The device is not a GPS receiver (or not one that talks NMEA).
    Rejected,
}

/// Whether some line read so far looks like a sentence. `None` stands for a
/// read that failed.
pub open spec fn saw_sentence(reads: Seq<Option<Seq<char>>>) -> bool {
    exists|i: int|
        0 <= i < reads.len() && (#[trigger] reads[i] matches Some(l) && plausible_sentence(l))
}

/// The probe's verdict once `reads` have been recorded.
pub open spec fn verdict_of(reads: Seq<Option<Seq<char>>>) -> ProbeVerdict {
    if saw_sentence(reads) {
        ProbeVerdict::Accepted
    } else if reads.len() >= MAX_PROBE_READS {
        ProbeVerdict::Rejected
    } else {
        ProbeVerdict::ReadAnother
    }
}

/// The state of one verification probe.
pub struct Probe {
    reads: usize,
    accepted: bool,
    seen: Ghost<Seq<Option<Seq<char>>>>,
}

impl View for Probe {
    type V = Seq<Option<Seq<char>>>;

    /// The lines recorded so far, in order.
    closed spec fn view(&self) -> Seq<Option<Seq<char>>> {
        self.seen@
    }
}

impl Probe {
    /// The probe's internal consistency: its counters agree with the lines
    /// recorded, of which there are at most [`MAX_PROBE_READS`].
    pub closed spec fn wf(&self) -> bool {
        &&& self.reads == self.seen@.len()
        &&& self.reads <= MAX_PROBE_READS
        &&& self.accepted == saw_sentence(self.seen@)
    }

    /// A probe that has read nothing yet.
    pub fn new() -> (p: Probe)
        ensures
            p.wf(),
            p@.len() == 0,
    {
        Probe { reads: 0, accepted: false, seen: Ghost(Seq::empty()) }
    }

    /// What the probe asks for next.
    pub fn verdict(&self) -> (v: ProbeVerdict)
        requires
            self.wf(),
        ensures
            v == verdict_of(self@),
    {
        if self.accepted {
            ProbeVerdict::Accepted
        } else if self.reads >= MAX_PROBE_READS {
            ProbeVerdict::Rejected
        } else {
            ProbeVerdict::ReadAnother
        }
    }

    /// Records the next line read from the device, or `None` when the read
    /// failed (a failed read uses up one of the probe's reads).
    pub fn record(&mut self, line: Option<&str>)
        requires
            old(self).wf(),
            verdict_of(old(self)@) == ProbeVerdict::ReadAnother,
        ensures
            final(self).wf(),
            final(self)@ == old(self)@.push(
                match line {
                    Some(l) => Some(l@),
                    None => None,
                },
            ),
    {
        let ghost item = match line {
            Some(l) => Some(l@),
            None => None::<Seq<char>>,
        };
        let ghost before = self.seen@;
        let hit = match line {
            Some(l) => is_plausible_sentence(l),
            None => false,
        };
        self.seen = Ghost(before.push(item));
        self.reads = self.reads + 1;
        self.accepted = hit;
        proof {
            let now = self.seen@;
            assert(now[before.len() as int] == item);
            if hit {
                assert(now[before.len() as int] matches Some(l) && plausible_sentence(l));
            } else {
                assert forall|i: int| 0 <= i < now.len() implies !(#[trigger] now[i] matches Some(
                    l,
                ) && plausible_sentence(l)) by {
                    if i < before.len() {
                        assert(now[i] == before[i]);
                    }
                }
            }
        }
    }
}

/// The probe reads at most [`MAX_PROBE_READS`] lines from a device, and it
/// accepts the device exactly when one of the lines it read looks like a
/// sentence: any run that only records while the probe asks for another line
/// stops within two reads, accepting if either line passed and rejecting
/// once two lines have failed.
pub proof fn lemma_probe_reads_at_most_two(reads: Seq<Option<Seq<char>>>)
    requires
        forall|k: int|
            0 <= k < reads.len() ==> verdict_of(#[trigger] reads.take(k))
                == ProbeVerdict::ReadAnother,
    ensures
        reads.len() <= MAX_PROBE_READS,
        verdict_of(reads) == ProbeVerdict::Accepted <==> saw_sentence(reads),
        reads.len() == MAX_PROBE_READS && !saw_sentence(reads) ==> verdict_of(reads)
            == ProbeVerdict::Rejected,
{
    if reads.len() > MAX_PROBE_READS {
        let p = reads.take(MAX_PROBE_READS as int);
        assert(verdict_of(p) == ProbeVerdict::ReadAnother);
        assert(p.len() == MAX_PROBE_READS);
    }
}

} // verus!
