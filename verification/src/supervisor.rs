//! Supervisor state and lifecycle: the single shared record of the
//! subordinate process (its identifier and its discovered port), the
//! lifecycle transitions around it, and the synchronous queries the host
//! asks of it. The caller owns process handles, pipes and threads; every
//! decision about the recorded state is made here.

use vstd::prelude::*;
use vstd::string::*;
use crate::decimal::{dec_str, u16_dec};
use crate::discovery::{announced_port, announcement_line, lemma_announcement_roundtrip,
    scan_line, well_formed, ScanResult};
use crate::FALLBACK_PORT;

verus! {

/// Where the lifecycle controller stands.
#[derive(Debug, Clone, Copy, PartialEq, Eq, Structural)]
pub enum Phase {
    /// Initial: nothing located, nothing launched.
    Idle,
    /// Locator and launcher are being invoked.
    Starting,
    /// A child process is recorded and its streams are monitored.
    Running,
    /// Terminal: the child has been told to stop and its handle cleared.
    Stopped,
}

/// Snapshot answered to a `get_server_info` query, built fresh on each
/// call.
#[derive(Debug, Clone, Copy, PartialEq, Eq)]
pub struct ServerInfo {
    pub port: Option<u16>,
    pub pid: Option<u32>,
}

/// The supervisor's shared state: lifecycle phase, the identifier of the
/// recorded child process, and the port discovered on its output.
pub struct Supervisor {
    pub phase: Phase,
    pub pid: Option<u32>,
    pub port: Option<u16>,
}

/// The base URL the host is given: the fixed prefix followed by the
/// discovered port, or by the fallback port before any discovery.
pub open spec fn api_url_spec(port: Option<u16>) -> Seq<char> {
    match port {
        Some(p) => "http://localhost:"@ + dec_str(p as int),
        None => "http://localhost:"@ + dec_str(FALLBACK_PORT as int),
    }
}

/// The port recorded after one standard-output line is handled: the
/// first well-formed announcement wins, everything else changes nothing.
pub open spec fn scan_port_after(port: Option<u16>, line: Seq<char>) -> Option<u16> {
    if port is None && well_formed(line) {
        Some(announced_port(line))
    } else {
        port
    }
}

/// The ready notification emitted for one standard-output line: exactly
/// the first well-formed announcement emits one, carrying its port.
pub open spec fn scan_emits(port: Option<u16>, line: Seq<char>) -> Option<u16> {
    if port is None && well_formed(line) {
        Some(announced_port(line))
    } else {
        None
    }
}

impl Supervisor {
    /// The state invariant: exactly the running phase holds a recorded
    /// process, and no port can be on record before a launch.
    pub open spec fn wf(self) -> bool {
        &&& (self.phase is Running <==> self.pid is Some)
        &&& ((self.phase is Idle || self.phase is Starting) ==> self.port is None)
    }

    /// The state every supervisor starts from.
    pub open spec fn initial() -> Supervisor {
        Supervisor { phase: Phase::Idle, pid: None, port: None }
    }

    /// The state left behind by a stop request: the handle is cleared,
    /// the phase is terminal, a discovered port stays on record.
    pub open spec fn after_stop(s: Supervisor) -> Supervisor {
        Supervisor { phase: Phase::Stopped, pid: None, port: s.port }
    }

    /// A fresh supervisor: idle, no process, no port.
    pub fn new() -> (s: Supervisor)
        ensures
            s == Supervisor::initial(),
            s.wf(),
    {
        Supervisor { phase: Phase::Idle, pid: None, port: None }
    }

    /// Enters the starting phase, in which the locator and launcher run.
    /// The supervisor is single-instance: only an idle one may start.
    pub fn begin_start(&mut self)
        requires
            old(self).wf(),
            old(self).phase is Idle,
        ensures
            final(self).wf(),
            *final(self) == (Supervisor { phase: Phase::Starting, ..*old(self) }),
    {
        self.phase = Phase::Starting;
    }

    /// Records the freshly launched child process and enters the running
    /// phase.
    pub fn on_spawned(&mut self, pid: u32)
        requires
            old(self).wf(),
            old(self).phase is Starting,
        ensures
            final(self).wf(),
            *final(self) == (Supervisor { phase: Phase::Running, pid: Some(pid), ..*old(self) }),
            final(self).port == old(self).port,
    {
        self.phase = Phase::Running;
        self.pid = Some(pid);
    }

    /// Records a discovered port, first writer wins: a port already on
    /// record is never overwritten. Returns whether this call set it.
    pub fn set_port_once(&mut self, port: u16) -> (was_set: bool)
        ensures
            was_set == (old(self).port is None),
            final(self).port == (if old(self).port is None { Some(port) } else { old(self).port }),
            final(self).phase == old(self).phase,
            final(self).pid == old(self).pid,
    {
        if self.port.is_none() {
            self.port = Some(port);
            true
        } else {
            false
        }
    }

    /// Handles one line of the child's standard output. Until a port is
    /// discovered, the line is scanned for the announcement; the first
    /// well-formed one records its port and returns it as the one ready
    /// notification to publish to the host. After that, lines are no
    /// longer inspected. Malformed announcements and ordinary log lines
    /// change nothing.
    pub fn handle_stdout_line(&mut self, line: &str) -> (ready: Option<u16>)
        requires
            old(self).wf(),
            old(self).phase is Running || old(self).phase is Stopped,
        ensures
            final(self).wf(),
            final(self).phase == old(self).phase,
            final(self).pid == old(self).pid,
            final(self).port == scan_port_after(old(self).port, line@),
            ready == scan_emits(old(self).port, line@),
    {
        if self.port.is_some() {
            return None;
        }
        match scan_line(line) {
            ScanResult::Announced(p) => {
                self.set_port_once(p);
                Some(p)
            },
            ScanResult::Malformed => None,
            ScanResult::NoMatch => None,
        }
    }

    /// Requests a stop: the recorded handle is cleared and the phase
    /// becomes terminal, whether or not anything was ever started. The
    /// caller signals and reaps the operating-system process itself.
    pub fn stop(&mut self)
        ensures
            final(self).wf(),
            *final(self) == Supervisor::after_stop(*old(self)),
    {
        self.phase = Phase::Stopped;
        self.pid = None;
    }

    /// The discovered port, if any.
    pub fn get_port(&self) -> (p: Option<u16>)
        ensures
            p == self.port,
    {
        self.port
    }

    /// A fresh snapshot of the discovered port and the recorded process
    /// identifier.
    pub fn get_server_info(&self) -> (info: ServerInfo)
        ensures
            info.port == self.port,
            info.pid == self.pid,
    {
        ServerInfo { port: self.port, pid: self.pid }
    }

    /// The base URL for the server's API: built from the discovered
    /// port, or from the fallback port while none is discovered.
    pub fn get_api_url(&self) -> (r: String)
        ensures
            r@ == api_url_spec(self.port),
    {
        let p: u16 = match self.port {
            Some(p) => p,
            None => FALLBACK_PORT,
        };
        let digits = u16_dec(p);
        let r = String::from_str("http://localhost:").concat(digits.as_str());
        r
    }
}

/// A well-formed announcement is published exactly once: from an
/// undiscovered state it records its port and emits one ready
/// notification, and whatever line follows emits nothing and leaves the
/// recorded port as it is.
pub proof fn lemma_ready_emitted_once(l1: Seq<char>, l2: Seq<char>)
    requires
        well_formed(l1),
    ensures
        scan_port_after(Option::<u16>::None, l1) == Some(announced_port(l1)),
        scan_emits(Option::<u16>::None, l1) == Some(announced_port(l1)),
        scan_emits(scan_port_after(Option::<u16>::None, l1), l2) is None,
        scan_port_after(scan_port_after(Option::<u16>::None, l1), l2)
            == scan_port_after(Option::<u16>::None, l1),
{
}

/// For every 16-bit port, the canonical announcement line records that
/// port and emits that port's ready notification, once; any later line
/// emits nothing more.
pub proof fn lemma_discovery_publishes_once(port: u16, later: Seq<char>)
    ensures
        scan_port_after(Option::<u16>::None, announcement_line(port)) == Some(port),
        scan_emits(Option::<u16>::None, announcement_line(port)) == Some(port),
        scan_emits(scan_port_after(Option::<u16>::None, announcement_line(port)), later) is None,
        scan_port_after(scan_port_after(Option::<u16>::None, announcement_line(port)), later)
            == Some(port),
{
    lemma_announcement_roundtrip(port);
    lemma_ready_emitted_once(announcement_line(port), later);
}

/// A line that is not a well-formed announcement — malformed suffix,
/// out-of-range number, or no sentinel at all — changes no recorded
/// port and emits no ready notification, whatever is on record.
pub proof fn lemma_malformed_no_discovery(port: Option<u16>, line: Seq<char>)
    requires
        !well_formed(line),
    ensures
        scan_port_after(port, line) == port,
        scan_emits(port, line) is None,
{
}

/// Stop is idempotent: stopping a stopped supervisor changes nothing,
/// and stopping one that never started leaves the initial record with
/// only the phase made terminal.
pub proof fn lemma_stop_idempotent(s: Supervisor)
    ensures
        Supervisor::after_stop(Supervisor::after_stop(s)) == Supervisor::after_stop(s),
        Supervisor::after_stop(s).pid is None,
        Supervisor::after_stop(Supervisor::initial()).port is None,
{
}

} // verus!
