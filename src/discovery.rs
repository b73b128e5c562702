//! Learning which port a freshly started process listens on.
//!
//! The driver is told to bind whatever port the kernel hands out, so the port
//! is found by looking: the process's socket inodes, matched against the rows
//! of the connection table that are bound to the loopback address. A row is
//! only believed when its inode belongs to the process, so a port of some
//! other process is never taken. The looking is repeated until a row matches
//! or the time given for it has passed.

use vstd::prelude::*;

use crate::socket::socket_inodes;
use crate::socket::socket_inodes_of;
use crate::socket::FdEntry;
use crate::tcp::localhost;
use crate::tcp::parse_file;
use crate::tcp::table_entries;
use crate::tcp::Ipv4Addr;
use crate::tcp::LineError;
use crate::tcp::TcpEntry;

verus! {

/// How long to wait between two looks, in milliseconds.
pub const POLL_INTERVAL_MS: u64 = 1;

/// How long a process is given to bind its port, in milliseconds.
pub const DEFAULT_TIMEOUT_MS: u64 = 30_000;

/// What one look at the connection table found.
#[derive(Clone, Copy, Debug, PartialEq, Eq, Structural)]
pub enum Attempt {
    /// A loopback row of one of the process's sockets, with its port.
    Found(u16),
    /// The first row that could have matched could not be read.
    Malformed(LineError),
    /// No row matched.
    NotFound,
}

/// Whether a row stops the scan: a loopback row of one of the sockets
/// `inodes`, or a row that could not be read.
pub open spec fn is_candidate(inodes: Seq<u64>, row: Result<TcpEntry, LineError>) -> bool {
    match row {
        Ok(e) => inodes.contains(e.inode) && e.addr == localhost(),
        Err(_) => true,
    }
}

/// The outcome of scanning `table` from row `i` on.
pub open spec fn attempt_from(
    inodes: Seq<u64>,
    table: Seq<Result<TcpEntry, LineError>>,
    i: int,
) -> Attempt
    decreases table.len() - i,
{
    if i < 0 || i >= table.len() {
        Attempt::NotFound
    } else if is_candidate(inodes, table[i]) {
        match table[i] {
            Ok(e) => Attempt::Found(e.port),
            Err(l) => Attempt::Malformed(l),
        }
    } else {
        attempt_from(inodes, table, i + 1)
    }
}

/// The outcome of scanning the whole of `table` for the sockets `inodes`.
pub open spec fn spec_attempt(inodes: Seq<u64>, table: Seq<Result<TcpEntry, LineError>>) -> Attempt {
    attempt_from(inodes, table, 0)
}

fn contains(v: &Vec<u64>, x: u64) -> (r: bool)
    ensures
        r == v@.contains(x),
{
    let mut i: usize = 0;
    while i < v.len()
        invariant
            i <= v@.len(),
            forall|k: int| 0 <= k < i ==> v@[k] != x,
        decreases v@.len() - i,
    {
        if v[i] == x {
            return true;
        }
        i = i + 1;
    }
    false
}

/// Scans `table`, in order, for the first row that is bound to the loopback
/// address by one of the sockets `inodes`. A row that could not be read stops
/// the scan too, and makes the look a failed one.
pub fn find_port(inodes: &Vec<u64>, table: &Vec<Result<TcpEntry, LineError>>) -> (r: Attempt)
    ensures
        r == spec_attempt(inodes@, table@),
{
    let mut i: usize = 0;
    while i < table.len()
        invariant
            i <= table@.len(),
            spec_attempt(inodes@, table@) == attempt_from(inodes@, table@, i as int),
        decreases table@.len() - i,
    {
        match table[i] {
            Ok(e) => {
                if e.addr == Ipv4Addr::localhost() && contains(inodes, e.inode) {
                    return Attempt::Found(e.port);
                }
            },
            Err(l) => {
                return Attempt::Malformed(l);
            },
        }
        i = i + 1;
    }
    Attempt::NotFound
}

/// What to do after a look.
#[derive(Clone, Copy, Debug, PartialEq, Eq, Structural)]
pub enum DiscoveryStep {
    /// The process listens on this port.
    Found(u16),
    /// Look again after `delay_ms`; `malformed` tells why this look failed, if
    /// it did.
    Retry { delay_ms: u64, malformed: Option<LineError> },
    /// The process `pid` did not bind a loopback port in time.
    TimedOut { pid: u32 },
}

/// The step after a look that found `attempt`, `elapsed` milliseconds after
/// the first look at the process `pid`, which was given `timeout` of them.
pub open spec fn decide(pid: u32, timeout: u64, elapsed: u64, attempt: Attempt) -> DiscoveryStep {
    match attempt {
        Attempt::Found(port) => DiscoveryStep::Found(port),
        _ => if elapsed >= timeout {
            DiscoveryStep::TimedOut { pid }
        } else {
            DiscoveryStep::Retry {
                delay_ms: POLL_INTERVAL_MS,
                malformed: match attempt {
                    Attempt::Malformed(l) => Some(l),
                    _ => None,
                },
            }
        },
    }
}

/// The search for the port of one process.
#[derive(Clone, Copy, Debug)]
pub struct PortDiscovery {
    /// The process looked at.
    pub pid: u32,
    /// How long the process is given, in milliseconds.
    pub timeout_ms: u64,
    /// When the first look was taken, on the caller's clock.
    pub started_ms: Option<u64>,
}

/// The milliseconds from `start` to `now`; none when the clock went back.
pub open spec fn elapsed_since(start: u64, now: u64) -> u64 {
    if now >= start {
        (now - start) as u64
    } else {
        0
    }
}

impl PortDiscovery {
    /// A search for the port of the process `pid`, which gets `timeout_ms`
    /// from the first look on.
    pub fn new(pid: u32, timeout_ms: u64) -> (r: PortDiscovery)
        ensures
            r.pid == pid,
            r.timeout_ms == timeout_ms,
            r.started_ms is None,
    {
        PortDiscovery { pid, timeout_ms, started_ms: None }
    }

    /// When the look taken at `now` counts as started.
    pub open spec fn start_for(self, now: u64) -> u64 {
        match self.started_ms {
            Some(s) => s,
            None => now,
        }
    }

    /// Takes one look, at the time `now_ms` of the caller's clock: `fds` are
    /// the process's open file descriptors and `table` the text of its
    /// connection table. The time runs from the first look.
    pub fn observe(&mut self, now_ms: u64, fds: &Vec<FdEntry>, table: &[u8]) -> (r: DiscoveryStep)
        ensures
            final(self).pid == old(self).pid,
            final(self).timeout_ms == old(self).timeout_ms,
            final(self).started_ms == Some(old(self).start_for(now_ms)),
            r == decide(
                old(self).pid,
                old(self).timeout_ms,
                elapsed_since(old(self).start_for(now_ms), now_ms),
                spec_attempt(socket_inodes_of(fds@), table_entries(table@)),
            ),
    {
        let start = match self.started_ms {
            Some(s) => s,
            None => now_ms,
        };
        self.started_ms = Some(start);
        let elapsed = if now_ms >= start {
            now_ms - start
        } else {
            0
        };
        let inodes = socket_inodes(fds);
        let rows = parse_file(table);
        let attempt = find_port(&inodes, &rows);
        match attempt {
            Attempt::Found(port) => DiscoveryStep::Found(port),
            _ => if elapsed >= self.timeout_ms {
                DiscoveryStep::TimedOut { pid: self.pid }
            } else {
                DiscoveryStep::Retry {
                    delay_ms: POLL_INTERVAL_MS,
                    malformed: match attempt {
                        Attempt::Malformed(l) => Some(l),
                        _ => None,
                    },
                }
            },
        }
    }
}

/// A process that listens on the loopback address is found, on its port, by
/// any look: `table[i]` is a loopback row of one of its sockets, and no row
/// before it matches or is unreadable.
pub proof fn lemma_listener_is_found(
    pid: u32,
    timeout: u64,
    elapsed: u64,
    inodes: Seq<u64>,
    table: Seq<Result<TcpEntry, LineError>>,
    i: int,
)
    requires
        0 <= i < table.len(),
        table[i] matches Ok(e) && e.addr == localhost() && inodes.contains(e.inode),
        forall|j: int| 0 <= j < i ==> !is_candidate(inodes, #[trigger] table[j]),
    ensures
        spec_attempt(inodes, table) == Attempt::Found(table[i]->Ok_0.port),
        decide(pid, timeout, elapsed, spec_attempt(inodes, table)) == DiscoveryStep::Found(
            table[i]->Ok_0.port,
        ),
{
    lemma_scan_reaches(inodes, table, 0, i);
}

proof fn lemma_scan_reaches(
    inodes: Seq<u64>,
    table: Seq<Result<TcpEntry, LineError>>,
    from: int,
    i: int,
)
    requires
        0 <= from <= i < table.len(),
        forall|j: int| from <= j < i ==> !is_candidate(inodes, #[trigger] table[j]),
    ensures
        attempt_from(inodes, table, from) == attempt_from(inodes, table, i),
    decreases i - from,
{
    if from < i {
        lemma_scan_reaches(inodes, table, from + 1, i);
    }
}

proof fn lemma_scan_finds_nothing(
    inodes: Seq<u64>,
    table: Seq<Result<TcpEntry, LineError>>,
    from: int,
)
    requires
        0 <= from <= table.len(),
        forall|j: int| from <= j < table.len() ==> !is_candidate(inodes, #[trigger] table[j]),
    ensures
        attempt_from(inodes, table, from) == Attempt::NotFound,
    decreases table.len() - from,
{
    if from < table.len() {
        lemma_scan_finds_nothing(inodes, table, from + 1);
    }
}

/// A process with no loopback row among its sockets, in a table whose rows
/// all read, is looked at again until `timeout` has passed, and then the
/// search fails naming the process.
pub proof fn lemma_no_listener_times_out(
    pid: u32,
    timeout: u64,
    elapsed: u64,
    inodes: Seq<u64>,
    table: Seq<Result<TcpEntry, LineError>>,
)
    requires
        forall|j: int| 0 <= j < table.len() ==> !is_candidate(inodes, #[trigger] table[j]),
    ensures
        spec_attempt(inodes, table) == Attempt::NotFound,
        elapsed >= timeout ==> decide(pid, timeout, elapsed, spec_attempt(inodes, table))
            == (DiscoveryStep::TimedOut { pid }),
        elapsed < timeout ==> decide(pid, timeout, elapsed, spec_attempt(inodes, table))
            == (DiscoveryStep::Retry { delay_ms: POLL_INTERVAL_MS, malformed: None }),
{
    lemma_scan_finds_nothing(inodes, table, 0);
}

} // verus!
