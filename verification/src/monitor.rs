//! The events monitors raise, and the network monitor's decisions: how a TCP
//! table row reads, which peers are skipped, beaconing per process and peer,
//! what a connection scores and the row stored for it.
use vstd::prelude::*;
use crate::beacon::{BeaconLog, recent};
use crate::detection::{allowlist_hit, blocking_hit};
use crate::records::{IocEntry, NetworkConnection, opt_string_view};
use crate::scoring::{ScoreFactors, calculate_score, score_of};
use crate::text::{decimal, digit, digit_char, str_eq, str_starts_with, string_of};

verus! {

/// Events emitted by monitors and consumed by the IPC layer / event log.
#[derive(Debug, Clone)]
pub enum MonitorEvent {
    FileThreat { path: String, score: u8, method: String },
    ProcessAlert { pid: u32, name: String, path: String, score: u8, flags: Vec<String> },
    NetworkAlert { pid: u32, remote_addr: String, remote_port: u16, score: u8 },
    RegistryAlert { key: String, value_name: String, details: String },
    RansomwareAlert { path: String, files_modified: u32 },
}

// ---------------------------------------------------------------------------
// Network
// ---------------------------------------------------------------------------

#[derive(Debug, Clone)]
pub struct ConnectionInfo {
    pub pid: u32,
    pub local_addr: String,
    pub local_port: u16,
    pub remote_addr: String,
    pub remote_port: u16,
    pub protocol: String,
    pub state: String,
}

fn decimal_small(n: u32) -> (r: Vec<char>)
    requires
        n < 256,
    ensures
        r@ == decimal(n as nat),
{
    let mut r: Vec<char> = Vec::new();
    if n >= 100 {
        r.push(digit(n / 100));
    }
    if n >= 10 {
        r.push(digit((n / 10) % 10));
    }
    r.push(digit(n % 10));
    proof {
        let q = (n / 10) as nat;
        if n >= 100 {
            assert(q / 10 == n / 100);
            assert(q % 10 == (n / 10) % 10);
            assert(q >= 10);
            assert(decimal(q) == decimal(q / 10) + seq![digit_char(q % 10)]);
            assert(decimal((n / 100) as nat) == seq![digit_char((n / 100) as nat)]);
        } else if n >= 10 {
            assert(q < 10);
            assert(decimal(q) == seq![digit_char(q)]);
        }
    }
    assert(r@ =~= decimal(n as nat));
    r
}

/// The dotted-quad rendering of an IPv4 address held in host byte order.
pub open spec fn ipv4_text(ip: u32) -> Seq<char> {
    decimal(((ip >> 24u32) & 0xFFu32) as nat) + "."@ + decimal(((ip >> 16u32) & 0xFFu32) as nat)
        + "."@ + decimal(((ip >> 8u32) & 0xFFu32) as nat) + "."@ + decimal((ip & 0xFFu32) as nat)
}

/// Render an IPv4 address held in host byte order as a dotted quad.
pub fn ip_u32_to_string(ip: u32) -> (r: String)
    ensures
        r@ == ipv4_text(ip),
{
    let a = (ip >> 24u32) & 0xFFu32;
    let b = (ip >> 16u32) & 0xFFu32;
    let c = (ip >> 8u32) & 0xFFu32;
    let d = ip & 0xFFu32;
    assert(a < 256 && b < 256 && c < 256 && d < 256) by (bit_vector)
        requires
            a == (ip >> 24u32) & 0xFFu32,
            b == (ip >> 16u32) & 0xFFu32,
            c == (ip >> 8u32) & 0xFFu32,
            d == ip & 0xFFu32,
    ;
    let mut v: Vec<char> = decimal_small(a);
    v.push('.');
    let mut vb = decimal_small(b);
    v.append(&mut vb);
    v.push('.');
    let mut vc = decimal_small(c);
    v.append(&mut vc);
    v.push('.');
    let mut vd = decimal_small(d);
    v.append(&mut vd);
    proof {
        reveal_strlit(".");
    }
    assert(v@ =~= ipv4_text(ip));
    string_of(v.as_slice())
}

/// A 32-bit value in network byte order read on a little-endian machine
/// (`u32::from_be` there): its bytes reversed.
pub open spec fn from_be32(v: u32) -> u32 {
    ((v & 0xFFu32) << 24u32) | ((v & 0xFF00u32) << 8u32) | ((v >> 8u32) & 0xFF00u32) | (v >> 24u32)
}

/// A 16-bit value in network byte order read on a little-endian machine
/// (`u16::from_be` there): its bytes swapped.
pub open spec fn from_be16(v: u16) -> u16 {
    ((v & 0xFFu16) << 8u16) | (v >> 8u16)
}

/// The name of a `MIB_TCP_STATE` value.
pub open spec fn tcp_state_name(state: u32) -> Seq<char> {
    if state == 1 {
        "CLOSED"@
    } else if state == 2 {
        "LISTENING"@
    } else if state == 3 {
        "SYN_SENT"@
    } else if state == 4 {
        "SYN_RECEIVED"@
    } else if state == 5 {
        "ESTABLISHED"@
    } else if state == 6 {
        "FIN_WAIT1"@
    } else if state == 7 {
        "FIN_WAIT2"@
    } else if state == 8 {
        "CLOSE_WAIT"@
    } else if state == 9 {
        "CLOSING"@
    } else if state == 10 {
        "LAST_ACK"@
    } else if state == 11 {
        "TIME_WAIT"@
    } else if state == 12 {
        "DELETE_TCB"@
    } else {
        "UNKNOWN"@
    }
}

/// Name a TCP connection state.
pub fn tcp_state_to_string(state: u32) -> (r: String)
    ensures
        r@ == tcp_state_name(state),
{
    let s = match state {
        1 => "CLOSED",
        2 => "LISTENING",
        3 => "SYN_SENT",
        4 => "SYN_RECEIVED",
        5 => "ESTABLISHED",
        6 => "FIN_WAIT1",
        7 => "FIN_WAIT2",
        8 => "CLOSE_WAIT",
        9 => "CLOSING",
        10 => "LAST_ACK",
        11 => "TIME_WAIT",
        12 => "DELETE_TCB",
        _ => "UNKNOWN",
    };
    String::from_str(s)
}

/// The connection a row of the TCP table (`MIB_TCPROW_OWNER_PID`) describes:
/// addresses and ports in network byte order, the port in the low 16 bits of
/// its field.
pub fn connection_from_row(
    pid: u32,
    local_addr: u32,
    local_port: u32,
    remote_addr: u32,
    remote_port: u32,
    state: u32,
) -> (r: ConnectionInfo)
    ensures
        r.pid == pid,
        r.local_addr@ == ipv4_text(from_be32(local_addr)),
        r.local_port == from_be16(local_port as u16),
        r.remote_addr@ == ipv4_text(from_be32(remote_addr)),
        r.remote_port == from_be16(remote_port as u16),
        r.protocol@ == "TCP"@,
        r.state@ == tcp_state_name(state),
{
    let la = ((local_addr & 0xFFu32) << 24u32) | ((local_addr & 0xFF00u32) << 8u32) | ((local_addr
        >> 8u32) & 0xFF00u32) | (local_addr >> 24u32);
    let ra = ((remote_addr & 0xFFu32) << 24u32) | ((remote_addr & 0xFF00u32) << 8u32) | ((
    remote_addr >> 8u32) & 0xFF00u32) | (remote_addr >> 24u32);
    let lp16 = local_port as u16;
    let rp16 = remote_port as u16;
    let lp = ((lp16 & 0xFFu16) << 8u16) | (lp16 >> 8u16);
    let rp = ((rp16 & 0xFFu16) << 8u16) | (rp16 >> 8u16);
    ConnectionInfo {
        pid,
        local_addr: ip_u32_to_string(la),
        local_port: lp,
        remote_addr: ip_u32_to_string(ra),
        remote_port: rp,
        protocol: String::from_str("TCP"),
        state: tcp_state_to_string(state),
    }
}

#[verifier::external_type_specification]
#[verifier::external_body]
pub struct ExInstant(std::time::Instant);

/// `std::time::Instant::now()`; nothing is stated of it.
#[verifier::external_body]
fn instant_now() -> std::time::Instant {
    std::time::Instant::now()
}

/// Nanoseconds from `origin` until now on the monotonic clock
/// (`Instant::elapsed`, as `i64`); nothing is stated of the value.
#[verifier::external_body]
fn nanos_since(origin: &std::time::Instant) -> i64 {
    origin.elapsed().as_nanos() as i64
}

/// Beaconing window of the network monitor: 60 seconds, in nanoseconds.
pub const MONITOR_BEACON_WINDOW_NANOS: i64 = 60_000_000_000;

/// Beaconing threshold of the network monitor.
pub const MONITOR_BEACON_THRESHOLD: usize = 10;

/// Tracks connection times per (pid, remote address) on the monotonic clock,
/// counted in nanoseconds since the tracker was made.
pub struct BeaconTracker {
    counts: BeaconLog,
    window: i64,
    threshold: usize,
    origin: std::time::Instant,
}

impl BeaconTracker {
    /// The tracker keeps the monitor's window and threshold.
    #[verifier::type_invariant]
    spec fn wf(self) -> bool {
        &&& self.window == MONITOR_BEACON_WINDOW_NANOS
        &&& self.threshold == MONITOR_BEACON_THRESHOLD
    }

    /// The connection times recorded for a process and remote address.
    pub closed spec fn times(self, pid: u32, remote: Seq<char>) -> Seq<i64> {
        self.counts.times(pid, remote)
    }

    /// A tracker with no recorded connections, its clock starting now.
    pub fn new() -> (r: BeaconTracker)
        ensures
            forall|pid: u32, remote: Seq<char>| #[trigger] r.times(pid, remote) == Seq::<i64>::empty(),
    {
        BeaconTracker {
            counts: BeaconLog::new(),
            window: MONITOR_BEACON_WINDOW_NANOS,
            threshold: MONITOR_BEACON_THRESHOLD,
            origin: instant_now(),
        }
    }

    /// Record a connection at monotonic time `now`, forgetting the key's times
    /// 60 seconds or more before it; true when more than 10 remain.
    pub fn record_at(&mut self, pid: u32, remote: &str, now: i64) -> (r: bool)
        ensures
            final(self).times(pid, remote@) == recent(
                old(self).times(pid, remote@),
                now,
                MONITOR_BEACON_WINDOW_NANOS as int,
            ).push(now),
            forall|p: u32, q: Seq<char>|
                !(p == pid && q == remote@) ==> #[trigger] final(self).times(p, q) == old(
                    self,
                ).times(p, q),
            r == (final(self).times(pid, remote@).len() > MONITOR_BEACON_THRESHOLD),
    {
        proof {
            use_type_invariant(&*self);
        }
        let w = self.window;
        let t = self.threshold;
        let mut counts = BeaconLog::new();
        std::mem::swap(&mut counts, &mut self.counts);
        let r = counts.record(pid, remote, now, w, t);
        self.counts = counts;
        r
    }

    /// Record a connection now (by the monotonic clock); true when more than 10
    /// connections of this key fall within the last 60 seconds.
    pub fn record(&mut self, pid: u32, remote: &str) -> (r: bool)
        ensures
            exists|now: i64|
                {
                    &&& #[trigger] final(self).times(pid, remote@) == recent(
                        old(self).times(pid, remote@),
                        now,
                        MONITOR_BEACON_WINDOW_NANOS as int,
                    ).push(now)
                    &&& r == (final(self).times(pid, remote@).len() > MONITOR_BEACON_THRESHOLD)
                },
            forall|p: u32, q: Seq<char>|
                !(p == pid && q == remote@) ==> #[trigger] final(self).times(p, q) == old(
                    self,
                ).times(p, q),
    {
        let now = nanos_since(&self.origin);
        self.record_at(pid, remote, now)
    }
}

/// The peer is the local host or unspecified, and is not examined.
pub open spec fn local_peer(remote: Seq<char>) -> bool {
    has_prefix_127(remote) || remote == "0.0.0.0"@ || remote == "::"@
}

/// The address begins with `127.`.
pub open spec fn has_prefix_127(remote: Seq<char>) -> bool {
    crate::text::has_prefix(remote, "127."@)
}

/// Whether a peer address is local (and skipped by the monitor).
pub fn is_local_peer(remote: &str) -> (r: bool)
    ensures
        r == local_peer(remote@),
{
    str_starts_with(remote, "127.") || str_eq(remote, "0.0.0.0") || str_eq(remote, "::")
}

/// Remote ports the network monitor treats as expected.
pub open spec fn monitor_common_ports() -> Seq<u16> {
    seq![80, 443, 8080, 8443, 53, 22, 25, 587, 465, 110, 143, 993, 995, 3389, 5985]
}

/// A remote port the network monitor treats as rare: not an expected one, and
/// well-known (below 1024, port 0 aside) or dynamic (above 49151).
pub open spec fn rare_remote_port(remote_port: u16) -> bool {
    !monitor_common_ports().contains(remote_port) && remote_port != 0 && (remote_port < 1024
        || remote_port > 49151)
}

/// The factors of one observed connection: an IOC hit on its peer, beaconing,
/// a rare remote port, and the allowlist mitigation when the peer is on a
/// warninglist.
pub open spec fn connection_factors_spec(hit: bool, allowlisted: bool, beaconing: bool, remote_port: u16) -> ScoreFactors {
    ScoreFactors {
        connection_to_ioc: hit,
        misp_allowlist: allowlisted,
        beaconing,
        rare_port_connection: rare_remote_port(remote_port),
        ..ScoreFactors::none()
    }
}

fn monitor_port_common(port: u16) -> (r: bool)
    ensures
        r == monitor_common_ports().contains(port),
{
    let list = vec![80u16, 443, 8080, 8443, 53, 22, 25, 587, 465, 110, 143, 993, 995, 3389, 5985];
    assert(list@ =~= monitor_common_ports());
    let mut i: usize = 0;
    while i < list.len()
        invariant
            i <= list.len(),
            list@ == monitor_common_ports(),
            forall|k: int| 0 <= k < i ==> list@[k] != port,
        decreases list.len() - i,
    {
        if list[i] == port {
            return true;
        }
        i += 1;
    }
    false
}

/// What the network monitor concludes about one connection.
#[derive(Debug)]
pub struct ConnectionAssessment {
    pub factors: ScoreFactors,
    pub score: u8,
    pub alert: Option<MonitorEvent>,
}

/// Assess one connection from its peer's cache lookup (IOC type `ip`) and the
/// beaconing verdict. A hit on a blocking entry sets `connection_to_ioc`; a hit
/// on an allowlist entry sets `misp_allowlist`. An alert is raised when the
/// score reaches the threshold.
pub fn assess_connection(
    conn: &ConnectionInfo,
    ioc_lookup: &Option<IocEntry>,
    beaconing: bool,
    alert_threshold: u8,
) -> (r: ConnectionAssessment)
    ensures
        r.factors == connection_factors_spec(
            blocking_hit(*ioc_lookup),
            allowlist_hit(*ioc_lookup),
            beaconing,
            conn.remote_port,
        ),
        r.score as int == score_of(r.factors),
        r.alert is Some <==> r.score >= alert_threshold,
        r.alert matches Some(MonitorEvent::NetworkAlert { pid, remote_addr, remote_port, score }) ==> {
            &&& pid == conn.pid
            &&& remote_addr@ == conn.remote_addr@
            &&& remote_port == conn.remote_port
            &&& score == r.score
        },
        r.alert is Some ==> r.alert->0 is NetworkAlert,
{
    let mut factors = ScoreFactors::default();
    match ioc_lookup {
        Some(e) => {
            if !e.is_allowlist {
                factors.connection_to_ioc = true;
            } else {
                factors.misp_allowlist = true;
            }
        },
        None => {},
    }
    if beaconing {
        factors.beaconing = true;
    }
    if !monitor_port_common(conn.remote_port) && conn.remote_port != 0 && (conn.remote_port < 1024
        || conn.remote_port > 49151) {
        factors.rare_port_connection = true;
    }
    let score = calculate_score(&factors);
    let alert = if score >= alert_threshold {
        Some(
            MonitorEvent::NetworkAlert {
                pid: conn.pid,
                remote_addr: conn.remote_addr.clone(),
                remote_port: conn.remote_port,
                score,
            },
        )
    } else {
        None
    };
    ConnectionAssessment { factors, score, alert }
}

/// The row stored for an observed connection.
pub fn connection_row(
    conn: &ConnectionInfo,
    process_name: Option<String>,
    score: u8,
    ioc_matched: bool,
    captured_at: String,
) -> (r: NetworkConnection)
    ensures
        r.id is None,
        r.captured_at == captured_at,
        r.pid == conn.pid as i64,
        r.process_name == process_name,
        opt_string_view(r.local_addr) == Some(conn.local_addr@),
        r.local_port == Some(conn.local_port as i64),
        opt_string_view(r.remote_addr) == Some(conn.remote_addr@),
        r.remote_port == Some(conn.remote_port as i64),
        opt_string_view(r.protocol) == Some(conn.protocol@),
        opt_string_view(r.state) == Some(conn.state@),
        r.score == score as i64,
        opt_string_view(r.ioc_match) == if ioc_matched {
            Some(conn.remote_addr@)
        } else {
            None
        },
        r.country is None,
        r.asn is None,
{
    NetworkConnection {
        id: None,
        captured_at,
        pid: conn.pid as i64,
        process_name,
        local_addr: Some(conn.local_addr.clone()),
        local_port: Some(conn.local_port as i64),
        remote_addr: Some(conn.remote_addr.clone()),
        remote_port: Some(conn.remote_port as i64),
        protocol: Some(conn.protocol.clone()),
        state: Some(conn.state.clone()),
        score: score as i64,
        ioc_match: if ioc_matched {
            Some(conn.remote_addr.clone())
        } else {
            None
        },
        country: None,
        asn: None,
    }
}

} // verus!
