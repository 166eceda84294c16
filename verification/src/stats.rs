//! Tunnel statistics shown on the dashboard.
//!
//! The program shares one `AppStats` between the tasks that serve players;
//! here it is an ordinary value whose updates are stated over `StatsModel`.

use std::time::Duration;
use std::time::Instant;
use vstd::prelude::*;
use vstd::string::StringExecFns;
use crate::seqs::{
    distinct, lemma_distinct, lemma_occurrences_contains, lemma_occurrences_push, lemma_without_last,
    lemma_without_last_at, occurrences, without_last,
};

verus! {

#[verifier::external_type_specification]
#[verifier::external_body]
pub struct ExInstant(Instant);

/// Reads the monotonic clock through `std::time::Instant::now`.
/// The result is the time of the call, so nothing is stated of it.
#[verifier::external_body]
fn instant_now() -> Instant {
    Instant::now()
}

/// `std::time::Instant::elapsed`: the time since `start`. It depends on the
/// clock, so nothing is stated of it.
#[verifier::external_body]
fn instant_elapsed(start: &Instant) -> Duration {
    start.elapsed()
}

/// `std::time::Duration::as_secs`: the whole seconds of `d`. The duration is
/// opaque here, so nothing is stated of the number.
#[verifier::external_body]
fn duration_as_secs(d: &Duration) -> u64 {
    d.as_secs()
}

/// The contents of a list of strings, each taken by its characters.
pub open spec fn string_views(v: Seq<String>) -> Seq<Seq<char>> {
    v.map_values(|s: String| s@)
}

/// One more, wrapping round as an atomic counter does.
pub open spec fn inc_u64(x: u64) -> u64 {
    vstd::wrapping::u64_specs::wrapping_add(x, 1)
}

/// The abstract state of the statistics.
pub struct StatsModel {
    pub active_connections: usize,
    pub total_bytes_transferred: u64,
    pub tunnel_connected: bool,
    pub start_time: Instant,
    pub peak_connections: usize,
    pub total_connections: u64,
    /// The address of every open player connection, oldest first; an
    /// address occurs once for each of its open connections.
    pub open_ips: Seq<Seq<char>>,
}

impl StatsModel {
    /// The addresses the dashboard lists: those with an open connection,
    /// each once, in the order of their oldest open connection.
    pub open spec fn active_ips(self) -> Seq<Seq<char>> {
        distinct(self.open_ips)
    }

    /// The peak is never below the current number of connections, and
    /// every connection counted as active has its address recorded.
    pub open spec fn wf(self) -> bool {
        &&& self.active_connections <= self.peak_connections
        &&& self.open_ips.len() == self.active_connections
    }

    /// A player from `ip` connects: one more active and one more in total,
    /// the peak follows the active count upwards, and the connection's
    /// address is recorded.
    pub open spec fn opened(self, ip: Seq<char>) -> StatsModel {
        let current = (self.active_connections + 1) as usize;
        StatsModel {
            active_connections: current,
            peak_connections: if current > self.peak_connections {
                current
            } else {
                self.peak_connections
            },
            total_connections: inc_u64(self.total_connections),
            open_ips: self.open_ips.push(ip),
            ..self
        }
    }

    /// A player from `ip` disconnects: one fewer active (wrapping below
    /// zero, as the atomic counter does), and one open connection from
    /// `ip` is no longer recorded; the address stays listed while another
    /// connection from it is open.
    pub open spec fn closed(self, ip: Seq<char>) -> StatsModel {
        StatsModel {
            active_connections: vstd::wrapping::usize_specs::wrapping_sub(
                self.active_connections,
                1,
            ),
            open_ips: without_last(self.open_ips, ip),
            ..self
        }
    }

    /// `bytes` more were carried through the tunnel (wrapping at 2^64).
    pub open spec fn with_bytes(self, bytes: u64) -> StatsModel {
        StatsModel {
            total_bytes_transferred: vstd::wrapping::u64_specs::wrapping_add(
                self.total_bytes_transferred,
                bytes,
            ),
            ..self
        }
    }

    /// The tunnel is now up or down.
    pub open spec fn with_tunnel(self, connected: bool) -> StatsModel {
        StatsModel { tunnel_connected: connected, ..self }
    }
}

/// Counters of the tunnel since the program started.
pub struct AppStats {
    active_connections: usize,
    total_bytes_transferred: u64,
    tunnel_connected: bool,
    start_time: Instant,
    peak_connections: usize,
    total_connections: u64,
    open_ips: Vec<String>,
}

impl View for AppStats {
    type V = StatsModel;

    closed spec fn view(&self) -> StatsModel {
        StatsModel {
            active_connections: self.active_connections,
            total_bytes_transferred: self.total_bytes_transferred,
            tunnel_connected: self.tunnel_connected,
            start_time: self.start_time,
            peak_connections: self.peak_connections,
            total_connections: self.total_connections,
            open_ips: string_views(self.open_ips@),
        }
    }
}

/// Whether `ip` occurs in `ips`.
fn list_contains(ips: &Vec<String>, ip: &String) -> (b: bool)
    ensures
        b == string_views(ips@).contains(ip@),
{
    let n = ips.len();
    for i in 0..n
        invariant
            n == ips@.len(),
            forall|j: int| 0 <= j < i ==> string_views(ips@)[j] != ip@,
    {
        if ips[i] == *ip {
            assert(string_views(ips@)[i as int] == ip@);
            return true;
        }
    }
    false
}

/// The index of the last entry of `ips` equal to `ip`, if any.
fn last_index_of(ips: &Vec<String>, ip: &String) -> (r: Option<usize>)
    ensures
        r matches Some(i) ==> i < ips@.len() && string_views(ips@)[i as int] == ip@ && forall|
            j: int,
        |
            i < j < ips@.len() ==> string_views(ips@)[j] != ip@,
        r is None ==> !string_views(ips@).contains(ip@),
{
    let mut k = ips.len();
    while k > 0
        invariant
            k <= ips@.len(),
            forall|j: int| k <= j < ips@.len() ==> string_views(ips@)[j] != ip@,
        decreases k,
    {
        k = k - 1;
        if ips[k] == *ip {
            return Some(k);
        }
    }
    None
}

/// The entries of `ips`, each once, in the order of their first occurrence.
fn distinct_list(ips: &Vec<String>) -> (r: Vec<String>)
    ensures
        string_views(r@) == distinct(string_views(ips@)),
{
    let mut r: Vec<String> = Vec::new();
    let n = ips.len();
    for i in 0..n
        invariant
            n == ips@.len(),
            string_views(r@) == distinct(string_views(ips@).take(i as int)),
    {
        let ghost views = string_views(ips@);
        assert(views.take(i + 1).drop_last() =~= views.take(i as int));
        assert(views.take(i + 1).last() == views[i as int]);
        if !list_contains(&r, &ips[i]) {
            let s = ips[i].clone();
            let ghost before = r@;
            r.push(s);
            assert(string_views(r@) =~= string_views(before).push(s@));
        }
    }
    assert(string_views(ips@).take(n as int) =~= string_views(ips@));
    r
}

impl AppStats {
    /// Fresh statistics: nothing counted, the tunnel down, the clock started.
    pub fn new() -> (s: Self)
        ensures
            s@.active_connections == 0,
            s@.total_bytes_transferred == 0,
            !s@.tunnel_connected,
            s@.peak_connections == 0,
            s@.total_connections == 0,
            s@.open_ips == Seq::<Seq<char>>::empty(),
            s@.wf(),
    {
        let s = AppStats {
            active_connections: 0,
            total_bytes_transferred: 0,
            tunnel_connected: false,
            start_time: instant_now(),
            peak_connections: 0,
            total_connections: 0,
            open_ips: Vec::new(),
        };
        assert(s@.open_ips =~= Seq::<Seq<char>>::empty());
        s
    }

    /// Players connected right now.
    pub fn get_active_connections(&self) -> (r: usize)
        ensures
            r == self@.active_connections,
    {
        self.active_connections
    }

    /// Bytes carried through finished bridges, in both directions.
    pub fn get_total_bytes_transferred(&self) -> (r: u64)
        ensures
            r == self@.total_bytes_transferred,
    {
        self.total_bytes_transferred
    }

    /// Whether a home client holds the control channel.
    pub fn get_tunnel_status(&self) -> (r: bool)
        ensures
            r == self@.tunnel_connected,
    {
        self.tunnel_connected
    }

    /// When the statistics were created.
    pub fn get_start_time(&self) -> (r: Instant)
        ensures
            r == self@.start_time,
    {
        self.start_time
    }

    /// The most players that were connected at once.
    pub fn get_peak_connections(&self) -> (r: usize)
        ensures
            r == self@.peak_connections,
    {
        self.peak_connections
    }

    /// Players that connected since the start.
    pub fn get_total_connections(&self) -> (r: u64)
        ensures
            r == self@.total_connections,
    {
        self.total_connections
    }

    /// The addresses of the connected players, each once, in the order of
    /// their oldest open connection.
    pub fn get_active_ips(&self) -> (r: Vec<String>)
        ensures
            string_views(r@) == self@.active_ips(),
    {
        distinct_list(&self.open_ips)
    }

    /// Records that a player from `ip` connected.
    pub fn connection_opened(&mut self, ip: String)
        requires
            old(self)@.active_connections < usize::MAX,
        ensures
            final(self)@ == old(self)@.opened(ip@),
            old(self)@.wf() ==> final(self)@.wf(),
    {
        let current = self.active_connections + 1;
        self.active_connections = current;
        self.total_connections = self.total_connections.wrapping_add(1);
        if current > self.peak_connections {
            self.peak_connections = current;
        }
        let ghost before = self.open_ips@;
        self.open_ips.push(ip);
        assert(string_views(self.open_ips@) =~= string_views(before).push(ip@));
    }

    /// Records that a player from `ip` disconnected.
    pub fn connection_closed(&mut self, ip: String)
        ensures
            final(self)@ == old(self)@.closed(ip@),
            old(self)@.wf() && old(self)@.open_ips.contains(ip@) ==> final(self)@.wf(),
    {
        proof {
            lemma_without_last(old(self)@.open_ips, ip@);
        }
        self.active_connections = self.active_connections.wrapping_sub(1);
        match last_index_of(&self.open_ips, &ip) {
            Some(i) => {
                let ghost before = self.open_ips@;
                proof {
                    lemma_without_last_at(string_views(before), ip@, i as int);
                }
                let _gone = self.open_ips.remove(i);
                assert(string_views(self.open_ips@) =~= string_views(before).remove(i as int));
            },
            None => {},
        }
    }

    /// Adds the bytes of a finished bridge to the total.
    pub fn add_bytes(&mut self, bytes: u64)
        ensures
            final(self)@ == old(self)@.with_bytes(bytes),
            old(self)@.wf() ==> final(self)@.wf(),
    {
        self.total_bytes_transferred = self.total_bytes_transferred.wrapping_add(bytes);
    }

    /// Records whether a home client holds the control channel.
    pub fn set_tunnel_status(&mut self, connected: bool)
        ensures
            final(self)@ == old(self)@.with_tunnel(connected),
            old(self)@.wf() ==> final(self)@.wf(),
    {
        self.tunnel_connected = connected;
    }
}

/// What the dashboard's `/api/stats` endpoint answers.
pub struct StatsResponse {
    pub active_connections: usize,
    pub total_bytes_transferred: u64,
    pub tunnel_status: String,
    pub uptime_secs: u64,
    pub peak_connections: usize,
    pub total_connections: u64,
    pub active_ips: Vec<String>,
}

/// The words the dashboard shows for the tunnel being up or down.
pub open spec fn tunnel_status_text(connected: bool) -> Seq<char> {
    if connected {
        "connected"@
    } else {
        "disconnected"@
    }
}

/// `r` reports the statistics `m`, with `uptime_secs` seconds since the start.
pub open spec fn reports(r: StatsResponse, m: StatsModel, uptime_secs: u64) -> bool {
    &&& r.active_connections == m.active_connections
    &&& r.total_bytes_transferred == m.total_bytes_transferred
    &&& r.tunnel_status@ == tunnel_status_text(m.tunnel_connected)
    &&& r.uptime_secs == uptime_secs
    &&& r.peak_connections == m.peak_connections
    &&& r.total_connections == m.total_connections
    &&& string_views(r.active_ips@) == m.active_ips()
}

/// The words for the tunnel status, as a string.
pub fn tunnel_status_label(connected: bool) -> (s: String)
    ensures
        s@ == tunnel_status_text(connected),
{
    if connected {
        String::from_str("connected")
    } else {
        String::from_str("disconnected")
    }
}

/// The answer for the statistics `stats` when `uptime_secs` seconds have
/// passed since they were created.
pub fn build_stats_response(stats: &AppStats, uptime_secs: u64) -> (r: StatsResponse)
    ensures
        reports(r, stats@, uptime_secs),
{
    StatsResponse {
        active_connections: stats.get_active_connections(),
        total_bytes_transferred: stats.get_total_bytes_transferred(),
        tunnel_status: tunnel_status_label(stats.get_tunnel_status()),
        uptime_secs,
        peak_connections: stats.get_peak_connections(),
        total_connections: stats.get_total_connections(),
        active_ips: stats.get_active_ips(),
    }
}

/// The answer for the statistics `stats` now: the uptime is read from the
/// clock, every other field from `stats`.
pub fn get_stats(stats: &AppStats) -> (r: StatsResponse)
    ensures
        reports(r, stats@, r.uptime_secs),
{
    let start = stats.get_start_time();
    let elapsed = instant_elapsed(&start);
    let uptime_secs = duration_as_secs(&elapsed);
    build_stats_response(stats, uptime_secs)
}

/// The listed addresses are exactly those with an open connection, each
/// once; with the statistics well formed, there are no more of them than
/// players connected.
pub proof fn lemma_listed_addresses(m: StatsModel)
    ensures
        m.active_ips().no_duplicates(),
        forall|ip: Seq<char>| #[trigger]
            m.active_ips().contains(ip) <==> occurrences(m.open_ips, ip) > 0,
        m.wf() ==> m.active_ips().len() <= m.active_connections,
{
    lemma_distinct(m.open_ips);
    assert forall|ip: Seq<char>| #[trigger]
        m.active_ips().contains(ip) <==> occurrences(m.open_ips, ip) > 0 by {
        lemma_occurrences_contains(m.open_ips, ip);
    }
}

/// A player connecting keeps the statistics well formed; its address is
/// then listed and has one more open connection.
pub proof fn lemma_opened_keeps_wf(m: StatsModel, ip: Seq<char>)
    requires
        m.wf(),
        m.active_connections < usize::MAX,
    ensures
        m.opened(ip).wf(),
        m.opened(ip).active_ips().contains(ip),
        occurrences(m.opened(ip).open_ips, ip) == occurrences(m.open_ips, ip) + 1,
{
    lemma_occurrences_push(m.open_ips, ip, ip);
    lemma_listed_addresses(m.opened(ip));
}

/// A player from `ip` disconnecting while a connection from `ip` is open
/// keeps the statistics well formed; `ip` has one open connection fewer and
/// stays listed exactly when another of its connections is still open.
pub proof fn lemma_closed_keeps_wf(m: StatsModel, ip: Seq<char>)
    requires
        m.wf(),
        m.open_ips.contains(ip),
    ensures
        m.closed(ip).wf(),
        m.closed(ip).active_connections == m.active_connections - 1,
        occurrences(m.closed(ip).open_ips, ip) == occurrences(m.open_ips, ip) - 1,
        m.closed(ip).active_ips().contains(ip) <==> occurrences(m.open_ips, ip) > 1,
        forall|other: Seq<char>|
            other != ip ==> (#[trigger] m.closed(ip).active_ips().contains(other)
                <==> m.active_ips().contains(other)),
{
    lemma_without_last(m.open_ips, ip);
    lemma_listed_addresses(m);
    lemma_listed_addresses(m.closed(ip));
    assert(occurrences(without_last(m.open_ips, ip), ip) == occurrences(m.open_ips, ip) - 1);
    assert forall|other: Seq<char>|
        other != ip implies (#[trigger] m.closed(ip).active_ips().contains(other)
            <==> m.active_ips().contains(other)) by {
        assert(occurrences(without_last(m.open_ips, ip), other) == occurrences(m.open_ips, other));
    }
}

/// A player who connects and then leaves restores the number of players
/// and the open connections (so the listed addresses too); the connection
/// stays counted in the total and in the peak.
pub proof fn lemma_open_close_round_trip(m: StatsModel, ip: Seq<char>)
    requires
        m.active_connections < usize::MAX,
    ensures
        m.opened(ip).closed(ip).active_connections == m.active_connections,
        m.opened(ip).closed(ip).open_ips == m.open_ips,
        m.opened(ip).closed(ip).active_ips() == m.active_ips(),
        m.opened(ip).closed(ip).total_connections == inc_u64(m.total_connections),
        m.opened(ip).closed(ip).total_bytes_transferred == m.total_bytes_transferred,
        m.opened(ip).closed(ip).tunnel_connected == m.tunnel_connected,
        m.opened(ip).closed(ip).peak_connections >= m.active_connections + 1,
        m.opened(ip).closed(ip).peak_connections >= m.peak_connections,
{
    assert(m.open_ips.push(ip).drop_last() =~= m.open_ips);
}

/// No update lowers the peak, and none but a connecting player changes the
/// number of connections counted in total.
pub proof fn lemma_peak_never_decreases(m: StatsModel, ip: Seq<char>, bytes: u64, up: bool)
    ensures
        m.opened(ip).peak_connections >= m.peak_connections,
        m.closed(ip).peak_connections == m.peak_connections,
        m.with_bytes(bytes).peak_connections == m.peak_connections,
        m.with_tunnel(up).peak_connections == m.peak_connections,
        m.closed(ip).total_connections == m.total_connections,
        m.with_bytes(bytes).total_connections == m.total_connections,
        m.with_tunnel(up).total_connections == m.total_connections,
{
}

/// Recording the tunnel status stores exactly the status given, whatever
/// the counters are, and touches nothing else.
pub proof fn lemma_tunnel_status_is_recorded(m: StatsModel, up: bool)
    ensures
        m.with_tunnel(up).tunnel_connected == up,
        m.with_tunnel(up).active_connections == m.active_connections,
        m.with_tunnel(up).open_ips == m.open_ips,
        m.with_tunnel(up).peak_connections == m.peak_connections,
        m.with_tunnel(up).total_connections == m.total_connections,
        m.with_tunnel(up).total_bytes_transferred == m.total_bytes_transferred,
        m.with_tunnel(up).start_time == m.start_time,
        m.with_tunnel(up).with_tunnel(!up).tunnel_connected == !up,
{
}

/// Adding bytes adds exactly that many to the byte total (modulo 2^64) and
/// touches nothing else; connecting and disconnecting leave the byte total
/// and the tunnel status alone.
pub proof fn lemma_bytes_are_added(m: StatsModel, bytes: u64, ip: Seq<char>)
    ensures
        m.total_bytes_transferred + bytes <= u64::MAX ==> m.with_bytes(bytes).total_bytes_transferred
            == m.total_bytes_transferred + bytes,
        m.total_bytes_transferred + bytes > u64::MAX ==> m.with_bytes(bytes).total_bytes_transferred
            == m.total_bytes_transferred + bytes - 0x1_0000_0000_0000_0000,
        m.with_bytes(bytes).active_connections == m.active_connections,
        m.with_bytes(bytes).open_ips == m.open_ips,
        m.with_bytes(bytes).tunnel_connected == m.tunnel_connected,
        m.opened(ip).total_bytes_transferred == m.total_bytes_transferred,
        m.opened(ip).tunnel_connected == m.tunnel_connected,
        m.closed(ip).total_bytes_transferred == m.total_bytes_transferred,
        m.closed(ip).tunnel_connected == m.tunnel_connected,
{
}

} // verus!
