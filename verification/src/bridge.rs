//! Accounting around one bridged connection.
//!
//! A bridge joins two sockets and copies bytes both ways until either side
//! closes. On the VPS the bridge serves a player, whose address is counted
//! while the bridge lasts; on the home side the bridge joins the data
//! channel to the Minecraft server and is not counted as a player.

use crate::stats::{AppStats, StatsModel};
use vstd::prelude::*;

verus! {

/// The characters of an optional address.
pub open spec fn address_view(ip: Option<String>) -> Option<Seq<char>> {
    match ip {
        Some(s) => Some(s@),
        None => None,
    }
}

/// The statistics once a bridge for `player` has started.
pub open spec fn bridge_started_model(m: StatsModel, player: Option<Seq<char>>) -> StatsModel {
    match player {
        Some(ip) => m.opened(ip),
        None => m,
    }
}

/// The statistics once a bridge for `player` has ended, having carried
/// `transferred` (bytes up, bytes down) when it closed cleanly.
pub open spec fn bridge_finished_model(
    m: StatsModel,
    player: Option<Seq<char>>,
    transferred: Option<(u64, u64)>,
) -> StatsModel {
    let counted = match transferred {
        Some((up, down)) => m.with_bytes((up + down) as u64),
        None => m,
    };
    match player {
        Some(ip) => counted.closed(ip),
        None => counted,
    }
}

/// Records that a bridge starts; a player's address is counted.
pub fn bridge_started(stats: &mut AppStats, player_ip: &Option<String>)
    requires
        player_ip is Some ==> old(stats)@.active_connections < usize::MAX,
    ensures
        final(stats)@ == bridge_started_model(old(stats)@, address_view(*player_ip)),
{
    if let Some(ip) = player_ip {
        stats.connection_opened(ip.clone());
    }
}

/// Records that a bridge ended. `transferred` is what the copy reported
/// (bytes from the first socket to the second, and back) when it ended
/// cleanly; after an error nothing is added.
pub fn bridge_finished(
    stats: &mut AppStats,
    player_ip: Option<String>,
    transferred: Option<(u64, u64)>,
)
    requires
        transferred matches Some((up, down)) ==> up + down <= u64::MAX,
    ensures
        final(stats)@ == bridge_finished_model(
            old(stats)@,
            address_view(player_ip),
            transferred,
        ),
{
    if let Some((up, down)) = transferred {
        stats.add_bytes(up + down);
    }
    if let Some(ip) = player_ip {
        stats.connection_closed(ip);
    }
}

/// A player's bridge that starts and then ends leaves the statistics as
/// they were, except that the connection is counted in the total and the
/// peak, and the bytes it carried are added.
pub proof fn lemma_bridge_accounting(m: StatsModel, ip: Seq<char>, up: u64, down: u64)
    requires
        m.wf(),
        m.active_connections < usize::MAX,
        up + down <= u64::MAX,
    ensures
        ({
            let r = bridge_finished_model(
                bridge_started_model(m, Some(ip)),
                Some(ip),
                Some((up, down)),
            );
            &&& r.active_connections == m.active_connections
            &&& r.open_ips == m.open_ips
            &&& r.active_ips() == m.active_ips()
            &&& r.total_connections == crate::stats::inc_u64(m.total_connections)
            &&& r.total_bytes_transferred == vstd::wrapping::u64_specs::wrapping_add(
                m.total_bytes_transferred,
                (up + down) as u64,
            )
            &&& r.peak_connections >= m.active_connections + 1
            &&& r.tunnel_connected == m.tunnel_connected
            &&& r.wf()
        }),
{
    crate::stats::lemma_open_close_round_trip(m, ip);
    let o = m.opened(ip);
    crate::stats::lemma_opened_keeps_wf(m, ip);
    assert(o.with_bytes((up + down) as u64).closed(ip).open_ips == o.closed(ip).open_ips);
}

/// A bridge on the home side, which serves no player, changes nothing but
/// the byte total.
pub proof fn lemma_tunnel_bridge_counts_bytes_only(m: StatsModel, transferred: Option<(u64, u64)>)
    ensures
        bridge_started_model(m, None) == m,
        bridge_finished_model(m, None, transferred).active_connections == m.active_connections,
        bridge_finished_model(m, None, transferred).open_ips == m.open_ips,
        bridge_finished_model(m, None, transferred).total_connections == m.total_connections,
        bridge_finished_model(m, None, transferred).peak_connections == m.peak_connections,
{
}

/// A player's bridge always ends the player's connection, whether the copy
/// ended cleanly or with an error (a reset is how players normally leave):
/// after it starts and ends, the players and their open connections are as
/// before it started, and only a clean end adds bytes.
pub proof fn lemma_player_bridge_always_closes(
    m: StatsModel,
    ip: Seq<char>,
    transferred: Option<(u64, u64)>,
)
    requires
        m.active_connections < usize::MAX,
        transferred matches Some((up, down)) ==> up + down <= u64::MAX,
    ensures
        ({
            let r = bridge_finished_model(bridge_started_model(m, Some(ip)), Some(ip), transferred);
            &&& r.active_connections == m.active_connections
            &&& r.open_ips == m.open_ips
            &&& r.active_ips() == m.active_ips()
            &&& r.tunnel_connected == m.tunnel_connected
            &&& transferred is None ==> r.total_bytes_transferred == m.total_bytes_transferred
            &&& transferred matches Some((up, down)) ==> (m.total_bytes_transferred + up + down
                <= u64::MAX ==> r.total_bytes_transferred == m.total_bytes_transferred + up + down)
        }),
        ({
            let s = bridge_started_model(m, Some(ip));
            &&& s.active_connections == m.active_connections + 1
            &&& s.active_ips().contains(ip)
        }),
{
    crate::stats::lemma_open_close_round_trip(m, ip);
    let o = m.opened(ip);
    match transferred {
        Some((up, down)) => {
            assert(o.with_bytes((up + down) as u64).closed(ip).open_ips == o.closed(ip).open_ips);
        },
        None => {},
    }
    crate::seqs::lemma_distinct(o.open_ips);
    crate::seqs::lemma_push_contains(m.open_ips, ip, ip);
}

} // verus!
