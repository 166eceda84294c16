use mc_tunnel::bridge::{bridge_finished, bridge_started};
use mc_tunnel::stats::{build_stats_response, get_stats, tunnel_status_label, AppStats};

fn ip(s: &str) -> String {
    s.to_string()
}

#[test]
fn new_stats_are_empty() {
    let s = AppStats::new();
    assert_eq!(s.get_active_connections(), 0);
    assert_eq!(s.get_total_bytes_transferred(), 0);
    assert!(!s.get_tunnel_status());
    assert_eq!(s.get_peak_connections(), 0);
    assert_eq!(s.get_total_connections(), 0);
    assert!(s.get_active_ips().is_empty());
}

#[test]
fn opening_counts_player_and_lists_address_once() {
    let mut s = AppStats::new();
    s.connection_opened(ip("10.0.0.1"));
    s.connection_opened(ip("10.0.0.2"));
    s.connection_opened(ip("10.0.0.1"));
    assert_eq!(s.get_active_connections(), 3);
    assert_eq!(s.get_total_connections(), 3);
    assert_eq!(s.get_peak_connections(), 3);
    assert_eq!(s.get_active_ips(), vec![ip("10.0.0.1"), ip("10.0.0.2")]);
}

#[test]
fn closing_removes_address_and_keeps_peak() {
    let mut s = AppStats::new();
    s.connection_opened(ip("a"));
    s.connection_opened(ip("b"));
    s.connection_closed(ip("a"));
    assert_eq!(s.get_active_connections(), 1);
    assert_eq!(s.get_peak_connections(), 2);
    assert_eq!(s.get_total_connections(), 2);
    assert_eq!(s.get_active_ips(), vec![ip("b")]);
}

#[test]
fn closing_one_of_two_players_from_one_address_keeps_it_listed() {
    let mut s = AppStats::new();
    s.connection_opened(ip("1.1.1.1"));
    s.connection_opened(ip("1.1.1.1"));
    s.connection_closed(ip("1.1.1.1"));
    assert_eq!(s.get_active_connections(), 1);
    assert_eq!(s.get_active_ips(), vec![ip("1.1.1.1")]);
    s.connection_closed(ip("1.1.1.1"));
    assert_eq!(s.get_active_connections(), 0);
    assert!(s.get_active_ips().is_empty());
}

#[test]
fn three_players_from_two_addresses() {
    let mut s = AppStats::new();
    s.connection_opened(ip("192.168.1.50"));
    s.connection_opened(ip("10.0.0.12"));
    s.connection_opened(ip("192.168.1.50"));
    assert_eq!(s.get_active_connections(), 3);
    assert_eq!(s.get_active_ips(), vec![ip("192.168.1.50"), ip("10.0.0.12")]);
    s.connection_closed(ip("192.168.1.50"));
    assert_eq!(s.get_active_ips(), vec![ip("192.168.1.50"), ip("10.0.0.12")]);
    s.connection_closed(ip("10.0.0.12"));
    assert_eq!(s.get_active_ips(), vec![ip("192.168.1.50")]);
}

#[test]
fn closing_an_address_without_connections_keeps_the_list() {
    let mut s = AppStats::new();
    s.connection_opened(ip("a"));
    s.connection_opened(ip("b"));
    s.connection_closed(ip("c"));
    assert_eq!(s.get_active_connections(), 1);
    assert_eq!(s.get_active_ips(), vec![ip("a"), ip("b")]);
}

#[test]
fn counters_follow_a_history_of_calls() {
    let mut s = AppStats::new();
    let mut highest = 0usize;
    let script: [(&str, bool); 9] = [
        ("a", true), ("b", true), ("a", true), ("a", false), ("c", true),
        ("b", false), ("a", false), ("c", false), ("d", true),
    ];
    let mut opened = 0u64;
    for (addr, open) in script {
        if open {
            s.connection_opened(ip(addr));
            opened += 1;
        } else {
            s.connection_closed(ip(addr));
        }
        highest = highest.max(s.get_active_connections());
        assert!(s.get_active_ips().len() <= s.get_active_connections());
        assert!(s.get_active_connections() <= s.get_peak_connections());
        assert!(s.get_peak_connections() as u64 <= s.get_total_connections());
    }
    assert_eq!(s.get_active_connections(), 1);
    assert_eq!(s.get_total_connections(), opened);
    assert_eq!(s.get_peak_connections(), highest);
    assert_eq!(s.get_peak_connections(), 3);
    assert_eq!(s.get_active_ips(), vec![ip("d")]);
}

#[test]
fn connects_in_a_row_add_exactly_their_number() {
    let mut s = AppStats::new();
    s.connection_opened(ip("x"));
    s.connection_closed(ip("x"));
    for i in 0..5 {
        s.connection_opened(format!("10.0.0.{}", i));
    }
    assert_eq!(s.get_active_connections(), 5);
    assert_eq!(s.get_total_connections(), 6);
    assert_eq!(s.get_peak_connections(), 5);
    assert_eq!(s.get_active_ips().len(), 5);
}

#[test]
fn peak_follows_the_highest_count() {
    let mut s = AppStats::new();
    s.connection_opened(ip("a"));
    s.connection_closed(ip("a"));
    s.connection_opened(ip("b"));
    assert_eq!(s.get_peak_connections(), 1);
    s.connection_opened(ip("c"));
    assert_eq!(s.get_peak_connections(), 2);
}

#[test]
fn closing_with_no_players_wraps_the_counter() {
    let mut s = AppStats::new();
    s.connection_closed(ip("a"));
    assert_eq!(s.get_active_connections(), usize::MAX);
}

#[test]
fn bytes_accumulate_and_wrap() {
    let mut s = AppStats::new();
    s.add_bytes(100);
    s.add_bytes(23);
    assert_eq!(s.get_total_bytes_transferred(), 123);
    s.add_bytes(u64::MAX);
    assert_eq!(s.get_total_bytes_transferred(), 122);
}

#[test]
fn tunnel_status_is_recorded() {
    let mut s = AppStats::new();
    s.set_tunnel_status(true);
    assert!(s.get_tunnel_status());
    s.set_tunnel_status(false);
    assert!(!s.get_tunnel_status());
}

#[test]
fn status_words() {
    assert_eq!(tunnel_status_label(true), "connected");
    assert_eq!(tunnel_status_label(false), "disconnected");
}

#[test]
fn response_reports_every_counter() {
    let mut s = AppStats::new();
    s.connection_opened(ip("192.168.1.50"));
    s.connection_opened(ip("10.0.0.12"));
    s.add_bytes(15728640);
    s.set_tunnel_status(true);
    let r = build_stats_response(&s, 86400);
    assert_eq!(r.active_connections, 2);
    assert_eq!(r.total_bytes_transferred, 15728640);
    assert_eq!(r.tunnel_status, "connected");
    assert_eq!(r.uptime_secs, 86400);
    assert_eq!(r.peak_connections, 2);
    assert_eq!(r.total_connections, 2);
    assert_eq!(r.active_ips, vec![ip("192.168.1.50"), ip("10.0.0.12")]);
}

#[test]
fn live_response_reads_the_clock() {
    let s = AppStats::new();
    let r = get_stats(&s);
    assert_eq!(r.tunnel_status, "disconnected");
    assert_eq!(r.active_connections, 0);
    assert!(r.uptime_secs < 60);
}

#[test]
fn player_bridge_round_trip() {
    let mut s = AppStats::new();
    s.connection_opened(ip("b"));
    let player = Some(ip("a"));
    bridge_started(&mut s, &player);
    assert_eq!(s.get_active_connections(), 2);
    assert_eq!(s.get_active_ips(), vec![ip("b"), ip("a")]);
    bridge_finished(&mut s, player, Some((1000, 24)));
    assert_eq!(s.get_active_connections(), 1);
    assert_eq!(s.get_active_ips(), vec![ip("b")]);
    assert_eq!(s.get_total_bytes_transferred(), 1024);
    assert_eq!(s.get_total_connections(), 2);
    assert_eq!(s.get_peak_connections(), 2);
}

#[test]
fn failed_bridge_adds_no_bytes() {
    let mut s = AppStats::new();
    let player = Some(ip("a"));
    bridge_started(&mut s, &player);
    bridge_finished(&mut s, player, None);
    assert_eq!(s.get_total_bytes_transferred(), 0);
    assert_eq!(s.get_active_connections(), 0);
    assert_eq!(s.get_total_connections(), 1);
}

#[test]
fn tunnel_bridge_counts_bytes_only() {
    let mut s = AppStats::new();
    bridge_started(&mut s, &None);
    bridge_finished(&mut s, None, Some((5, 7)));
    assert_eq!(s.get_total_bytes_transferred(), 12);
    assert_eq!(s.get_active_connections(), 0);
    assert_eq!(s.get_total_connections(), 0);
}
