//! What the statistics say after a whole sequence of updates.
//!
//! Each method of `AppStats` changes its view by one step of `StatsModel`
//! (`opened`, `closed`, `with_bytes`, `with_tunnel`); `run` applies a
//! sequence of such steps, so these laws hold of any sequence of calls.

use crate::seqs::{
    lemma_occurrences_concat, lemma_occurrences_contains, lemma_occurrences_push,
    lemma_without_last, occurrences,
};
use crate::stats::{lemma_listed_addresses, StatsModel};
use vstd::prelude::*;

verus! {

/// One update of the statistics.
pub enum StatsOp {
    /// `connection_opened` for a player from this address.
    Open(Seq<char>),
    /// `connection_closed` for a player from this address.
    Close(Seq<char>),
    /// `add_bytes` with this many bytes.
    Bytes(u64),
    /// `set_tunnel_status` with this status.
    Tunnel(bool),
}

/// The statistics after the update `op`.
pub open spec fn apply(m: StatsModel, op: StatsOp) -> StatsModel {
    match op {
        StatsOp::Open(ip) => m.opened(ip),
        StatsOp::Close(ip) => m.closed(ip),
        StatsOp::Bytes(b) => m.with_bytes(b),
        StatsOp::Tunnel(up) => m.with_tunnel(up),
    }
}

/// The statistics after the updates `ops`, in order.
pub open spec fn run(m: StatsModel, ops: Seq<StatsOp>) -> StatsModel
    decreases ops.len(),
{
    if ops.len() == 0 {
        m
    } else {
        apply(run(m, ops.drop_last()), ops.last())
    }
}

/// Every update in `ops` is one the program makes: a player connects only
/// while the count of players can grow, and a player disconnects only from
/// an address that has an open connection.
pub open spec fn matched(m: StatsModel, ops: Seq<StatsOp>) -> bool
    decreases ops.len(),
{
    if ops.len() == 0 {
        true
    } else {
        let before = run(m, ops.drop_last());
        &&& matched(m, ops.drop_last())
        &&& match ops.last() {
            StatsOp::Open(_) => before.active_connections < usize::MAX,
            StatsOp::Close(ip) => before.open_ips.contains(ip),
            _ => true,
        }
    }
}

/// How many players from `ip` connected in `ops`.
pub open spec fn opens_of(ops: Seq<StatsOp>, ip: Seq<char>) -> nat
    decreases ops.len(),
{
    if ops.len() == 0 {
        0
    } else {
        opens_of(ops.drop_last(), ip) + if ops.last() == StatsOp::Open(ip) {
            1nat
        } else {
            0nat
        }
    }
}

/// How many players from `ip` disconnected in `ops`.
pub open spec fn closes_of(ops: Seq<StatsOp>, ip: Seq<char>) -> nat
    decreases ops.len(),
{
    if ops.len() == 0 {
        0
    } else {
        closes_of(ops.drop_last(), ip) + if ops.last() == StatsOp::Close(ip) {
            1nat
        } else {
            0nat
        }
    }
}

/// How many players connected in `ops`.
pub open spec fn opens(ops: Seq<StatsOp>) -> nat
    decreases ops.len(),
{
    if ops.len() == 0 {
        0
    } else {
        opens(ops.drop_last()) + if ops.last() is Open {
            1nat
        } else {
            0nat
        }
    }
}

/// How many players disconnected in `ops`.
pub open spec fn closes(ops: Seq<StatsOp>) -> nat
    decreases ops.len(),
{
    if ops.len() == 0 {
        0
    } else {
        closes(ops.drop_last()) + if ops.last() is Close {
            1nat
        } else {
            0nat
        }
    }
}

/// The largest number of players connected at once, from `m` through every
/// update in `ops`.
pub open spec fn highest_active(m: StatsModel, ops: Seq<StatsOp>) -> nat
    decreases ops.len(),
{
    if ops.len() == 0 {
        m.active_connections as nat
    } else {
        let earlier = highest_active(m, ops.drop_last());
        let now = run(m, ops).active_connections as nat;
        if now > earlier {
            now
        } else {
            earlier
        }
    }
}

/// The statistics as `AppStats::new` creates them.
pub open spec fn is_fresh(m: StatsModel) -> bool {
    &&& m.active_connections == 0
    &&& m.peak_connections == 0
    &&& m.total_connections == 0
    &&& m.open_ips == Seq::<Seq<char>>::empty()
}

/// From fresh statistics, after any sequence of updates in which every
/// disconnect matches an earlier connect:
/// - the players connected are those that connected and did not leave, and
///   each address has as many open connections as it had connects not yet
///   matched by a disconnect;
/// - an address is listed exactly when it has an open connection, each
///   address once, so the list is never longer than the number of players;
/// - the peak is the largest number of players ever connected at once, and
///   active <= peak <= connections in total;
/// - the total counts every connect (until the counter would pass
///   `u64::MAX`).
pub proof fn lemma_history(m: StatsModel, ops: Seq<StatsOp>)
    requires
        is_fresh(m),
        matched(m, ops),
    ensures
        run(m, ops).wf(),
        run(m, ops).active_connections == opens(ops) - closes(ops),
        forall|ip: Seq<char>| #[trigger]
            occurrences(run(m, ops).open_ips, ip) == opens_of(ops, ip) - closes_of(ops, ip),
        forall|ip: Seq<char>| #[trigger]
            run(m, ops).active_ips().contains(ip) <==> opens_of(ops, ip) > closes_of(ops, ip),
        run(m, ops).active_ips().no_duplicates(),
        run(m, ops).active_ips().len() <= run(m, ops).active_connections,
        run(m, ops).peak_connections == highest_active(m, ops),
        run(m, ops).active_connections <= run(m, ops).peak_connections,
        run(m, ops).peak_connections <= opens(ops),
        opens(ops) <= u64::MAX ==> run(m, ops).total_connections == opens(ops),
    decreases ops.len(),
{
    let r = run(m, ops);
    if ops.len() == 0 {
        assert forall|ip: Seq<char>| #[trigger]
            occurrences(r.open_ips, ip) == opens_of(ops, ip) - closes_of(ops, ip) by {
        }
    } else {
        let rest = ops.drop_last();
        let b = run(m, rest);
        lemma_history(m, rest);
        match ops.last() {
            StatsOp::Open(ip) => {
                assert forall|x: Seq<char>| #[trigger]
                    occurrences(r.open_ips, x) == opens_of(ops, x) - closes_of(ops, x) by {
                    lemma_occurrences_push(b.open_ips, ip, x);
                }
            },
            StatsOp::Close(ip) => {
                lemma_without_last(b.open_ips, ip);
                lemma_occurrences_contains(b.open_ips, ip);
                assert forall|x: Seq<char>| #[trigger]
                    occurrences(r.open_ips, x) == opens_of(ops, x) - closes_of(ops, x) by {
                    assert(occurrences(r.open_ips, x) == if x == ip && b.open_ips.contains(ip) {
                        occurrences(b.open_ips, x) - 1
                    } else {
                        occurrences(b.open_ips, x) as int
                    });
                }
            },
            StatsOp::Bytes(_) => {
                assert forall|x: Seq<char>| #[trigger]
                    occurrences(r.open_ips, x) == opens_of(ops, x) - closes_of(ops, x) by {
                }
            },
            StatsOp::Tunnel(_) => {
                assert forall|x: Seq<char>| #[trigger]
                    occurrences(r.open_ips, x) == opens_of(ops, x) - closes_of(ops, x) by {
                }
            },
        }
    }
    lemma_listed_addresses(r);
    assert forall|ip: Seq<char>| #[trigger]
        r.active_ips().contains(ip) <==> opens_of(ops, ip) > closes_of(ops, ip) by {
        assert(r.active_ips().contains(ip) <==> occurrences(r.open_ips, ip) > 0);
        assert(occurrences(r.open_ips, ip) == opens_of(ops, ip) - closes_of(ops, ip));
    }
}

/// The updates that connect one player from each address of `ips`, in order.
pub open spec fn connects(ips: Seq<Seq<char>>) -> Seq<StatsOp> {
    Seq::new(ips.len(), |i: int| StatsOp::Open(ips[i]))
}

/// `n` players connecting one after another, with nothing else in between,
/// add exactly `n` to the players connected and to the total, raise the
/// peak to at least the new number of players, and record each address.
pub proof fn lemma_connects_in_a_row(m: StatsModel, ips: Seq<Seq<char>>)
    requires
        m.wf(),
        m.active_connections + ips.len() <= usize::MAX,
        m.total_connections + ips.len() <= u64::MAX,
    ensures
        matched(m, connects(ips)),
        run(m, connects(ips)).wf(),
        run(m, connects(ips)).active_connections == m.active_connections + ips.len(),
        run(m, connects(ips)).total_connections == m.total_connections + ips.len(),
        run(m, connects(ips)).peak_connections == if m.active_connections + ips.len()
            > m.peak_connections {
            (m.active_connections + ips.len()) as int
        } else {
            m.peak_connections as int
        },
        run(m, connects(ips)).open_ips == m.open_ips + ips,
        forall|ip: Seq<char>| #[trigger]
            occurrences(run(m, connects(ips)).open_ips, ip) == occurrences(m.open_ips, ip)
                + occurrences(ips, ip),
    decreases ips.len(),
{
    if ips.len() == 0 {
        assert(m.open_ips + ips =~= m.open_ips);
    } else {
        let rest = ips.drop_last();
        assert(connects(ips).drop_last() =~= connects(rest));
        lemma_connects_in_a_row(m, rest);
        assert(m.open_ips + rest.push(ips.last()) =~= (m.open_ips + rest).push(ips.last()));
        assert(rest.push(ips.last()) =~= ips);
    }
    assert forall|ip: Seq<char>| #[trigger]
        occurrences(run(m, connects(ips)).open_ips, ip) == occurrences(m.open_ips, ip)
            + occurrences(ips, ip) by {
        lemma_occurrences_concat(m.open_ips, ips, ip);
    }
}

} // verus!
