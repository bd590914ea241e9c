//! Connectivity supervision: the tolerant recovery policy with a grace
//! window, and the channel preference used when (re)connecting.
//!
//! The wireless driver itself lives at the application edge; this module
//! decides, from the observed link state and a monotone clock in seconds,
//! when a full reconnect attempt is due.

use vstd::prelude::*;

verus! {

/// Tracks the link as the orchestrator observes it once per tick.
///
/// While the link is up, the anchor timestamp follows the clock. When the
/// link is first seen down the anchor freezes at that observation, and a
/// reconnect attempt becomes due only once more than `grace_secs` have
/// passed since the anchor. A failed attempt clears the anchor: the monitor
/// then waits for the link to come back by itself instead of retrying.
#[derive(Debug, Clone, Copy, PartialEq, Eq, Structural)]
pub struct ConnectivityMonitor {
    pub grace_secs: u64,
    pub connected: bool,
    pub last_connected_at: Option<u64>,
}

/// The monitor after one observation of the link.
pub open spec fn observed(m: ConnectivityMonitor, link_up: bool, now: u64) -> ConnectivityMonitor {
    if link_up {
        ConnectivityMonitor { connected: true, last_connected_at: Some(now), ..m }
    } else if m.connected {
        ConnectivityMonitor { connected: false, last_connected_at: Some(now), ..m }
    } else {
        m
    }
}

/// Whether one observation of the link makes a reconnect attempt due: only
/// when the link stays down and the grace window has elapsed since the
/// anchor.
pub open spec fn attempt_due(m: ConnectivityMonitor, link_up: bool, now: u64) -> bool {
    &&& !link_up
    &&& !m.connected
    &&& match m.last_connected_at {
        Some(t) => t <= now && now - t > m.grace_secs,
        None => false,
    }
}

/// The monitor after a reconnect attempt ended: success counts as an
/// observed connection; failure clears the anchor, so no further attempt is
/// made until the link is observed up again.
pub open spec fn attempted(m: ConnectivityMonitor, ok: bool, now: u64) -> ConnectivityMonitor {
    if ok {
        ConnectivityMonitor { connected: true, last_connected_at: Some(now), ..m }
    } else {
        ConnectivityMonitor { connected: false, last_connected_at: None, ..m }
    }
}

/// The monitor after a whole run of observations with the link down.
pub open spec fn observed_down_run(m: ConnectivityMonitor, times: Seq<u64>) -> ConnectivityMonitor
    decreases times.len(),
{
    if times.len() == 0 {
        m
    } else {
        observed_down_run(observed(m, false, times[0]), times.drop_first())
    }
}

/// Whether any observation of such a run makes an attempt due.
pub open spec fn any_attempt_due(m: ConnectivityMonitor, times: Seq<u64>) -> bool
    decreases times.len(),
{
    if times.len() == 0 {
        false
    } else {
        attempt_due(m, false, times[0]) || any_attempt_due(
            observed(m, false, times[0]),
            times.drop_first(),
        )
    }
}

impl ConnectivityMonitor {
    /// A monitor as the loop starts: anchored at startup when the initial
    /// connection succeeded, unanchored when it failed.
    pub fn new(grace_secs: u64, link_up: bool, now: u64) -> (m: ConnectivityMonitor)
        ensures
            m.grace_secs == grace_secs,
            m.connected == link_up,
            m.last_connected_at == if link_up {
                Some(now)
            } else {
                Option::<u64>::None
            },
    {
        ConnectivityMonitor {
            grace_secs,
            connected: link_up,
            last_connected_at: if link_up {
                Some(now)
            } else {
                None
            },
        }
    }

    /// Feeds one per-tick observation of the link into the monitor and says
    /// whether a full reconnect attempt is due now.
    pub fn observe(&mut self, link_up: bool, now: u64) -> (attempt: bool)
        ensures
            *final(self) == observed(*old(self), link_up, now),
            attempt == attempt_due(*old(self), link_up, now),
    {
        if link_up {
            self.connected = true;
            self.last_connected_at = Some(now);
            false
        } else if self.connected {
            self.connected = false;
            self.last_connected_at = Some(now);
            false
        } else {
            match self.last_connected_at {
                Some(t) => t <= now && now - t > self.grace_secs,
                None => false,
            }
        }
    }

    /// Records how the reconnect attempt ended.
    pub fn reconnect_result(&mut self, ok: bool, now: u64)
        ensures
            *final(self) == attempted(*old(self), ok, now),
    {
        if ok {
            self.connected = true;
            self.last_connected_at = Some(now);
        } else {
            self.connected = false;
            self.last_connected_at = None;
        }
    }
}

/// Within the grace window nothing happens: a monitor that saw the link go
/// down at its anchor neither attempts a reconnect nor changes state over
/// any run of down observations that stays within the window.
pub proof fn lemma_no_attempt_within_grace(m: ConnectivityMonitor, times: Seq<u64>, t0: u64)
    requires
        !m.connected,
        m.last_connected_at == Some(t0),
        forall|i: int| 0 <= i < times.len() ==> times[i] <= t0 + m.grace_secs,
    ensures
        !any_attempt_due(m, times),
        observed_down_run(m, times) == m,
    decreases times.len(),
{
    if times.len() > 0 {
        assert(!attempt_due(m, false, times[0]));
        assert(observed(m, false, times[0]) == m);
        lemma_no_attempt_within_grace(m, times.drop_first(), t0);
    }
}

/// Once the window has elapsed, the attempt is due.
pub proof fn lemma_attempt_after_grace(m: ConnectivityMonitor, t0: u64, now: u64)
    requires
        !m.connected,
        m.last_connected_at == Some(t0),
        t0 <= now,
        now - t0 > m.grace_secs,
    ensures
        attempt_due(m, false, now),
{
}

/// An observed reconnection resets the timer: after the link is seen up at
/// `t1` and down again at `t2`, the anchor is `t2`, so no attempt is due
/// before `t2 + grace` has elapsed.
pub proof fn lemma_reconnection_resets_timer(
    m: ConnectivityMonitor,
    t1: u64,
    t2: u64,
    times: Seq<u64>,
)
    requires
        forall|i: int| 0 <= i < times.len() ==> times[i] <= t2 + m.grace_secs,
    ensures
        observed(observed(m, true, t1), false, t2).last_connected_at == Some(t2),
        !any_attempt_due(observed(observed(m, true, t1), false, t2), times),
{
    let down = observed(observed(m, true, t1), false, t2);
    lemma_no_attempt_within_grace(down, times, t2);
}

/// At most one attempt per expiry: however the attempt ends, no further
/// attempt is due until the link has been seen up and down again and a whole
/// further grace window has passed.
pub proof fn lemma_attempt_not_repeated(m: ConnectivityMonitor, ok: bool, now: u64, times: Seq<u64>)
    requires
        forall|i: int| 0 <= i < times.len() ==> times[i] <= now + m.grace_secs,
    ensures
        ok ==> !any_attempt_due(observed(attempted(m, ok, now), false, now), times),
        !ok ==> !any_attempt_due(attempted(m, ok, now), times),
    decreases times.len(),
{
    if ok {
        lemma_no_attempt_within_grace(observed(attempted(m, ok, now), false, now), times, now);
    } else {
        let failed = attempted(m, ok, now);
        if times.len() > 0 {
            assert(!attempt_due(failed, false, times[0]));
            assert(observed(failed, false, times[0]) == failed);
            lemma_attempt_not_repeated(m, ok, now, times.drop_first());
        }
    }
}

/// The link-state reading the monitor is fed: the link counts as up only
/// when the driver reports itself started and a non-zero address is leased;
/// a started but unleased link counts as down.
pub fn link_is_up(started: bool, ip_addr: u32) -> (r: bool)
    ensures
        r == (started && ip_addr != 0),
{
    started && ip_addr != 0
}

/// The channel preference of the connection procedure: the channel of the
/// first scan result whose name matches the configured network, when the
/// scan found it.
pub open spec fn preferred_channel(scan: Seq<(Seq<char>, u8)>, ssid: Seq<char>) -> Option<u8>
    decreases scan.len(),
{
    if scan.len() == 0 {
        None
    } else if scan[0].0 == ssid {
        Some(scan[0].1)
    } else {
        preferred_channel(scan.drop_first(), ssid)
    }
}

/// Picks the channel to connect on from scan results, handed in as pairs of
/// network name and channel: the channel of the first result that matches
/// `ssid`, or `None` to let the driver choose.
pub fn select_channel(scan: &Vec<(String, u8)>, ssid: &String) -> (r: Option<u8>)
    ensures
        r == preferred_channel(scan@.map_values(|p: (String, u8)| (p.0@, p.1)), ssid@),
{
    let ghost spec_scan = scan@.map_values(|p: (String, u8)| (p.0@, p.1));
    let mut i: usize = 0;
    proof {
        assert(spec_scan.skip(0) =~= spec_scan);
    }
    while i < scan.len()
        invariant
            i <= scan@.len(),
            spec_scan == scan@.map_values(|p: (String, u8)| (p.0@, p.1)),
            preferred_channel(spec_scan, ssid@) == preferred_channel(
                spec_scan.skip(i as int),
                ssid@,
            ),
        decreases scan@.len() - i,
    {
        proof {
            assert(spec_scan.skip(i as int)[0] == (scan@[i as int].0@, scan@[i as int].1));
        }
        if scan[i].0 == *ssid {
            return Some(scan[i].1);
        }
        proof {
            assert(spec_scan.skip(i as int).drop_first() =~= spec_scan.skip(i + 1));
        }
        i = i + 1;
    }
    proof {
        assert(spec_scan.skip(scan@.len() as int) =~= Seq::<(Seq<char>, u8)>::empty());
    }
    None
}

} // verus!
