use vstd::prelude::*;
use vstd::arithmetic::div_mod::lemma_fundamental_div_mod;

use crate::frames::{
    InboundMessage, MavAutopilot, MavHeader, MavState, MavType, OutboundMessage, OutboundView,
};
use crate::messages::VehicleEvent;

verus! {

/// The period of the heartbeat monitor, in ms.
pub const MONITOR_TICK_MS: u64 = 500;

/// The heartbeat bookkeeping of a link: the station's identity for its own
/// heartbeats, the time since the flight controller's last heartbeat, and
/// whether a timeout has been reported for the current silence.
pub struct HeartbeatManager {
    system_id: u8,
    component_id: u8,
    last_fc_heartbeat_ms: u64,
    timeout_ms: u64,
    interval_ms: u64,
    timed_out: bool,
}

/// The state of a heartbeat manager.
pub struct HeartbeatState {
    pub system_id: u8,
    pub component_id: u8,
    pub last_fc_heartbeat_ms: u64,
    pub timeout_ms: u64,
    pub interval_ms: u64,
    pub timed_out: bool,
}

impl View for HeartbeatManager {
    type V = HeartbeatState;

    closed spec fn view(&self) -> HeartbeatState {
        HeartbeatState {
            system_id: self.system_id,
            component_id: self.component_id,
            last_fc_heartbeat_ms: self.last_fc_heartbeat_ms,
            timeout_ms: self.timeout_ms,
            interval_ms: self.interval_ms,
            timed_out: self.timed_out,
        }
    }
}

/// One monitor period: the silence grows by 500 ms; when it passes the
/// timeout, a timeout is reported with its length unless one was already
/// reported for this silence; while it does not, no report is pending.
pub open spec fn monitor_step(s: HeartbeatState) -> (HeartbeatState, Option<u64>) {
    let since = (s.last_fc_heartbeat_ms + MONITOR_TICK_MS) as u64;
    if since > s.timeout_ms {
        (
            HeartbeatState { last_fc_heartbeat_ms: since, timed_out: true, ..s },
            if s.timed_out {
                None
            } else {
                Some(since)
            },
        )
    } else {
        (HeartbeatState { last_fc_heartbeat_ms: since, timed_out: false, ..s }, None)
    }
}

/// The mode flags that the MAVLink library's `MavModeFlag::default()` gives:
/// `MAV_MODE_FLAG_SAFETY_ARMED`.
pub const DEFAULT_MODE_FLAGS: u8 = 128;

/// The frame of the station's own heartbeat: a ground control station with
/// no (invalid) autopilot, in the active state, custom mode 0, the MAVLink
/// library's default mode flags, MAVLink version 3.
pub open spec fn gcs_heartbeat(s: HeartbeatState, sequence: u8) -> (MavHeader, OutboundView) {
    (
        MavHeader { system_id: s.system_id, component_id: s.component_id, sequence },
        OutboundView::Heartbeat {
            custom_mode: 0,
            mavtype: MavType::Gcs,
            autopilot: MavAutopilot::Invalid,
            base_mode: DEFAULT_MODE_FLAGS,
            system_status: MavState::Active,
            mavlink_version: 3,
        },
    )
}

/// Calls `MavModeFlag::default()` of the MAVLink library's ardupilotmega
/// dialect and returns its bits. The generated `Default` of a MAVLink enum is
/// its first entry, and the first entry of `MAV_MODE_FLAG` in the bundled
/// definitions is `MAV_MODE_FLAG_SAFETY_ARMED`, value 128.
#[verifier::external_body]
fn default_mode_flags() -> (res: u8)
    ensures
        res == DEFAULT_MODE_FLAGS,
{
    mavlink::dialects::ardupilotmega::MavModeFlag::default().bits()
}

impl HeartbeatManager {
    /// A manager for a station identity, with a timeout and a send
    /// interval in ms; no heartbeat is missing yet.
    pub fn new(system_id: u8, component_id: u8, timeout_ms: u64, interval_ms: u64) -> (res: HeartbeatManager)
        ensures
            res@ == (HeartbeatState {
                system_id,
                component_id,
                last_fc_heartbeat_ms: 0,
                timeout_ms,
                interval_ms,
                timed_out: false,
            }),
    {
        HeartbeatManager {
            system_id,
            component_id,
            last_fc_heartbeat_ms: 0,
            timeout_ms,
            interval_ms,
            timed_out: false,
        }
    }

    /// Record a heartbeat from the flight controller.
    pub fn on_heartbeat_received(&mut self)
        ensures
            final(self)@ == (HeartbeatState { last_fc_heartbeat_ms: 0, ..old(self)@ }),
    {
        self.last_fc_heartbeat_ms = 0;
    }

    /// Take note of a message from the flight controller: a heartbeat ends
    /// the silence, any other message leaves it as it is.
    pub fn on_message(&mut self, msg: &InboundMessage)
        ensures
            final(self)@ == (if msg is Heartbeat {
                HeartbeatState { last_fc_heartbeat_ms: 0, ..old(self)@ }
            } else {
                old(self)@
            }),
    {
        if let InboundMessage::Heartbeat { .. } = msg {
            self.on_heartbeat_received();
        }
    }

    /// Time since the flight controller's last heartbeat, in ms.
    pub fn last_heartbeat_ms(&self) -> (res: u64)
        ensures
            res == self@.last_fc_heartbeat_ms,
    {
        self.last_fc_heartbeat_ms
    }

    /// Interval between the station's own heartbeats, in ms.
    pub fn interval_ms(&self) -> (res: u64)
        ensures
            res == self@.interval_ms,
    {
        self.interval_ms
    }

    /// The next heartbeat of the station, with a frame sequence number.
    pub fn heartbeat_frame(&self, sequence: u8) -> (res: (MavHeader, OutboundMessage))
        ensures
            (res.0, res.1@) == gcs_heartbeat(self@, sequence),
    {
        (
            MavHeader { system_id: self.system_id, component_id: self.component_id, sequence },
            OutboundMessage::Heartbeat {
                custom_mode: 0,
                mavtype: MavType::Gcs,
                autopilot: MavAutopilot::Invalid,
                base_mode: default_mode_flags(),
                system_status: MavState::Active,
                mavlink_version: 3,
            },
        )
    }

    /// One period of the monitor; returns the timeout event to emit, if any.
    pub fn monitor_tick(&mut self) -> (res: Option<VehicleEvent>)
        requires
            old(self)@.last_fc_heartbeat_ms + MONITOR_TICK_MS <= u64::MAX,
        ensures
            final(self)@ == monitor_step(old(self)@).0,
            match monitor_step(old(self)@).1 {
                Some(ms) => res == Some(VehicleEvent::HeartbeatTimeout { last_seen_ms: ms }),
                None => res is None,
            },
    {
        self.last_fc_heartbeat_ms = self.last_fc_heartbeat_ms + MONITOR_TICK_MS;
        if self.last_fc_heartbeat_ms > self.timeout_ms {
            if !self.timed_out {
                self.timed_out = true;
                return Some(VehicleEvent::HeartbeatTimeout { last_seen_ms: self.last_fc_heartbeat_ms });
            }
            None
        } else {
            self.timed_out = false;
            None
        }
    }
}

/// The sequence number of the station's next heartbeat frame.
pub fn next_sequence(sequence: u8) -> (res: u8)
    ensures
        res == (if sequence == 255 { 0 } else { sequence + 1 }),
{
    sequence.wrapping_add(1)
}

/// A silence is reported once: the period after a report reports nothing,
/// however long the silence goes on.
pub proof fn lemma_timeout_reported_once(s: HeartbeatState)
    requires
        monitor_step(s).1 is Some,
        s.last_fc_heartbeat_ms + 2 * MONITOR_TICK_MS <= u64::MAX,
    ensures
        monitor_step(monitor_step(s).0).1 is None,
        monitor_step(monitor_step(s).0).0.timed_out,
{
}

/// A report gives the length of the silence, which has passed the timeout.
pub proof fn lemma_timeout_report_past_limit(s: HeartbeatState)
    requires
        monitor_step(s).1 is Some,
        s.last_fc_heartbeat_ms + MONITOR_TICK_MS <= u64::MAX,
    ensures
        monitor_step(s).1 == Some((s.last_fc_heartbeat_ms + MONITOR_TICK_MS) as u64),
        s.last_fc_heartbeat_ms + MONITOR_TICK_MS > s.timeout_ms,
        !s.timed_out,
{
}

/// After a heartbeat, a new silence is reported again once it passes the
/// timeout: the first period after a heartbeat, with a timeout of at least
/// one period, reports nothing and clears the earlier report.
pub proof fn lemma_heartbeat_rearms_monitor(s: HeartbeatState)
    requires
        s.timeout_ms >= MONITOR_TICK_MS,
    ensures
        monitor_step(HeartbeatState { last_fc_heartbeat_ms: 0, ..s }).1 is None,
        !monitor_step(HeartbeatState { last_fc_heartbeat_ms: 0, ..s }).0.timed_out,
{
}

/// The state after `n` monitor periods without a heartbeat.
pub open spec fn monitor_run(s: HeartbeatState, n: nat) -> HeartbeatState
    decreases n,
{
    if n == 0 {
        s
    } else {
        monitor_step(monitor_run(s, (n - 1) as nat)).0
    }
}

/// The timeouts reported, in order, over `n` monitor periods without a
/// heartbeat.
pub open spec fn monitor_reports(s: HeartbeatState, n: nat) -> Seq<u64>
    decreases n,
{
    if n == 0 {
        Seq::empty()
    } else {
        match monitor_step(monitor_run(s, (n - 1) as nat)).1 {
            Some(ms) => monitor_reports(s, (n - 1) as nat).push(ms),
            None => monitor_reports(s, (n - 1) as nat),
        }
    }
}

/// Over a run of periods that starts right after a heartbeat, the silence
/// grows by 500 ms a period, and exactly one timeout is reported once it
/// has passed the timeout: at the first period past it, with the silence
/// then (500 ms times the periods needed to pass it); none before, none
/// after. An earlier report that is still marked is cleared by a first
/// period that stays within the timeout, so the run needs a timeout of at
/// least one period unless no report is marked.
pub proof fn lemma_monitor_reports_each_silence_once(s: HeartbeatState, n: nat)
    requires
        s.last_fc_heartbeat_ms == 0,
        !s.timed_out || s.timeout_ms >= MONITOR_TICK_MS,
        n * MONITOR_TICK_MS <= u64::MAX,
    ensures
        MONITOR_TICK_MS == 500,
        monitor_run(s, n).last_fc_heartbeat_ms == n * MONITOR_TICK_MS,
        n >= 1 ==> monitor_run(s, n).timed_out == (n * MONITOR_TICK_MS > s.timeout_ms),
        monitor_reports(s, n) == (if n * MONITOR_TICK_MS > s.timeout_ms {
            seq![(MONITOR_TICK_MS * (s.timeout_ms / MONITOR_TICK_MS + 1)) as u64]
        } else {
            Seq::<u64>::empty()
        }),
    decreases n,
{
    let t = s.timeout_ms as int;
    lemma_fundamental_div_mod(t, 500);
    if n > 0 {
        let m = (n - 1) as nat;
        lemma_monitor_reports_each_silence_once(s, m);
        let prev = monitor_run(s, m);
        assert(prev.last_fc_heartbeat_ms == m * 500);
        assert(prev.timeout_ms == s.timeout_ms) by {
            lemma_monitor_keeps_timeout(s, m);
        }
        if n * 500 > t && m * 500 <= t {
            assert(m == t / 500);
        }
    }
}

/// Monitor periods leave the timeout as it is.
proof fn lemma_monitor_keeps_timeout(s: HeartbeatState, n: nat)
    ensures
        monitor_run(s, n).timeout_ms == s.timeout_ms,
    decreases n,
{
    if n > 0 {
        lemma_monitor_keeps_timeout(s, (n - 1) as nat);
    }
}

/// The station's heartbeat carries the station's own identity and the
/// frame's sequence number, and says: ground control station (`MAV_TYPE_GCS`),
/// no autopilot (`MAV_AUTOPILOT_INVALID`), active, custom mode 0, base mode
/// 128 (the MAVLink library's default flags), MAVLink version 3.
pub proof fn lemma_station_heartbeat(s: HeartbeatState, sequence: u8)
    ensures
        gcs_heartbeat(s, sequence).0 == (MavHeader {
            system_id: s.system_id,
            component_id: s.component_id,
            sequence,
        }),
        gcs_heartbeat(s, sequence).1 == (OutboundView::Heartbeat {
            custom_mode: 0,
            mavtype: MavType::Gcs,
            autopilot: MavAutopilot::Invalid,
            base_mode: 128,
            system_status: MavState::Active,
            mavlink_version: 3,
        }),
{
}

} // verus!
