use vstd::prelude::*;
use std::collections::VecDeque;
use chrono::{FixedOffset, TimeZone, Timelike, Utc};
use rand::Rng;
use crate::error::OtaErr;
use crate::transport::{ResponseOtaHc, TransportOut};

verus! {

/// Offset of the device's wall clock from UTC, in seconds.
pub const LOCAL_OFFSET_S: i32 = 25200;
/// Largest tick timestamp, in milliseconds, that the clock conversion takes
/// (inside the calendar range of the date library).
pub const MAX_TICK_MS: u64 = 8000000000000000;
/// Bounds of the randomized check cadence.
pub const JITTER_MIN: i64 = 30;
pub const JITTER_MAX: i64 = 50;
/// Bounds of the randomized offset, in minutes, into the maintenance window.
/// Zero is left out so that an offset never coincides with the window's opening.
pub const OFFSET_MIN: i64 = 1;
pub const OFFSET_MAX: i64 = 120;
/// First retry delay, in seconds, and the factor that each failure applies.
pub const INITIAL_BACKOFF_S: u64 = 3;
pub const BACKOFF_FACTOR: u64 = 100;

/// What arrives at the state machine: a transport outcome or an action pushed
/// from outside.
#[derive(PartialEq)]
pub enum OtaLogicIn {
    Transport(Result<TransportOut, OtaErr>),
    Push(OtaLogicOut),
}

/// Hardware class, selecting the device-specific apply procedure.
#[derive(Clone, Copy, PartialEq, Eq, Structural, Debug)]
pub enum HcType {
    Hc01,
    Hc02,
}

/// The actions that the state machine asks the orchestrator to perform.
#[derive(PartialEq, Eq, Structural, Debug, Clone, Copy)]
pub enum OtaLogicOut {
    CheckOtaEvent,
    UpdateOtaEvent(HcType),
    CompareVersionEvent,
    VerifyEvent,
    GetLinkEvent,
    KeepAliveEvent,
    SuppentEvent,
}

/// The device as the update policy sees it.
pub struct HcDriver {
    pub hc_type: HcType,
    pub allow_ota: bool,
    pub pid: u32,
    pub version_name: String,
    pub link: String,
}

/// The update policy state machine and its FIFO action queue.
pub struct OtaLogic {
    pub outputs: VecDeque<OtaLogicOut>,
    pub rnd_check: i64,
    pub rnd_update_ota: u8,
    /// Unix time, in seconds, of the last periodic check.
    pub last_date_time: i64,
    pub hc: HcDriver,
    /// Seconds to wait before the next retry.
    pub timeout: u64,
}

// ---- time of day ----

pub open spec fn local_second_of_day(secs: int) -> int {
    (secs + LOCAL_OFFSET_S) % 86400
}

pub open spec fn local_hour(secs: int) -> int {
    local_second_of_day(secs) / 3600
}

pub open spec fn local_minute(secs: int) -> int {
    (local_second_of_day(secs) % 3600) / 60
}

/// Relies on chrono's `FixedOffset::east_opt`, `TimeZone::timestamp_opt` on `Utc`,
/// `DateTime::with_timezone` and `Timelike::{hour, minute}`: the wall-clock hour and
/// minute, at the device's fixed offset, of a Unix time given in whole seconds.
/// Both `unwrap`s hold for an offset under a day and a time inside chrono's range.
#[verifier::external_body]
fn local_hour_minute(secs: i64) -> (r: (u32, u32))
    requires
        0 <= secs <= MAX_TICK_MS / 1000,
    ensures
        r.0 == local_hour(secs as int),
        r.1 == local_minute(secs as int),
{
    let offset = FixedOffset::east_opt(LOCAL_OFFSET_S).unwrap();
    let local = Utc.timestamp_opt(secs, 0).unwrap().with_timezone(&offset);
    (local.hour(), local.minute())
}

/// Relies on chrono's `Utc::now` and `DateTime::timestamp`: the current Unix time in
/// seconds. Nothing is promised of the value.
#[verifier::external_body]
fn unix_now_seconds() -> (r: i64) {
    Utc::now().timestamp()
}

/// Relies on rand's `thread_rng` and `Rng::gen_range` over an inclusive range: a value
/// inside the range, which must not be empty.
#[verifier::external_body]
fn random_in(lo: i64, hi: i64) -> (r: i64)
    requires
        lo <= hi,
    ensures
        lo <= r <= hi,
{
    rand::thread_rng().gen_range(lo..=hi)
}

// ---- the policy, as mathematics ----

/// Hour of day at which the maintenance window match fires for `offset`.
pub open spec fn target_hour(offset: u8) -> int {
    2 + offset as int / 60
}

/// Minute of the hour at which the maintenance window match fires for `offset`.
pub open spec fn target_minute(offset: u8) -> int {
    offset as int % 60
}

/// Whether the maintenance window check enqueues the suspend action.
pub open spec fn window_hit(offset: u8, hour: int, minute: int, allow: bool) -> bool {
    (target_hour(offset) == hour && target_minute(offset) == minute) || allow
}

pub open spec fn suspend_actions(fires: bool) -> Seq<OtaLogicOut> {
    if fires {
        seq![OtaLogicOut::SuppentEvent]
    } else {
        Seq::empty()
    }
}

/// Whether a tick at `now_ms` is at least a minute after the last check at `last` seconds.
pub open spec fn heartbeat_due(last: i64, now_ms: u64) -> bool {
    (now_ms / 1000) as int - last >= 60
}

pub open spec fn heartbeat_actions(due: bool) -> Seq<OtaLogicOut> {
    if due {
        seq![OtaLogicOut::CheckOtaEvent, OtaLogicOut::KeepAliveEvent]
    } else {
        Seq::empty()
    }
}

/// Whether a tick at `now_ms` runs and passes the maintenance window check.
pub open spec fn window_fires(offset: u8, now_ms: u64, allow: bool) -> bool {
    let s = (now_ms / 1000) as int;
    &&& (2 <= local_hour(s) < 4) || allow
    &&& window_hit(offset, local_hour(s), local_minute(s), allow)
}

/// The actions that one tick enqueues.
pub open spec fn tick_actions(last: i64, offset: u8, allow: bool, now_ms: u64) -> Seq<OtaLogicOut> {
    heartbeat_actions(heartbeat_due(last, now_ms)) + suspend_actions(
        window_fires(offset, now_ms, allow),
    )
}

/// The recovery action of a retried error, or none for an error that is absorbed.
pub open spec fn recovery_action(e: OtaErr) -> Option<OtaLogicOut> {
    match e {
        OtaErr::DownloadErr | OtaErr::LinkErr | OtaErr::NoLinkResErr
        | OtaErr::ServerNoReturnErr => Some(OtaLogicOut::CheckOtaEvent),
        OtaErr::NotEnoughMemoryErr => Some(OtaLogicOut::SuppentEvent),
        OtaErr::VerifyErr | OtaErr::VerifyNotEqualErr => Some(OtaLogicOut::GetLinkEvent),
        _ => None,
    }
}

/// Whether an event is an error that is retried after a backoff.
pub open spec fn is_retry(ev: OtaLogicIn) -> bool {
    match ev {
        OtaLogicIn::Transport(Err(e)) => recovery_action(e) is Some,
        _ => false,
    }
}

/// The actions that one event enqueues.
pub open spec fn event_actions(hc_type: HcType, ev: OtaLogicIn) -> Seq<OtaLogicOut> {
    match ev {
        OtaLogicIn::Transport(Ok(t)) => match t {
            TransportOut::ResponseRequest(_) => seq![OtaLogicOut::CompareVersionEvent],
            TransportOut::ResponseLink => seq![OtaLogicOut::VerifyEvent],
            TransportOut::ResponseKeepAlive => Seq::empty(),
            TransportOut::ResponseSuppend => seq![OtaLogicOut::UpdateOtaEvent(hc_type)],
        },
        OtaLogicIn::Transport(Err(e)) => match recovery_action(e) {
            Some(a) => seq![a],
            None => Seq::empty(),
        },
        OtaLogicIn::Push(a) => if a == OtaLogicOut::GetLinkEvent {
            seq![a]
        } else {
            Seq::empty()
        },
    }
}

/// The retry delay after `t`: a hundredfold, held at the largest `u64`.
pub open spec fn next_backoff(t: u64) -> u64 {
    if t * BACKOFF_FACTOR <= u64::MAX {
        (t * BACKOFF_FACTOR) as u64
    } else {
        u64::MAX
    }
}

impl OtaLogic {
    /// The randomized scheduling parameters lie in their ranges.
    pub open spec fn wf(&self) -> bool {
        &&& JITTER_MIN <= self.rnd_check <= JITTER_MAX
        &&& OFFSET_MIN <= self.rnd_update_ota <= OFFSET_MAX
    }

    /// The fields that no handler changes.
    pub open spec fn same_setup(&self, other: &Self) -> bool {
        &&& self.rnd_check == other.rnd_check
        &&& self.rnd_update_ota == other.rnd_update_ota
        &&& self.hc.hc_type == other.hc.hc_type
        &&& self.hc.pid == other.hc.pid
    }

    /// A state machine with the given scheduling parameters, last check time and
    /// process identity, an empty queue and the first retry delay.
    pub fn from_parts(pid: u32, now_s: i64, rnd_check: i64, rnd_update_ota: u8) -> (r: Self)
        requires
            JITTER_MIN <= rnd_check <= JITTER_MAX,
            OFFSET_MIN <= rnd_update_ota <= OFFSET_MAX,
        ensures
            r.wf(),
            r.outputs@ == Seq::<OtaLogicOut>::empty(),
            r.rnd_check == rnd_check,
            r.rnd_update_ota == rnd_update_ota,
            r.last_date_time == now_s,
            r.hc.hc_type == HcType::Hc01,
            !r.hc.allow_ota,
            r.hc.pid == pid,
            r.hc.version_name@ == Seq::<char>::empty(),
            r.hc.link@ == Seq::<char>::empty(),
            r.timeout == INITIAL_BACKOFF_S,
    {
        let hc = HcDriver {
            version_name: String::new(),
            link: String::new(),
            hc_type: HcType::Hc01,
            allow_ota: false,
            pid,
        };
        OtaLogic {
            outputs: VecDeque::new(),
            rnd_check,
            rnd_update_ota,
            last_date_time: now_s,
            hc,
            timeout: INITIAL_BACKOFF_S,
        }
    }

    /// A state machine whose last check is now, with a check cadence drawn from
    /// `[JITTER_MIN, JITTER_MAX]` and a window offset drawn from `[OFFSET_MIN, OFFSET_MAX]`.
    pub fn new(pid: u32) -> (r: Self)
        ensures
            r.wf(),
            r.outputs@ == Seq::<OtaLogicOut>::empty(),
            r.hc.hc_type == HcType::Hc01,
            !r.hc.allow_ota,
            r.hc.pid == pid,
            r.hc.version_name@ == Seq::<char>::empty(),
            r.hc.link@ == Seq::<char>::empty(),
            r.timeout == INITIAL_BACKOFF_S,
    {
        let now_s = unix_now_seconds();
        let rnd_check = random_in(JITTER_MIN, JITTER_MAX);
        let rnd_update_ota = random_in(OFFSET_MIN, OFFSET_MAX) as u8;
        Self::from_parts(pid, now_s, rnd_check, rnd_update_ota)
    }

    /// The maintenance window check: on a match of the target time, or when `allow`
    /// is set, enqueue the suspend action and clear the manual override.
    pub fn compare_hour_ota(&mut self, hour: u32, minute: u32, allow: bool)
        ensures
            final(self).outputs@ == old(self).outputs@ + suspend_actions(
                window_hit(old(self).rnd_update_ota, hour as int, minute as int, allow),
            ),
            final(self).hc.allow_ota == (old(self).hc.allow_ota && !window_hit(
                old(self).rnd_update_ota,
                hour as int,
                minute as int,
                allow,
            )),
            final(self).same_setup(old(self)),
            final(self).last_date_time == old(self).last_date_time,
            final(self).timeout == old(self).timeout,
            final(self).hc.link == old(self).hc.link,
            final(self).hc.version_name == old(self).hc.version_name,
    {
        let hour_ota: u8 = 2 + self.rnd_update_ota / 60;
        let minute_ota: u8 = self.rnd_update_ota % 60;
        if (hour_ota as u32 == hour && minute_ota as u32 == minute) || allow {
            self.outputs.push_back(OtaLogicOut::SuppentEvent);
            self.hc.allow_ota = false;
        }
    }

    /// Periodic tick at Unix time `now_ms` in milliseconds: a check and a keep-alive
    /// once a minute at most, then the maintenance window check inside 02:00–04:00
    /// local time or under manual override.
    pub fn on_tick(&mut self, now_ms: u64)
        requires
            now_ms <= MAX_TICK_MS,
        ensures
            final(self).outputs@ == old(self).outputs@ + tick_actions(
                old(self).last_date_time,
                old(self).rnd_update_ota,
                old(self).hc.allow_ota,
                now_ms,
            ),
            final(self).last_date_time == if heartbeat_due(old(self).last_date_time, now_ms) {
                (now_ms / 1000) as i64
            } else {
                old(self).last_date_time
            },
            !final(self).hc.allow_ota,
            final(self).same_setup(old(self)),
            final(self).timeout == old(self).timeout,
            final(self).hc.link == old(self).hc.link,
            final(self).hc.version_name == old(self).hc.version_name,
    {
        let secs = (now_ms / 1000) as i64;
        let (hour, minute) = local_hour_minute(secs);
        let due = secs as i128 - self.last_date_time as i128 >= 60;
        if due {
            self.outputs.push_back(OtaLogicOut::CheckOtaEvent);
            self.outputs.push_back(OtaLogicOut::KeepAliveEvent);
            self.last_date_time = secs;
        }
        assert(self.outputs@ =~= old(self).outputs@ + heartbeat_actions(due));
        if (hour >= 2 && hour < 4) || self.hc.allow_ota {
            let allow = self.hc.allow_ota;
            self.compare_hour_ota(hour, minute, allow);
        }
        assert(self.outputs@ =~= old(self).outputs@ + tick_actions(
            old(self).last_date_time,
            old(self).rnd_update_ota,
            old(self).hc.allow_ota,
            now_ms,
        ));
    }

    /// Reacts to a transport outcome or a pushed action. Returns the delay, in
    /// seconds, that the caller waits before running the recovery action of a
    /// retried error, and none otherwise.
    pub fn on_event(&mut self, event: OtaLogicIn) -> (r: Option<u64>)
        ensures
            final(self).outputs@ == old(self).outputs@ + event_actions(old(self).hc.hc_type, event),
            r == if is_retry(event) {
                Some(old(self).timeout)
            } else {
                None::<u64>
            },
            final(self).timeout == if is_retry(event) {
                next_backoff(old(self).timeout)
            } else {
                old(self).timeout
            },
            match event {
                OtaLogicIn::Transport(Ok(TransportOut::ResponseRequest(resp))) => {
                    &&& final(self).hc.link == resp.data.link
                    &&& final(self).hc.version_name == resp.data.version_name
                },
                _ => {
                    &&& final(self).hc.link == old(self).hc.link
                    &&& final(self).hc.version_name == old(self).hc.version_name
                },
            },
            final(self).hc.allow_ota == old(self).hc.allow_ota,
            final(self).last_date_time == old(self).last_date_time,
            final(self).same_setup(old(self)),
    {
        match event {
            OtaLogicIn::Transport(Ok(transport)) => {
                match transport {
                    TransportOut::ResponseRequest(response) => {
                        self.hc.link = response.data.link;
                        self.hc.version_name = response.data.version_name;
                        self.outputs.push_back(OtaLogicOut::CompareVersionEvent);
                    },
                    TransportOut::ResponseLink => {
                        self.outputs.push_back(OtaLogicOut::VerifyEvent);
                    },
                    TransportOut::ResponseKeepAlive => {},
                    TransportOut::ResponseSuppend => {
                        self.outputs.push_back(OtaLogicOut::UpdateOtaEvent(self.hc.hc_type));
                    },
                }
                None
            },
            OtaLogicIn::Transport(Err(e)) => {
                let recovery = match e {
                    OtaErr::DownloadErr | OtaErr::LinkErr | OtaErr::NoLinkResErr
                    | OtaErr::ServerNoReturnErr => Some(OtaLogicOut::CheckOtaEvent),
                    OtaErr::NotEnoughMemoryErr => Some(OtaLogicOut::SuppentEvent),
                    OtaErr::VerifyErr | OtaErr::VerifyNotEqualErr => Some(OtaLogicOut::GetLinkEvent),
                    _ => None,
                };
                match recovery {
                    Some(action) => {
                        let delay = self.timeout;
                        self.outputs.push_back(action);
                        self.timeout = if self.timeout <= u64::MAX / BACKOFF_FACTOR {
                            self.timeout * BACKOFF_FACTOR
                        } else {
                            u64::MAX
                        };
                        Some(delay)
                    },
                    None => None,
                }
            },
            OtaLogicIn::Push(action) => {
                if let OtaLogicOut::GetLinkEvent = action {
                    self.outputs.push_back(action);
                }
                None
            },
        }
    }

    /// Removes and returns the oldest queued action.
    pub fn pop_action(&mut self) -> (r: Option<OtaLogicOut>)
        ensures
            (r, final(self).outputs@) == pop_front_of(old(self).outputs@),
            final(self).hc.allow_ota == old(self).hc.allow_ota,
            final(self).last_date_time == old(self).last_date_time,
            final(self).timeout == old(self).timeout,
            final(self).hc.link == old(self).hc.link,
            final(self).hc.version_name == old(self).hc.version_name,
            final(self).same_setup(old(self)),
    {
        self.outputs.pop_front()
    }
}

/// The head of a queue and what is left behind it.
pub open spec fn pop_front_of(q: Seq<OtaLogicOut>) -> (Option<OtaLogicOut>, Seq<OtaLogicOut>) {
    if q.len() == 0 {
        (None, q)
    } else {
        (Some(q[0]), q.drop_first())
    }
}

/// Runs queue operations on `q` in order: `Some(batch)` is a handler appending its
/// batch at the back, `None` is one `pop_action`. Gives the actions popped, in the
/// order they came out, and the queue left.
pub open spec fn run_queue(q: Seq<OtaLogicOut>, ops: Seq<Option<Seq<OtaLogicOut>>>) -> (Seq<OtaLogicOut>, Seq<OtaLogicOut>)
    decreases ops.len(),
{
    if ops.len() == 0 {
        (Seq::empty(), q)
    } else {
        let (popped, rest) = run_queue(q, ops.drop_last());
        match ops.last() {
            Some(batch) => (popped, rest + batch),
            None => match pop_front_of(rest).0 {
                Some(a) => (popped.push(a), pop_front_of(rest).1),
                None => (popped, rest),
            },
        }
    }
}

/// The queue `q` followed by every batch of `ops`, in the order they were appended.
pub open spec fn appended(q: Seq<OtaLogicOut>, ops: Seq<Option<Seq<OtaLogicOut>>>) -> Seq<OtaLogicOut>
    decreases ops.len(),
{
    if ops.len() == 0 {
        q
    } else {
        match ops.last() {
            Some(batch) => appended(q, ops.drop_last()) + batch,
            None => appended(q, ops.drop_last()),
        }
    }
}

/// The action queue is first in, first out: however appends and pops interleave, the
/// actions popped, followed by those still queued, are exactly the actions appended,
/// in the order they were appended.
pub proof fn lemma_queue_fifo(q: Seq<OtaLogicOut>, ops: Seq<Option<Seq<OtaLogicOut>>>)
    ensures
        run_queue(q, ops).0 + run_queue(q, ops).1 == appended(q, ops),
    decreases ops.len(),
{
    if ops.len() > 0 {
        lemma_queue_fifo(q, ops.drop_last());
        let (popped, rest) = run_queue(q, ops.drop_last());
        match ops.last() {
            Some(batch) => {
                assert(popped + (rest + batch) =~= (popped + rest) + batch);
            },
            None => {
                if rest.len() > 0 {
                    assert(popped.push(rest[0]) + rest.drop_first() =~= popped + rest);
                }
            },
        }
    }
}

/// Rate limit of the periodic check. Take a tick at `t1` and a later one at `t2`, with
/// the last check not after `t1`, and times counted in whole seconds as the ticks count
/// them. Less than a minute apart, the two ticks enqueue the check-and-keep-alive pair
/// at most once between them; a minute or more apart, the second tick enqueues it.
pub proof fn lemma_heartbeat_rate(last: i64, t1: u64, t2: u64)
    requires
        t1 <= t2 <= MAX_TICK_MS,
        last <= t1 / 1000,
    ensures
        ({
            let last2 = if heartbeat_due(last, t1) {
                (t1 / 1000) as i64
            } else {
                last
            };
            &&& t2 / 1000 - t1 / 1000 < 60 ==> !(heartbeat_due(last, t1) && heartbeat_due(last2, t2))
            &&& t2 / 1000 - t1 / 1000 >= 60 ==> heartbeat_actions(heartbeat_due(last2, t2))
                == seq![OtaLogicOut::CheckOtaEvent, OtaLogicOut::KeepAliveEvent]
        }),
{
}

/// Right after a check at `t1`, a tick at `t2` less than a minute later (in whole
/// seconds) enqueues no check and no keep-alive, at most the suspend action; a tick a
/// minute or more later enqueues the check and the keep-alive first.
pub proof fn lemma_heartbeat_after_check(t1: u64, t2: u64, offset: u8, allow: bool)
    requires
        t1 <= t2 <= MAX_TICK_MS,
    ensures
        ({
            let last = (t1 / 1000) as i64;
            let w = suspend_actions(window_fires(offset, t2, allow));
            &&& t2 / 1000 - t1 / 1000 < 60 ==> !heartbeat_due(last, t2) && tick_actions(last, offset, allow, t2) == w
            &&& t2 / 1000 - t1 / 1000 >= 60 ==> heartbeat_due(last, t2) && tick_actions(last, offset, allow, t2)
                == seq![OtaLogicOut::CheckOtaEvent, OtaLogicOut::KeepAliveEvent] + w
        }),
{
    let last = (t1 / 1000) as i64;
    let w = suspend_actions(window_fires(offset, t2, allow));
    assert(Seq::<OtaLogicOut>::empty() + w =~= w);
}

/// Each successful transport outcome enqueues its follow-up action: a check response
/// the version comparison, a completed fetch the verification, a suspend
/// acknowledgment the update for the device's hardware class.
pub proof fn lemma_success_events(hc_type: HcType, resp: ResponseOtaHc)
    ensures
        event_actions(hc_type, OtaLogicIn::Transport(Ok(TransportOut::ResponseRequest(resp))))
            == seq![OtaLogicOut::CompareVersionEvent],
        event_actions(hc_type, OtaLogicIn::Transport(Ok(TransportOut::ResponseLink)))
            == seq![OtaLogicOut::VerifyEvent],
        event_actions(hc_type, OtaLogicIn::Transport(Ok(TransportOut::ResponseSuppend)))
            == seq![OtaLogicOut::UpdateOtaEvent(hc_type)],
{
}

/// Retry classification: a download, link, missing-link-response or
/// server-no-response error enqueues a new check, a resource error the suspend
/// action, a verification error a new fetch of the link; each is retried, and the
/// retry delay grows a hundredfold where that fits in a `u64`.
pub proof fn lemma_retry_groups(hc_type: HcType, e: OtaErr, t: u64)
    ensures
        is_retry(OtaLogicIn::Transport(Err(e))) ==> (t * 100 <= u64::MAX ==> next_backoff(t) == t * 100),
        (e == OtaErr::DownloadErr || e == OtaErr::LinkErr || e == OtaErr::NoLinkResErr
            || e == OtaErr::ServerNoReturnErr) ==> {
            &&& is_retry(OtaLogicIn::Transport(Err(e)))
            &&& event_actions(hc_type, OtaLogicIn::Transport(Err(e))) == seq![OtaLogicOut::CheckOtaEvent]
        },
        e == OtaErr::NotEnoughMemoryErr ==> {
            &&& is_retry(OtaLogicIn::Transport(Err(e)))
            &&& event_actions(hc_type, OtaLogicIn::Transport(Err(e))) == seq![OtaLogicOut::SuppentEvent]
        },
        (e == OtaErr::VerifyErr || e == OtaErr::VerifyNotEqualErr) ==> {
            &&& is_retry(OtaLogicIn::Transport(Err(e)))
            &&& event_actions(hc_type, OtaLogicIn::Transport(Err(e))) == seq![OtaLogicOut::GetLinkEvent]
        },
{
}

/// Only a link refresh may be pushed from outside: a pushed `GetLinkEvent` is queued,
/// any other pushed action leaves the queue as it was, and no push is a retry.
pub proof fn lemma_push_policy(hc_type: HcType, a: OtaLogicOut)
    ensures
        event_actions(hc_type, OtaLogicIn::Push(a)) == if a == OtaLogicOut::GetLinkEvent {
            seq![OtaLogicOut::GetLinkEvent]
        } else {
            Seq::<OtaLogicOut>::empty()
        },
        !is_retry(OtaLogicIn::Push(a)),
{
}

} // verus!
