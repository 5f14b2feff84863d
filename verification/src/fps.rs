use vstd::prelude::*;
use std::collections::VecDeque;

verus! {

/// The DXGI `PresentStart` event.
pub const PRESENT_START_EVENT_ID: u16 = 42;

/// A present counts towards the frame rate for this long, in milliseconds.
pub const PRESENT_EVENT_TTL_MS: u64 = 1000;

/// Failures of starting a frame-rate session.
#[derive(Debug, Clone)]
pub enum Error {
    /// The ETW session could not start; the text is the cause.
    EtwStart(String),
    StaleStart,
}

pub open spec fn error_text(e: Error) -> Seq<char> {
    match e {
        Error::EtwStart(m) => "ETW 세션 시작 실패: "@ + m@,
        Error::StaleStart => "ETW 세션 시작 요청이 최신 요청으로 대체되었습니다."@,
    }
}

impl Error {
    pub fn message(&self) -> (r: String)
        ensures
            r@ == error_text(*self),
    {
        match self {
            Error::EtwStart(m) => {
                let mut s = crate::text::owned("ETW 세션 시작 실패: ");
                crate::text::push_str(&mut s, m.as_str());
                s
            },
            Error::StaleStart => crate::text::owned("ETW 세션 시작 요청이 최신 요청으로 대체되었습니다."),
        }
    }
}

/// An event counts as a frame of the game only when it is a `PresentStart` of the game's
/// own process.
pub fn is_target_present_event(event_id: u16, event_pid: u32, target_pid: u32) -> (r: bool)
    ensures
        r == (event_id == PRESENT_START_EVENT_ID && event_pid == target_pid),
{
    event_id == PRESENT_START_EVENT_ID && event_pid == target_pid
}

/// A present at `t` has expired at `now` (times in milliseconds; a present stamped after
/// `now` has not).
pub open spec fn expired(t: u64, now: u64) -> bool {
    t <= now && now - t >= PRESENT_EVENT_TTL_MS
}

/// How many presents at the front of `ts` have expired at `now`.
pub open spec fn expired_prefix(ts: Seq<u64>, now: u64, i: int) -> int
    decreases ts.len() - i,
{
    if 0 <= i < ts.len() && expired(ts[i], now) { expired_prefix(ts, now, i + 1) } else { i }
}

pub proof fn lemma_expired_prefix_bounds(ts: Seq<u64>, now: u64, i: int)
    requires
        0 <= i <= ts.len(),
    ensures
        i <= expired_prefix(ts, now, i) <= ts.len(),
    decreases ts.len() - i,
{
    if 0 <= i < ts.len() && expired(ts[i], now) {
        lemma_expired_prefix_bounds(ts, now, i + 1);
    }
}

/// Drops the expired presents from the front of the queue (oldest first) and returns
/// how many remain: the frame rate over the last second.
pub fn prune_and_count(timestamps: &mut VecDeque<u64>, now: u64) -> (r: u32)
    ensures
        final(timestamps)@ == old(timestamps)@.skip(expired_prefix(old(timestamps)@, now, 0)),
        r == final(timestamps)@.len() as u32,
{
    proof { lemma_expired_prefix_bounds(old(timestamps)@, now, 0); }
    let ghost k: int = 0;
    loop
        invariant
            0 <= k <= old(timestamps)@.len(),
            timestamps@ == old(timestamps)@.skip(k),
            expired_prefix(old(timestamps)@, now, 0) == expired_prefix(old(timestamps)@, now, k),
        ensures
            timestamps@ == old(timestamps)@.skip(expired_prefix(old(timestamps)@, now, 0)),
        decreases timestamps@.len(),
    {
        if timestamps.len() == 0 {
            break;
        }
        let front = timestamps[0];
        if !(front <= now && now - front >= PRESENT_EVENT_TTL_MS) {
            break;
        }
        let _ = timestamps.pop_front();
        assert(old(timestamps)@.skip(k).subrange(1, old(timestamps)@.skip(k).len() as int) == old(timestamps)@.skip(k + 1));
        proof { k = k + 1; }
    }
    timestamps.len() as u32
}

// ---------------------------------------------------------------------------
// Start claims

/// The number of the latest start request; an older claim is stale.
#[derive(Debug, Clone, Copy)]
pub struct ClaimCounter {
    pub generation: u64,
}

impl ClaimCounter {
    pub fn new() -> (r: Self)
        ensures
            r.generation == 0,
    {
        ClaimCounter { generation: 0 }
    }

    /// Starts a new claim (the count wraps around) and returns its number.
    pub fn advance_start_claim(&mut self) -> (r: u64)
        ensures
            r == (if old(self).generation == u64::MAX { 0 } else { old(self).generation + 1 }),
            final(self).generation == r,
    {
        self.generation = self.generation.wrapping_add(1);
        self.generation
    }

    /// Claim `claim` is the latest.
    pub fn start_claim_is_current(&self, claim: u64) -> (r: bool)
        ensures
            r == (self.generation == claim),
    {
        self.generation == claim
    }
}

/// The trace session that currently runs and the number of its start.
#[derive(Debug)]
pub struct SessionOwner<T> {
    pub generation: u64,
    pub session: Option<T>,
}

impl<T> Default for SessionOwner<T> {
    fn default() -> (r: Self)
        ensures
            r.generation == 0,
            r.session is None,
    {
        SessionOwner { generation: 0, session: None }
    }
}

pub open spec fn next_generation(g: u64) -> u64 {
    if g == u64::MAX { 0 } else { (g + 1) as u64 }
}

/// Replaces the running session by a new one, if the caller's claim is still the latest:
/// the previous session is stopped first, then `start` runs. A stale claim changes
/// nothing and starts nothing. The result is the new session's number.
pub fn replace_owned_session<T, E, C, S, G>(owner: &mut SessionOwner<T>, claim_is_current: C, stop: S, start: G) -> (r: Result<Option<u64>, E>)
    where
        C: FnOnce() -> bool,
        S: FnOnce(T),
        G: FnOnce() -> Result<T, E>,
    requires
        call_requires(claim_is_current, ()),
        forall|t: T| call_ensures(claim_is_current, (), true) && old(owner).session == Some(t) ==> call_requires(stop, (t,)),
        call_ensures(claim_is_current, (), true) ==> call_requires(start, ()),
    ensures
        exists|current: bool| call_ensures(claim_is_current, (), current) && {
            &&& !current ==> (r matches Ok(None)) && *final(owner) == *old(owner)
            &&& current ==> {
                &&& final(owner).generation == next_generation(old(owner).generation)
                &&& old(owner).session is Some ==> call_ensures(stop, (old(owner).session->0,), ())
                &&& exists|started: Result<T, E>| call_ensures(start, (), started) && match started {
                    Ok(t) => final(owner).session == Some(t) && r == Ok::<Option<u64>, E>(Some(final(owner).generation)),
                    Err(e) => final(owner).session is None && r == Err::<Option<u64>, E>(e),
                }
            }
        },
{
    let current = claim_is_current();
    if !current {
        return Ok(None);
    }
    owner.generation = owner.generation.wrapping_add(1);
    let generation = owner.generation;
    match owner.session.take() {
        Some(previous) => stop(previous),
        None => {},
    }
    let started = start();
    match started {
        Ok(t) => {
            owner.session = Some(t);
            Ok(Some(generation))
        },
        Err(e) => Err(e),
    }
}

/// Stops the running session if it is the one numbered `generation`; a later session is
/// left alone.
pub fn stop_owned_session<T, S>(owner: &mut SessionOwner<T>, generation: u64, stop: S)
    where
        S: FnOnce(T),
    requires
        forall|t: T| old(owner).generation == generation && old(owner).session == Some(t) ==> call_requires(stop, (t,)),
    ensures
        old(owner).generation != generation ==> *final(owner) == *old(owner),
        old(owner).generation == generation ==> final(owner).generation == next_generation(generation)
            && final(owner).session is None,
        old(owner).generation == generation && old(owner).session is Some
            ==> call_ensures(stop, (old(owner).session->0,), ()),
{
    if owner.generation != generation {
        return;
    }
    owner.generation = owner.generation.wrapping_add(1);
    match owner.session.take() {
        Some(session) => stop(session),
        None => {},
    }
}

// ---------------------------------------------------------------------------
// Frame counting

/// The counters of one frame-rate session for the game process `target_pid`. Present
/// times are milliseconds on a monotonic clock.
#[derive(Debug)]
pub struct FpsSession {
    pub target_pid: u32,
    pub timestamps: VecDeque<u64>,
    pub total_events: u64,
    pub present_events: u64,
    pub generation: u64,
}

pub open spec fn wrapping_inc(x: u64) -> u64 {
    if x == u64::MAX { 0 } else { (x + 1) as u64 }
}

/// `after` is `before` with one ETW event of `event_pid` at `now` recorded: every event
/// is counted; a present of the game is also counted as a frame and the expired frames
/// are dropped.
pub open spec fn recorded_event(before: FpsSession, after: FpsSession, event_id: u16, event_pid: u32, now: u64) -> bool {
    &&& after.target_pid == before.target_pid
    &&& after.generation == before.generation
    &&& after.total_events == wrapping_inc(before.total_events)
    &&& !(event_id == PRESENT_START_EVENT_ID && event_pid == before.target_pid) ==> {
        &&& after.present_events == before.present_events
        &&& after.timestamps@ == before.timestamps@
    }
    &&& event_id == PRESENT_START_EVENT_ID && event_pid == before.target_pid ==> {
        let pushed = before.timestamps@.push(now);
        &&& after.present_events == wrapping_inc(before.present_events)
        &&& after.timestamps@ == pushed.skip(expired_prefix(pushed, now, 0))
    }
}

/// `after` is `before` with the frames expired at `now` dropped; nothing else changes.
pub open spec fn fps_counted(before: FpsSession, after: FpsSession, now: u64) -> bool {
    &&& after.timestamps@ == before.timestamps@.skip(expired_prefix(before.timestamps@, now, 0))
    &&& after.total_events == before.total_events
    &&& after.present_events == before.present_events
    &&& after.target_pid == before.target_pid
    &&& after.generation == before.generation
}

impl FpsSession {
    /// The frames counted in the last second are among the presents received.
    pub open spec fn frames_within_presents(&self) -> bool {
        self.timestamps@.len() <= self.present_events
    }

    pub fn new(target_pid: u32, generation: u64) -> (r: Self)
        ensures
            r.target_pid == target_pid,
            r.timestamps@ == Seq::<u64>::empty(),
            r.total_events == 0,
            r.present_events == 0,
            r.generation == generation,
            r.frames_within_presents(),
    {
        FpsSession { target_pid, timestamps: VecDeque::new(), total_events: 0, present_events: 0, generation }
    }

    /// One ETW event at `now`: every event is counted; a present of the game is also
    /// counted as a frame and the expired frames are dropped.
    pub fn record_event(&mut self, event_id: u16, event_pid: u32, now: u64)
        ensures
            recorded_event(*old(self), *final(self), event_id, event_pid, now),
            old(self).frames_within_presents() && old(self).present_events < u64::MAX ==> final(self).frames_within_presents(),
    {
        self.total_events = self.total_events.wrapping_add(1);
        if !is_target_present_event(event_id, event_pid, self.target_pid) {
            return;
        }
        self.present_events = self.present_events.wrapping_add(1);
        self.timestamps.push_back(now);
        let _ = prune_and_count(&mut self.timestamps, now);
        proof {
            lemma_expired_prefix_bounds(old(self).timestamps@.push(now), now, 0);
        }
    }

    /// The game's frames in the last second at `now`.
    pub fn current_fps(&mut self, now: u64) -> (r: u32)
        ensures
            fps_counted(*old(self), *final(self), now),
            old(self).frames_within_presents() ==> final(self).frames_within_presents(),
            r == final(self).timestamps@.len() as u32,
    {
        proof {
            lemma_expired_prefix_bounds(self.timestamps@, now, 0);
        }
        prune_and_count(&mut self.timestamps, now)
    }

    /// Every event the session received.
    pub fn total_events(&self) -> (r: u64)
        ensures
            r == self.total_events,
    {
        self.total_events
    }

    /// The game's presents the session received.
    pub fn present_events(&self) -> (r: u64)
        ensures
            r == self.present_events,
    {
        self.present_events
    }
}

} // verus!
