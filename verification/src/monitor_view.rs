use vstd::prelude::*;
use crate::cmd::string_views;
use crate::commands::{MonitorSystemInfoDto, MonitorTotalsDto};
use crate::fps::next_generation;
use crate::system_info::SystemInfo;
use crate::text::{dec, join, owned, push_dec, push_str, trim};

verus! {

/// A release is announced when one is available, it has a version, and that version
/// was not announced before.
pub open spec fn should_alert(update_available: bool, latest: Seq<char>, last_notified: Option<Seq<char>>) -> bool {
    update_available && trim(latest).len() > 0 && last_notified != Some(latest)
}

pub fn should_alert_for_update(update_available: bool, latest_version: &str, last_notified_version: Option<&str>) -> (r: bool)
    ensures
        r == should_alert(update_available, latest_version@, match last_notified_version {
            Some(v) => Some(v@),
            None => None,
        }),
{
    if !update_available {
        return false;
    }
    let t = crate::text::trim_str(latest_version);
    if t.as_str().is_empty() {
        return false;
    }
    match last_notified_version {
        Some(v) => !crate::text::str_eq(v, latest_version),
        None => true,
    }
}

pub fn should_alert_for_update_for_test(update_available: bool, latest_version: &str, last_notified_version: Option<&str>) -> (r: bool)
    ensures
        r == should_alert(update_available, latest_version@, match last_notified_version {
            Some(v) => Some(v@),
            None => None,
        }),
{
    should_alert_for_update(update_available, latest_version, last_notified_version)
}

/// A frame-rate session is started for the observed game process unless a failed start
/// for it is still cooling down: when another process is followed, or the followed one
/// has neither a start in flight nor a session.
pub open spec fn claim_fps_start(followed: Option<u32>, starting: bool, has_session: bool, retry_blocked: bool, observed: u32) -> bool {
    !retry_blocked && (followed != Some(observed) || (!starting && !has_session))
}

pub fn should_claim_fps_start(tracked_pid: Option<u32>, starting: bool, has_session: bool, retry_blocked: bool, observed_pid: u32) -> (r: bool)
    ensures
        r == claim_fps_start(tracked_pid, starting, has_session, retry_blocked, observed_pid),
{
    !retry_blocked && (tracked_pid != Some(observed_pid) || (!starting && !has_session))
}

/// A finished start still counts when the same process is followed, its start is in
/// flight, and no newer claim was made.
pub fn fps_start_claim_is_current(tracked_pid: Option<u32>, starting: bool, current_generation: u64, claimed_pid: u32, claimed_generation: u64) -> (r: bool)
    ensures
        r == (tracked_pid == Some(claimed_pid) && starting && current_generation == claimed_generation),
{
    tracked_pid == Some(claimed_pid) && starting && current_generation == claimed_generation
}

/// The adapters as one line: `Unknown GPU` without any, else the names joined by ` / `.
pub open spec fn gpu_line(names: Seq<Seq<char>>) -> Seq<char> {
    if names.len() == 0 { "Unknown GPU"@ } else { join(names, " / "@) }
}

fn join_strings(parts: &Vec<String>, sep: &str) -> (r: String)
    ensures
        r@ == join(string_views(parts@), sep@),
{
    let mut r = String::new();
    let mut i: usize = 0;
    while i < parts.len()
        invariant
            i <= parts@.len(),
            r@ == join(string_views(parts@.take(i as int)), sep@),
        decreases parts.len() - i,
    {
        assert(string_views(parts@.take(i as int + 1)).drop_last() == string_views(parts@.take(i as int)));
        assert(string_views(parts@.take(i as int + 1)).last() == parts@[i as int]@);
        if i > 0 {
            push_str(&mut r, sep);
        }
        push_str(&mut r, parts[i].as_str());
        i = i + 1;
    }
    assert(parts@.take(parts@.len() as int) == parts@);
    r
}

fn clone_strings(v: &Vec<String>) -> (r: Vec<String>)
    ensures
        r@ == v@,
{
    let mut r: Vec<String> = Vec::new();
    let mut i: usize = 0;
    while i < v.len()
        invariant
            i <= v@.len(),
            r@ == v@.take(i as int),
        decreases v.len() - i,
    {
        r.push(v[i].clone());
        assert(v@.take(i as int + 1) == v@.take(i as int).push(v@[i as int]));
        i = i + 1;
    }
    assert(v@.take(v@.len() as int) == v@);
    r
}

pub fn monitor_system_info(info: &SystemInfo) -> (r: MonitorSystemInfoDto)
    ensures
        r.cpu_name == info.cpu_name,
        r.gpu_name@ == gpu_line(string_views(info.gpu_names@)),
        r.gpu_names@ == info.gpu_names@,
{
    let gpu_name = if info.gpu_names.len() == 0 {
        owned("Unknown GPU")
    } else {
        join_strings(&info.gpu_names, " / ")
    };
    MonitorSystemInfoDto { cpu_name: info.cpu_name.clone(), gpu_name, gpu_names: clone_strings(&info.gpu_names) }
}

pub fn monitor_system_info_for_test(cpu_name: String, gpu_names: Vec<String>) -> (r: MonitorSystemInfoDto)
    ensures
        r.cpu_name == cpu_name,
        r.gpu_name@ == gpu_line(string_views(gpu_names@)),
        r.gpu_names@ == gpu_names@,
{
    monitor_system_info(&SystemInfo { cpu_name, gpu_names })
}

pub fn monitor_totals(ram_mb: u64, vram_mb: u64) -> (r: MonitorTotalsDto)
    ensures
        r == (MonitorTotalsDto { ram_mb, vram_mb }),
{
    MonitorTotalsDto { ram_mb, vram_mb }
}

pub fn monitor_totals_for_test(ram_mb: u64, vram_mb: u64) -> (r: MonitorTotalsDto)
    ensures
        r == (MonitorTotalsDto { ram_mb, vram_mb }),
{
    monitor_totals(ram_mb, vram_mb)
}

/// The frame-rate cell: no session, the rate, events that were not the game's, or none.
/// A rate is shown only while a session runs and the game presented frames.
pub open spec fn fps_text(current_fps: u32, present_events: u64, total_events: u64, alive: bool) -> Seq<char> {
    if !alive {
        "세션 미시작"@
    } else if present_events > 0 {
        dec(current_fps as nat) + " FPS"@
    } else if total_events > 0 {
        "게임 Present 미수신 ("@ + dec(total_events as nat) + " ev)"@
    } else {
        "ETW 이벤트 없음"@
    }
}

pub fn monitor_fps_display(current_fps: u32, present_events: u64, total_events: u64, alive: bool) -> (r: (Option<u32>, String))
    ensures
        r.0 == (if alive && present_events > 0 { Some(current_fps) } else { None::<u32> }),
        r.1@ == fps_text(current_fps, present_events, total_events, alive),
{
    let text = if !alive {
        owned("세션 미시작")
    } else if present_events > 0 {
        let mut s = String::new();
        push_dec(&mut s, current_fps as u64);
        push_str(&mut s, " FPS");
        s
    } else if total_events > 0 {
        let mut s = owned("게임 Present 미수신 (");
        push_dec(&mut s, total_events);
        push_str(&mut s, " ev)");
        s
    } else {
        owned("ETW 이벤트 없음")
    };
    let fps = if alive && present_events > 0 { Some(current_fps) } else { None };
    (fps, text)
}

/// Core `index` may run the game: its bit is set in the affinity mask (an unknown mask
/// counts as all cores; cores beyond the mask's width as none).
pub open spec fn core_active(mask: Option<usize>, index: usize) -> bool {
    let m: usize = match mask { Some(m) => m, None => usize::MAX };
    index < usize::BITS && (m >> index) & 1 == 1
}

pub fn core_is_active(mask: Option<usize>, index: usize) -> (r: bool)
    ensures
        r == core_active(mask, index),
{
    let m: usize = match mask {
        Some(m) => m,
        None => usize::MAX,
    };
    if index >= usize::BITS as usize {
        return false;
    }
    let bit: usize = 1usize << index;
    let r = (m & bit) != 0;
    assert(((m & (1usize << index)) != 0) == ((m >> index) & 1 == 1)) by (bit_vector)
        requires index < usize::BITS;
    r
}

/// The status line of the monitor.
pub open spec fn monitor_status_text(pid: Option<u32>) -> Seq<char> {
    match pid {
        Some(p) => "PID "@ + dec(p as nat) + " 모니터링 중."@,
        None => "BlackDesert64.exe 프로세스를 찾을 수 없습니다."@,
    }
}

pub fn monitor_status(pid: Option<u32>) -> (r: String)
    ensures
        r@ == monitor_status_text(pid),
{
    match pid {
        Some(p) => {
            let mut s = owned("PID ");
            push_dec(&mut s, p as u64);
            push_str(&mut s, " 모니터링 중.");
            s
        },
        None => owned("BlackDesert64.exe 프로세스를 찾을 수 없습니다."),
    }
}

// ---------------------------------------------------------------------------
// Frame-rate session bookkeeping of the monitor

/// Which game process the frame counter follows, whether its start is in flight, the
/// number of the latest start, when a failed start may be retried (process and time in
/// milliseconds), and the running session.
pub struct FpsTracker<S> {
    pub pid: Option<u32>,
    pub starting: bool,
    pub generation: u64,
    pub retry: Option<(u32, u64)>,
    pub session: Option<S>,
}

/// What the caller does after an observation.
pub struct FpsObservation<S> {
    /// Start a session for this process with this number.
    pub claim: Option<(u32, u64)>,
    /// The session that was replaced or ended; the caller stops it.
    pub detached: Option<S>,
    /// Pending starts must be invalidated (the game was being followed and is gone).
    pub invalidate_claims: bool,
}

/// A failed start for `pid` is still cooling down at `now`.
pub open spec fn retry_blocked(retry: Option<(u32, u64)>, pid: u32, now: u64) -> bool {
    retry matches Some((rp, at)) && rp == pid && now < at
}

/// Milliseconds a failed start waits before the next try.
pub const FPS_RETRY_DELAY_MS: u64 = 5000;

impl<S> FpsTracker<S> {
    pub fn new() -> (r: Self)
        ensures
            r.pid is None,
            !r.starting,
            r.generation == 0,
            r.retry is None,
            r.session is None,
    {
        FpsTracker { pid: None, starting: false, generation: 0, retry: None, session: None }
    }

    /// One poll of the monitor at `now`, with the game process found (or not).
    /// Found and a start is due: the old session is detached and a new start is claimed.
    /// Not found: everything is reset and the session is detached.
    pub fn observe(&mut self, observed: Option<u32>, now: u64) -> (r: FpsObservation<S>)
        ensures
            match observed {
                Some(pid) => if claim_fps_start(old(self).pid, old(self).starting, old(self).session is Some, retry_blocked(old(self).retry, pid, now), pid) {
                    &&& final(self).pid == Some(pid)
                    &&& final(self).starting
                    &&& final(self).generation == next_generation(old(self).generation)
                    &&& final(self).retry is None
                    &&& final(self).session is None
                    &&& r.claim == Some((pid, final(self).generation))
                    &&& r.detached == old(self).session
                    &&& !r.invalidate_claims
                } else {
                    &&& final(self).pid == old(self).pid
                    &&& final(self).starting == old(self).starting
                    &&& final(self).generation == old(self).generation
                    &&& final(self).retry == old(self).retry
                    &&& final(self).session == old(self).session
                    &&& r.claim is None
                    &&& r.detached is None
                    &&& !r.invalidate_claims
                },
                None => {
                    &&& final(self).pid is None
                    &&& !final(self).starting
                    &&& final(self).generation == next_generation(old(self).generation)
                    &&& final(self).retry is None
                    &&& final(self).session is None
                    &&& r.claim is None
                    &&& r.detached == old(self).session
                    &&& r.invalidate_claims == (old(self).pid is Some || old(self).starting || old(self).session is Some)
                },
            },
    {
        match observed {
            Some(pid) => {
                let blocked = match self.retry {
                    Some((rp, at)) => rp == pid && now < at,
                    None => false,
                };
                if should_claim_fps_start(self.pid, self.starting, self.session.is_some(), blocked, pid) {
                    let detached = self.session.take();
                    self.pid = Some(pid);
                    self.starting = true;
                    self.generation = self.generation.wrapping_add(1);
                    self.retry = None;
                    FpsObservation { claim: Some((pid, self.generation)), detached, invalidate_claims: false }
                } else {
                    FpsObservation { claim: None, detached: None, invalidate_claims: false }
                }
            },
            None => {
                let invalidate_claims = self.pid.is_some() || self.starting || self.session.is_some();
                let detached = self.session.take();
                self.pid = None;
                self.starting = false;
                self.generation = self.generation.wrapping_add(1);
                self.retry = None;
                FpsObservation { claim: None, detached, invalidate_claims }
            },
        }
    }

    /// Settles the start claimed for `pid` as number `generation`. If the claim is still
    /// current the session is kept, or on failure the process may be retried after the
    /// delay; otherwise the started session is handed back to be stopped.
    pub fn finish_start(&mut self, pid: u32, generation: u64, started: Option<S>, now: u64) -> (r: Option<S>)
        ensures
            (old(self).pid == Some(pid) && old(self).starting && old(self).generation == generation) ==> {
                &&& r is None
                &&& !final(self).starting
                &&& final(self).generation == old(self).generation
                &&& match started {
                    Some(s) => final(self).session == Some(s) && final(self).retry is None && final(self).pid == old(self).pid,
                    None => final(self).session == old(self).session && final(self).pid is None
                        && final(self).retry == Some((pid, if now + FPS_RETRY_DELAY_MS > u64::MAX { u64::MAX } else { (now + FPS_RETRY_DELAY_MS) as u64 })),
                }
            },
            !(old(self).pid == Some(pid) && old(self).starting && old(self).generation == generation) ==> {
                &&& r == started
                &&& final(self).pid == old(self).pid
                &&& final(self).starting == old(self).starting
                &&& final(self).generation == old(self).generation
                &&& final(self).retry == old(self).retry
                &&& final(self).session == old(self).session
            },
    {
        if fps_start_claim_is_current(self.pid, self.starting, self.generation, pid, generation) {
            self.starting = false;
            match started {
                Some(s) => {
                    self.session = Some(s);
                    self.retry = None;
                },
                None => {
                    self.pid = None;
                    self.retry = Some((pid, now.saturating_add(FPS_RETRY_DELAY_MS)));
                },
            }
            None
        } else {
            started
        }
    }

    /// Ends frame counting (the monitor tab was left): everything is reset and the
    /// session is handed back to be stopped.
    pub fn stop(&mut self) -> (r: Option<S>)
        ensures
            r == old(self).session,
            final(self).pid is None,
            !final(self).starting,
            final(self).generation == next_generation(old(self).generation),
            final(self).retry is None,
            final(self).session is None,
    {
        self.pid = None;
        self.starting = false;
        self.generation = self.generation.wrapping_add(1);
        self.retry = None;
        self.session.take()
    }
}

} // verus!
