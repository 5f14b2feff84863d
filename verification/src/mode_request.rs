use vstd::prelude::*;
use crate::schedule::OptimizeMode;
use crate::settings::AppSettings;
use crate::text::{owned, push_str};

verus! {

/// Re-applications after a mode change (the game's anti-cheat may reset the process),
/// in milliseconds after the request started.
pub const REAPPLY_TARGETS_MS: [u64; 5] = [500, 1000, 2000, 5000, 10000];

/// The number of the latest mode request; re-applications of older requests stop.
#[derive(Debug, Clone, Copy)]
pub struct ModeGeneration {
    pub value: u64,
}

impl ModeGeneration {
    pub fn new() -> (r: Self)
        ensures
            r.value == 0,
    {
        ModeGeneration { value: 0 }
    }

    /// Starts a new request and returns its number.
    pub fn begin_mode_generation(&mut self) -> (r: u64)
        requires
            old(self).value < u64::MAX,
        ensures
            r == old(self).value + 1,
            final(self).value == r,
    {
        self.value = self.value + 1;
        self.value
    }

    /// Request `generation` is still the latest.
    pub fn generation_is_current(&self, generation: u64) -> (r: bool)
        ensures
            r == (self.value == generation),
    {
        self.value == generation
    }
}

/// How long to sleep before the re-application due `target_ms` after the start, when
/// `elapsed_ms` have passed (none once it is due).
pub open spec fn reapply_wait_ms_spec(elapsed_ms: u64, target_ms: u64) -> u64 {
    if target_ms > elapsed_ms { (target_ms - elapsed_ms) as u64 } else { 0 }
}

pub fn reapply_wait_ms(elapsed_ms: u64, target_ms: u64) -> (r: u64)
    ensures
        r == reapply_wait_ms_spec(elapsed_ms, target_ms),
{
    target_ms.saturating_sub(elapsed_ms)
}

/// What to do at re-application number `step`.
#[derive(Debug, Clone, Copy, PartialEq, Eq, Structural)]
pub enum ReapplyDecision {
    /// All re-applications are done, or a newer request started: stop.
    Stop,
    /// The game is not running now: go on with the next re-application.
    Skip,
    /// Apply the mode to this process.
    Apply(u32),
}

/// The decision at re-application `step` (counted from 0 over `REAPPLY_TARGETS_MS`),
/// taken after waiting `reapply_wait_ms(elapsed, REAPPLY_TARGETS_MS[step])`:
/// stop after the last one or once a newer request started, skip while the game (looked
/// up afresh) is not running, and apply to the process found otherwise.
pub open spec fn reapply_step(step: int, generation_is_current: bool, pid: Option<u32>) -> ReapplyDecision {
    if step >= REAPPLY_TARGETS_MS.len() || !generation_is_current {
        ReapplyDecision::Stop
    } else {
        match pid {
            None => ReapplyDecision::Skip,
            Some(p) => ReapplyDecision::Apply(p),
        }
    }
}

/// The processes a run of re-applications applies the mode to, when at step `k` (from
/// `step` on) the request is current or not and the game is found as `obs[k]` says; the
/// run ends at the first `Stop`.
pub open spec fn reapply_run(obs: Seq<(bool, Option<u32>)>, step: int) -> Seq<u32>
    decreases obs.len() - step,
{
    if step < 0 || step >= obs.len() {
        Seq::empty()
    } else {
        match reapply_step(step, obs[step].0, obs[step].1) {
            ReapplyDecision::Stop => Seq::empty(),
            ReapplyDecision::Skip => reapply_run(obs, step + 1),
            ReapplyDecision::Apply(p) => seq![p] + reapply_run(obs, step + 1),
        }
    }
}

pub fn reapply_decision(step: usize, generation_is_current: bool, pid: Option<u32>) -> (r: ReapplyDecision)
    ensures
        r == reapply_step(step as int, generation_is_current, pid),
        step >= REAPPLY_TARGETS_MS.len() || !generation_is_current ==> r == ReapplyDecision::Stop,
        step < REAPPLY_TARGETS_MS.len() && generation_is_current ==> match pid {
            None => r == ReapplyDecision::Skip,
            Some(p) => r == ReapplyDecision::Apply(p),
        },
{
    if step >= REAPPLY_TARGETS_MS.len() || !generation_is_current {
        ReapplyDecision::Stop
    } else {
        match pid {
            None => ReapplyDecision::Skip,
            Some(p) => ReapplyDecision::Apply(p),
        }
    }
}

/// What a mode request does.
#[derive(Debug, Clone, Copy, PartialEq, Eq, Structural)]
pub enum PreparedModeRequest {
    /// Apply now, as request number `generation`.
    ApplyNow { generation: u64 },
    /// A schedule rule is in force with this mode; the user's choice was only saved.
    DeferredBySchedule(OptimizeMode),
}

/// A mode chosen by the user while a schedule rule is in force is saved (with `save`) and
/// not applied; a failed save is the result and no request is started. Otherwise a new
/// request is started (with `begin_generation`) and the mode is applied.
pub fn prepare_mode_request<E, S, G>(
    requested: OptimizeMode,
    persist_user_choice: bool,
    active_schedule: Option<OptimizeMode>,
    save: S,
    begin_generation: G,
) -> (r: Result<PreparedModeRequest, E>)
    where
        S: FnOnce(OptimizeMode) -> Result<(), E>,
        G: FnOnce() -> u64,
    requires
        persist_user_choice && active_schedule is Some ==> call_requires(save, (requested,)),
        !(persist_user_choice && active_schedule is Some) ==> call_requires(begin_generation, ()),
    ensures
        persist_user_choice && active_schedule is Some ==> exists|saved: Result<(), E>|
            #[trigger] call_ensures(save, (requested,), saved)
            && (saved is Ok ==> r == Ok::<PreparedModeRequest, E>(PreparedModeRequest::DeferredBySchedule(active_schedule->0)))
            && (saved is Err ==> r == Err::<PreparedModeRequest, E>(saved->Err_0)),
        !(persist_user_choice && active_schedule is Some) ==> exists|g: u64|
            call_ensures(begin_generation, (), g) && r == Ok::<PreparedModeRequest, E>(PreparedModeRequest::ApplyNow { generation: g }),
{
    if persist_user_choice {
        match active_schedule {
            Some(active_mode) => {
                let saved = save(requested);
                let ghost outcome = saved;
                let r = match saved {
                    Ok(()) => Ok(PreparedModeRequest::DeferredBySchedule(active_mode)),
                    Err(e) => Err(e),
                };
                assert(call_ensures(save, (requested,), outcome));
                return r;
            },
            None => {},
        }
    }
    let generation = begin_generation();
    Ok(PreparedModeRequest::ApplyNow { generation })
}

/// The settings with the user's last chosen mode recorded.
pub fn with_last_user_mode(settings: &mut AppSettings, mode: OptimizeMode)
    ensures
        *final(settings) == (AppSettings { last_user_mode: Some(mode), ..*old(settings) }),
{
    settings.last_user_mode = Some(mode);
}

/// The outcome of applying a mode to the game process.
#[derive(Debug, Clone, PartialEq, Eq)]
pub enum ApplyOutcome {
    /// The user's choice was saved while a schedule rule is in force.
    Deferred,
    /// Saving the user's choice failed (the text is the cause).
    SaveFailed(String),
    /// The game process is not running.
    NoProcess,
    /// Applied; saving the choice afterwards may have failed.
    Applied { save_error: Option<String> },
    /// The process could not be changed (the text is the cause).
    Failed(String),
}

pub open spec fn apply_message_text(mode: OptimizeMode, outcome: ApplyOutcome) -> Seq<char> {
    match outcome {
        ApplyOutcome::Deferred => "수동 모드를 저장했습니다. 활성 스케줄이 끝날 때까지 스케줄 모드를 유지합니다."@,
        ApplyOutcome::SaveFailed(e) => "수동 모드 저장에 실패했습니다: "@ + e@,
        ApplyOutcome::NoProcess => "BlackDesert64.exe 프로세스를 찾을 수 없습니다."@,
        ApplyOutcome::Applied { save_error } => match save_error {
            Some(e) => "모드는 적용했지만 설정 저장에 실패했습니다: "@ + e@,
            None => crate::commands::mode_success_text(mode),
        },
        ApplyOutcome::Failed(e) => "오류: "@ + e@,
    }
}

/// The status line after a mode request.
pub fn apply_message(mode: OptimizeMode, outcome: &ApplyOutcome) -> (r: String)
    ensures
        r@ == apply_message_text(mode, *outcome),
{
    match outcome {
        ApplyOutcome::Deferred => owned("수동 모드를 저장했습니다. 활성 스케줄이 끝날 때까지 스케줄 모드를 유지합니다."),
        ApplyOutcome::SaveFailed(e) => {
            let mut s = owned("수동 모드 저장에 실패했습니다: ");
            push_str(&mut s, e.as_str());
            s
        },
        ApplyOutcome::NoProcess => owned("BlackDesert64.exe 프로세스를 찾을 수 없습니다."),
        ApplyOutcome::Applied { save_error } => match save_error {
            Some(e) => {
                let mut s = owned("모드는 적용했지만 설정 저장에 실패했습니다: ");
                push_str(&mut s, e.as_str());
                s
            },
            None => match mode {
                OptimizeMode::High => owned("고성능 모드 적용 완료."),
                OptimizeMode::Normal => owned("일반 모드 적용 완료."),
                OptimizeMode::LowPower => owned("저전력 모드 적용 완료."),
            },
        },
        ApplyOutcome::Failed(e) => {
            let mut s = owned("오류: ");
            push_str(&mut s, e.as_str());
            s
        },
    }
}

/// The steps of a mode request: a choice made while a schedule rule is in force is only
/// saved; otherwise a new request number is taken, the game is looked up with
/// `find_game` and the mode applied with `apply`, and after a success the choice is saved
/// (when it is to be kept) and the re-applications are due under that number (the
/// second part of the result).
pub fn apply_mode_request<S, G, F, A>(
    requested: OptimizeMode,
    persist_user_choice: bool,
    active_schedule: Option<OptimizeMode>,
    save: &S,
    begin_generation: G,
    find_game: F,
    apply: A,
) -> (r: (ApplyOutcome, Option<u64>))
    where
        S: Fn(OptimizeMode) -> Result<(), String>,
        G: FnOnce() -> u64,
        F: FnOnce() -> Option<u32>,
        A: FnOnce(u32) -> Result<(), String>,
    requires
        persist_user_choice ==> call_requires(*save, (requested,)),
        !(persist_user_choice && active_schedule is Some) ==> call_requires(begin_generation, ()),
        !(persist_user_choice && active_schedule is Some) ==> call_requires(find_game, ()),
        forall|p: u32| !(persist_user_choice && active_schedule is Some) && call_ensures(find_game, (), Some(p))
            ==> call_requires(apply, (p,)),
    ensures
        persist_user_choice && active_schedule is Some ==> exists|saved: Result<(), String>|
            #[trigger] call_ensures(*save, (requested,), saved) && r.1 is None && match saved {
                Ok(_) => r.0 == ApplyOutcome::Deferred,
                Err(e) => r.0 == ApplyOutcome::SaveFailed(e),
            },
        !(persist_user_choice && active_schedule is Some) ==> exists|g: u64, found: Option<u32>|
            #[trigger] call_ensures(begin_generation, (), g) && #[trigger] call_ensures(find_game, (), found) && match found {
                None => r == (ApplyOutcome::NoProcess, None::<u64>),
                Some(p) => exists|res: Result<(), String>| #[trigger] call_ensures(apply, (p,), res) && match res {
                    Err(m) => r == (ApplyOutcome::Failed(m), None::<u64>),
                    Ok(_) => r.1 == Some(g) && r.0 is Applied && (persist_user_choice ==> exists|saved: Result<(), String>|
                        #[trigger] call_ensures(*save, (requested,), saved) && r.0->save_error == match saved {
                            Ok(_) => None::<String>,
                            Err(e) => Some(e),
                        }) && (!persist_user_choice ==> r.0->save_error is None),
                },
            },
{
    if persist_user_choice {
        match active_schedule {
            Some(_) => {
                let saved = save(requested);
                let ghost outcome = saved;
                let r = match saved {
                    Ok(()) => (ApplyOutcome::Deferred, None),
                    Err(e) => (ApplyOutcome::SaveFailed(e), None),
                };
                assert(call_ensures(*save, (requested,), outcome));
                return r;
            },
            None => {},
        }
    }
    let generation = begin_generation();
    let found = find_game();
    let pid = match found {
        None => return (ApplyOutcome::NoProcess, None),
        Some(p) => p,
    };
    let res = apply(pid);
    match res {
        Err(m) => (ApplyOutcome::Failed(m), None),
        Ok(()) => {
            let save_error = if persist_user_choice {
                let saved = save(requested);
                let ghost outcome = saved;
                let e = match saved {
                    Ok(()) => None,
                    Err(e) => Some(e),
                };
                assert(call_ensures(*save, (requested,), outcome));
                e
            } else {
                None
            };
            (ApplyOutcome::Applied { save_error }, Some(generation))
        },
    }
}

} // verus!
