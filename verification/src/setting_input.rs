use vstd::prelude::*;
use crate::commands::{dto_to_mode, dto_to_theme, SettingInputDto, SettingKeyDto};
use crate::settings::{self, AppSettings};
use crate::text::{char_count, owned};

verus! {

/// Launcher paths longer than this many characters are refused.
pub const LAUNCHER_PATH_MAX_CHARS: usize = 512;

/// Why a settings change request is malformed, if it is: the key's value is missing or
/// not one of the values the UI offers. Choosing no default mode is valid.
pub open spec fn setting_input_error(input: SettingInputDto) -> Option<Seq<char>> {
    match input.key {
        SettingKeyDto::ThemeMode => if input.theme_mode is Some { None } else { Some("themeMode 값을 입력하세요."@) },
        SettingKeyDto::AccentPalette => if input.int_value matches Some(p) && p < settings::ACCENT_PALETTE_COUNT {
            None
        } else {
            Some("액센트 색상 값이 올바르지 않습니다."@)
        },
        SettingKeyDto::LauncherPath => if input.string_value is Some { None } else { Some("stringValue 값을 입력하세요."@) },
        SettingKeyDto::ReduceMotion
        | SettingKeyDto::AutoTrayOnGameMinimize
        | SettingKeyDto::CloseToTray
        | SettingKeyDto::AutostartEnabled
        | SettingKeyDto::AutostartMinimized
        | SettingKeyDto::UpdateAlertEnabled => if input.bool_value is Some { None } else { Some("boolValue 값을 입력하세요."@) },
        SettingKeyDto::DefaultMode => None,
        SettingKeyDto::MonitorInterval => if input.int_value matches Some(ms) && settings::is_monitor_interval(ms) {
            None
        } else {
            Some("모니터 갱신 주기는 500/1000/2000(ms)만 허용합니다."@)
        },
        SettingKeyDto::UpdateCheckInterval => if input.int_value matches Some(ms) && settings::is_update_interval(ms) {
            None
        } else {
            Some("업데이트 확인 주기는 6시간/12시간/하루/3일/일주일만 허용합니다."@)
        },
    }
}

pub fn validate_setting_input(input: &SettingInputDto) -> (r: Result<(), String>)
    ensures
        match r {
            Ok(()) => setting_input_error(*input) is None,
            Err(m) => setting_input_error(*input) == Some(m@),
        },
{
    match input.key {
        SettingKeyDto::ThemeMode => if input.theme_mode.is_some() { Ok(()) } else { Err(owned("themeMode 값을 입력하세요.")) },
        SettingKeyDto::AccentPalette => match input.int_value {
            Some(p) => if settings::is_supported_accent_palette(p) {
                Ok(())
            } else {
                Err(owned("액센트 색상 값이 올바르지 않습니다."))
            },
            None => Err(owned("액센트 색상 값이 올바르지 않습니다.")),
        },
        SettingKeyDto::LauncherPath => if input.string_value.is_some() { Ok(()) } else { Err(owned("stringValue 값을 입력하세요.")) },
        SettingKeyDto::ReduceMotion
        | SettingKeyDto::AutoTrayOnGameMinimize
        | SettingKeyDto::CloseToTray
        | SettingKeyDto::AutostartEnabled
        | SettingKeyDto::AutostartMinimized
        | SettingKeyDto::UpdateAlertEnabled => if input.bool_value.is_some() { Ok(()) } else { Err(owned("boolValue 값을 입력하세요.")) },
        SettingKeyDto::DefaultMode => Ok(()),
        SettingKeyDto::MonitorInterval => match input.int_value {
            Some(ms) => if ms == 500 || ms == 1000 || ms == 2000 {
                Ok(())
            } else {
                Err(owned("모니터 갱신 주기는 500/1000/2000(ms)만 허용합니다."))
            },
            None => Err(owned("모니터 갱신 주기는 500/1000/2000(ms)만 허용합니다.")),
        },
        SettingKeyDto::UpdateCheckInterval => match input.int_value {
            Some(ms) => if settings::is_supported_update_check_interval_ms(ms) {
                Ok(())
            } else {
                Err(owned("업데이트 확인 주기는 6시간/12시간/하루/3일/일주일만 허용합니다."))
            },
            None => Err(owned("업데이트 확인 주기는 6시간/12시간/하루/3일/일주일만 허용합니다.")),
        },
    }
}

/// What a settings change request leads to.
#[derive(Debug, Clone, PartialEq, Eq)]
pub enum SettingAction {
    /// Nothing changes; the message is shown.
    Reply(String),
    /// The settings file is changed by `apply_setting_change`.
    Save,
    /// The autostart task is registered (`true`) or removed (`false`).
    SetAutostart(bool),
    /// The autostart task is registered again with this start-minimized flag, if it exists.
    SetAutostartMinimized(bool),
}

/// `r` is what the change request `input` leads to: a malformed request is answered
/// with its error, an over-long launcher path is refused, the autostart keys go to the
/// task scheduler, and everything else is saved.
pub open spec fn is_setting_action(input: SettingInputDto, r: SettingAction) -> bool {
    match setting_input_error(input) {
        Some(m) => r matches SettingAction::Reply(x) && x@ == m,
        None => match input.key {
            SettingKeyDto::LauncherPath => if input.string_value->0@.len() > LAUNCHER_PATH_MAX_CHARS {
                r matches SettingAction::Reply(x) && x@ == "런처 경로가 너무 깁니다. 512자 이내로 입력하세요."@
            } else {
                r == SettingAction::Save
            },
            SettingKeyDto::AutostartEnabled => r == SettingAction::SetAutostart(input.bool_value->0),
            SettingKeyDto::AutostartMinimized => r == SettingAction::SetAutostartMinimized(input.bool_value->0),
            _ => r == SettingAction::Save,
        },
    }
}

/// The keys whose change is written to the settings file.
pub open spec fn is_saved_key(key: SettingKeyDto) -> bool {
    key != SettingKeyDto::AutostartEnabled && key != SettingKeyDto::AutostartMinimized
}

/// Decides what a settings change request does.
pub fn setting_action(input: &SettingInputDto) -> (r: SettingAction)
    ensures
        is_setting_action(*input, r),
{
    match validate_setting_input(input) {
        Err(m) => SettingAction::Reply(m),
        Ok(()) => match input.key {
            SettingKeyDto::LauncherPath => {
                let too_long = match &input.string_value {
                    Some(p) => char_count(p.as_str()) > LAUNCHER_PATH_MAX_CHARS,
                    None => false,
                };
                if too_long {
                    SettingAction::Reply(owned("런처 경로가 너무 깁니다. 512자 이내로 입력하세요."))
                } else {
                    SettingAction::Save
                }
            },
            SettingKeyDto::AutostartEnabled => SettingAction::SetAutostart(input.bool_value.unwrap()),
            SettingKeyDto::AutostartMinimized => SettingAction::SetAutostartMinimized(input.bool_value.unwrap()),
            _ => SettingAction::Save,
        },
    }
}

/// The settings after a valid change request has been saved.
pub open spec fn setting_applied(s: AppSettings, input: SettingInputDto) -> AppSettings {
    match input.key {
        SettingKeyDto::ThemeMode => AppSettings { theme_mode: dto_to_theme(input.theme_mode->0), ..s },
        SettingKeyDto::AccentPalette => AppSettings { accent_palette: input.int_value->0, ..s },
        SettingKeyDto::ReduceMotion => AppSettings { reduce_motion: input.bool_value->0, ..s },
        SettingKeyDto::AutoTrayOnGameMinimize => AppSettings { auto_tray_on_game_minimize: input.bool_value->0, ..s },
        SettingKeyDto::CloseToTray => AppSettings { close_to_tray: input.bool_value->0, ..s },
        SettingKeyDto::LauncherPath => AppSettings { launcher_path: input.string_value->0, ..s },
        SettingKeyDto::DefaultMode => AppSettings {
            default_mode: match input.default_mode { Some(m) => Some(dto_to_mode(m)), None => None },
            ..s
        },
        SettingKeyDto::MonitorInterval => AppSettings { monitor_interval_ms: input.int_value->0, ..s },
        SettingKeyDto::UpdateAlertEnabled => AppSettings { update_alert_enabled: input.bool_value->0, ..s },
        SettingKeyDto::UpdateCheckInterval => AppSettings { update_check_interval_ms: input.int_value->0, ..s },
        _ => s,
    }
}

/// The confirmation shown after a change was saved.
pub open spec fn setting_saved_message(input: SettingInputDto) -> Seq<char> {
    match input.key {
        SettingKeyDto::ThemeMode => "테마 설정을 저장했습니다."@,
        SettingKeyDto::AccentPalette => "액센트 색상을 저장했습니다."@,
        SettingKeyDto::ReduceMotion => "접근성 설정을 저장했습니다."@,
        SettingKeyDto::AutoTrayOnGameMinimize => "런처 동작 설정을 저장했습니다."@,
        SettingKeyDto::CloseToTray => "창 닫기 동작 설정을 저장했습니다."@,
        SettingKeyDto::LauncherPath => "런처 경로를 저장했습니다."@,
        SettingKeyDto::DefaultMode => if input.default_mode is Some {
            "기본 적용 모드를 저장했습니다."@
        } else {
            "기본 적용 모드를 사용 안 함으로 설정했습니다."@
        },
        SettingKeyDto::MonitorInterval => "모니터 갱신 주기를 저장했습니다."@,
        SettingKeyDto::UpdateAlertEnabled => if input.bool_value->0 {
            "업데이트 알림을 켰습니다."@
        } else {
            "업데이트 알림을 껐습니다."@
        },
        SettingKeyDto::UpdateCheckInterval => "업데이트 확인 주기를 저장했습니다."@,
        _ => Seq::<char>::empty(),
    }
}

/// Applies a well-formed change request of a key that the settings file holds.
pub fn apply_setting_change(loaded: &mut AppSettings, input: &SettingInputDto) -> (r: String)
    requires
        setting_input_error(*input) is None,
        is_saved_key(input.key),
    ensures
        *final(loaded) == setting_applied(*old(loaded), *input),
        r@ == setting_saved_message(*input),
{
    match input.key {
        SettingKeyDto::ThemeMode => {
            loaded.theme_mode = settings::ThemeMode::from(input.theme_mode.unwrap());
            owned("테마 설정을 저장했습니다.")
        },
        SettingKeyDto::AccentPalette => {
            loaded.accent_palette = input.int_value.unwrap();
            owned("액센트 색상을 저장했습니다.")
        },
        SettingKeyDto::ReduceMotion => {
            loaded.reduce_motion = input.bool_value.unwrap();
            owned("접근성 설정을 저장했습니다.")
        },
        SettingKeyDto::AutoTrayOnGameMinimize => {
            loaded.auto_tray_on_game_minimize = input.bool_value.unwrap();
            owned("런처 동작 설정을 저장했습니다.")
        },
        SettingKeyDto::CloseToTray => {
            loaded.close_to_tray = input.bool_value.unwrap();
            owned("창 닫기 동작 설정을 저장했습니다.")
        },
        SettingKeyDto::LauncherPath => {
            let path = match &input.string_value {
                Some(p) => p.clone(),
                None => String::new(),
            };
            loaded.launcher_path = path;
            owned("런처 경로를 저장했습니다.")
        },
        SettingKeyDto::DefaultMode => {
            loaded.default_mode = match input.default_mode {
                Some(m) => Some(crate::commands::backend_mode(m)),
                None => None,
            };
            match loaded.default_mode {
                Some(_) => owned("기본 적용 모드를 저장했습니다."),
                None => owned("기본 적용 모드를 사용 안 함으로 설정했습니다."),
            }
        },
        SettingKeyDto::MonitorInterval => {
            loaded.monitor_interval_ms = input.int_value.unwrap();
            owned("모니터 갱신 주기를 저장했습니다.")
        },
        SettingKeyDto::UpdateAlertEnabled => {
            loaded.update_alert_enabled = input.bool_value.unwrap();
            if loaded.update_alert_enabled {
                owned("업데이트 알림을 켰습니다.")
            } else {
                owned("업데이트 알림을 껐습니다.")
            }
        },
        SettingKeyDto::UpdateCheckInterval => {
            loaded.update_check_interval_ms = input.int_value.unwrap();
            owned("업데이트 확인 주기를 저장했습니다.")
        },
        _ => String::new(),
    }
}

/// The reply to switching autostart on or off, from the outcome of the registration or
/// removal. Removing a task that is not there is no error.
pub open spec fn autostart_enabled_reply(on: bool, result: Result<(), crate::autostart::Error>) -> Result<Seq<char>, Seq<char>> {
    match result {
        Ok(()) => if on { Ok("자동 시작을 등록했습니다."@) } else { Ok("자동 시작을 해제했습니다."@) },
        Err(e) => if e is TaskNotFound && !on {
            Ok("자동 시작이 이미 해제되어 있습니다."@)
        } else {
            Err(crate::autostart::error_text(e))
        },
    }
}

pub open spec fn reply_matches(r: Result<String, String>, s: Result<Seq<char>, Seq<char>>) -> bool {
    match (r, s) {
        (Ok(x), Ok(y)) => x@ == y,
        (Err(x), Err(y)) => x@ == y,
        _ => false,
    }
}

pub fn autostart_enabled_message(on: bool, result: &Result<(), crate::autostart::Error>) -> (r: Result<String, String>)
    ensures
        reply_matches(r, autostart_enabled_reply(on, *result)),
{
    match result {
        Ok(()) => if on { Ok(owned("자동 시작을 등록했습니다.")) } else { Ok(owned("자동 시작을 해제했습니다.")) },
        Err(e) => if e.is_task_not_found() && !on {
            Ok(owned("자동 시작이 이미 해제되어 있습니다."))
        } else {
            Err(e.message())
        },
    }
}

/// The reply to switching the start-minimized flag: nothing happens while autostart is
/// off (`result` is then absent); otherwise the outcome of registering again.
pub open spec fn autostart_minimized_reply(enabled: bool, on: bool, result: Option<Result<(), crate::autostart::Error>>) -> Result<Seq<char>, Seq<char>> {
    if !enabled {
        Ok("자동 시작이 꺼져 있습니다."@)
    } else {
        match result {
            Some(Ok(())) => if on {
                Ok("자동 시작을 트레이 시작으로 변경했습니다."@)
            } else {
                Ok("자동 시작을 일반 창으로 변경했습니다."@)
            },
            Some(Err(e)) => Err(crate::autostart::error_text(e)),
            None => Ok("자동 시작이 꺼져 있습니다."@),
        }
    }
}

pub fn autostart_minimized_message(enabled: bool, on: bool, result: &Option<Result<(), crate::autostart::Error>>) -> (r: Result<String, String>)
    ensures
        reply_matches(r, autostart_minimized_reply(enabled, on, *result)),
{
    if !enabled {
        return Ok(owned("자동 시작이 꺼져 있습니다."));
    }
    match result {
        Some(Ok(())) => if on {
            Ok(owned("자동 시작을 트레이 시작으로 변경했습니다."))
        } else {
            Ok(owned("자동 시작을 일반 창으로 변경했습니다."))
        },
        Some(Err(e)) => Err(e.message()),
        None => Ok(owned("자동 시작이 꺼져 있습니다.")),
    }
}

} // verus!
