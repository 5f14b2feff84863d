use vstd::prelude::*;
use crate::process::{self, CpuInfo};
use crate::schedule::{self, OptimizeMode, ScheduleKind, ScheduleRule};
use crate::settings::{self, AppSettings, ThemeMode};
use crate::text::{owned, push_str};
use crate::update::APP_VERSION;

verus! {

#[derive(Debug, Clone, Copy, PartialEq, Eq, Structural)]
pub enum ModeDto {
    High,
    Normal,
    LowPower,
}

#[derive(Debug, Clone, PartialEq, Eq)]
pub struct StatusDto {
    pub current: String,
    pub previous: String,
}

#[derive(Debug, Clone, PartialEq, Eq)]
pub struct ControlStateDto {
    pub admin_ok: bool,
    pub game_running: bool,
    pub current_mode: Option<ModeDto>,
    pub current_mode_known: bool,
    pub launcher_path: String,
}

#[derive(Debug, Clone, PartialEq, Eq)]
pub struct CommandResponseDto {
    pub status: StatusDto,
    pub control: ControlStateDto,
}

#[derive(Debug, Clone, Copy, PartialEq, Eq, Structural)]
pub enum ScheduleKindDto {
    Daily,
    Weekday,
    Weekend,
    SpecificDate,
}

#[derive(Debug, Clone, Copy, PartialEq, Eq, Structural)]
pub enum WeekdayDto {
    Mon,
    Tue,
    Wed,
    Thu,
    Fri,
    Sat,
    Sun,
}

#[derive(Debug, Clone, Copy, PartialEq, Eq, Structural)]
pub enum ShutdownKindDto {
    Once,
    Weekly,
}

#[derive(Debug, Clone, PartialEq, Eq)]
pub struct ScheduleRuleDto {
    pub id: u32,
    pub name: String,
    pub kind: ScheduleKindDto,
    pub date: Option<String>,
    pub start_time: String,
    pub end_time: String,
    pub mode: ModeDto,
    pub active: bool,
    pub summary: String,
}

#[derive(Debug, Clone, PartialEq, Eq)]
pub struct ScheduleStateDto {
    pub active_rule_info: String,
    pub rules: Vec<ScheduleRuleDto>,
    pub empty: bool,
}

#[derive(Debug, Clone, PartialEq, Eq)]
pub struct ScheduleCommandResponseDto {
    pub status: StatusDto,
    pub schedule: ScheduleStateDto,
}

#[derive(Debug, Clone, PartialEq, Eq)]
pub struct ScheduleRuleInputDto {
    pub name: String,
    pub kind: ScheduleKindDto,
    pub date: Option<String>,
    pub start_time: String,
    pub end_time: String,
    pub mode: ModeDto,
}

#[derive(Debug, Clone, PartialEq, Eq)]
pub struct ShutdownStateDto {
    pub once_text: String,
    pub once_active: bool,
    pub once_date: Option<String>,
    pub once_time: Option<String>,
    pub weekly_text: String,
    pub weekly_active: bool,
    pub weekly_days: Vec<WeekdayDto>,
    pub weekly_time: Option<String>,
}

#[derive(Debug, Clone, PartialEq, Eq)]
pub struct ShutdownCommandResponseDto {
    pub status: StatusDto,
    pub shutdown: ShutdownStateDto,
}

#[derive(Debug, Clone, PartialEq, Eq)]
pub struct ShutdownInputDto {
    pub kind: ShutdownKindDto,
    pub date: Option<String>,
    pub time: String,
    pub days: Vec<WeekdayDto>,
}

#[derive(Debug, Clone, Copy, PartialEq, Eq, Structural)]
pub enum ThemeModeDto {
    Light,
    Dark,
    System,
}

#[derive(Debug, Clone, PartialEq, Eq)]
pub struct SettingsStateDto {
    pub theme_mode: ThemeModeDto,
    pub effective_dark: bool,
    pub accent_palette: u32,
    pub reduce_motion: bool,
    pub auto_tray_on_game_minimize: bool,
    pub close_to_tray: bool,
    pub autostart_enabled: bool,
    pub autostart_minimized: bool,
    pub launcher_path: String,
    pub default_mode: Option<ModeDto>,
    pub monitor_interval_ms: u32,
    pub update_alert_enabled: bool,
    pub update_check_interval_ms: u32,
}

#[derive(Debug, Clone, PartialEq, Eq)]
pub struct SettingsCommandResponseDto {
    pub status: StatusDto,
    pub settings: SettingsStateDto,
}

#[derive(Debug, Clone, Copy, PartialEq, Eq, Structural)]
pub enum SettingKeyDto {
    ThemeMode,
    AccentPalette,
    ReduceMotion,
    AutoTrayOnGameMinimize,
    CloseToTray,
    AutostartEnabled,
    AutostartMinimized,
    LauncherPath,
    DefaultMode,
    MonitorInterval,
    UpdateAlertEnabled,
    UpdateCheckInterval,
}

#[derive(Debug, Clone, PartialEq, Eq)]
pub struct SettingInputDto {
    pub key: SettingKeyDto,
    pub theme_mode: Option<ThemeModeDto>,
    pub bool_value: Option<bool>,
    pub string_value: Option<String>,
    pub default_mode: Option<ModeDto>,
    pub int_value: Option<u32>,
}

#[derive(Debug, Clone, PartialEq, Eq)]
pub struct UpdateStateDto {
    pub status_text: String,
    pub available: bool,
    pub checking: bool,
    pub release_url: String,
    pub app_version: String,
    pub latest_version: Option<String>,
    pub notes: Option<String>,
}

#[derive(Debug, Clone, PartialEq, Eq)]
pub struct UpdateCommandResponseDto {
    pub status: StatusDto,
    pub update: UpdateStateDto,
}

#[derive(Debug, Clone, PartialEq, Eq)]
pub struct UpdateAlertCommandResponseDto {
    pub status: StatusDto,
    pub update: UpdateStateDto,
    pub should_alert: bool,
    pub alert_text: String,
}

#[derive(Debug, Clone, PartialEq, Eq)]
pub struct MonitorSystemInfoDto {
    pub cpu_name: String,
    pub gpu_name: String,
    pub gpu_names: Vec<String>,
}

#[derive(Debug, Clone, Copy, PartialEq, Eq)]
pub struct MonitorTotalsDto {
    pub ram_mb: u64,
    pub vram_mb: u64,
}

// ---------------------------------------------------------------------------
// Mode and theme conversions

pub open spec fn mode_to_dto(mode: OptimizeMode) -> ModeDto {
    match mode {
        OptimizeMode::High => ModeDto::High,
        OptimizeMode::Normal => ModeDto::Normal,
        OptimizeMode::LowPower => ModeDto::LowPower,
    }
}

pub open spec fn dto_to_mode(mode: ModeDto) -> OptimizeMode {
    match mode {
        ModeDto::High => OptimizeMode::High,
        ModeDto::Normal => OptimizeMode::Normal,
        ModeDto::LowPower => OptimizeMode::LowPower,
    }
}

impl From<OptimizeMode> for ModeDto {
    fn from(mode: OptimizeMode) -> (r: Self) {
        match mode {
            OptimizeMode::High => ModeDto::High,
            OptimizeMode::Normal => ModeDto::Normal,
            OptimizeMode::LowPower => ModeDto::LowPower,
        }
    }
}

impl vstd::std_specs::convert::FromSpecImpl<OptimizeMode> for ModeDto {
    open spec fn obeys_from_spec() -> bool {
        true
    }

    open spec fn from_spec(mode: OptimizeMode) -> ModeDto {
        mode_to_dto(mode)
    }
}

impl From<ModeDto> for OptimizeMode {
    fn from(mode: ModeDto) -> (r: Self) {
        match mode {
            ModeDto::High => OptimizeMode::High,
            ModeDto::Normal => OptimizeMode::Normal,
            ModeDto::LowPower => OptimizeMode::LowPower,
        }
    }
}

impl vstd::std_specs::convert::FromSpecImpl<ModeDto> for OptimizeMode {
    open spec fn obeys_from_spec() -> bool {
        true
    }

    open spec fn from_spec(mode: ModeDto) -> OptimizeMode {
        dto_to_mode(mode)
    }
}

pub open spec fn theme_to_dto(mode: ThemeMode) -> ThemeModeDto {
    match mode {
        ThemeMode::Light => ThemeModeDto::Light,
        ThemeMode::Dark => ThemeModeDto::Dark,
        ThemeMode::System => ThemeModeDto::System,
    }
}

pub open spec fn dto_to_theme(mode: ThemeModeDto) -> ThemeMode {
    match mode {
        ThemeModeDto::Light => ThemeMode::Light,
        ThemeModeDto::Dark => ThemeMode::Dark,
        ThemeModeDto::System => ThemeMode::System,
    }
}

impl From<ThemeMode> for ThemeModeDto {
    fn from(mode: ThemeMode) -> (r: Self) {
        match mode {
            ThemeMode::Light => ThemeModeDto::Light,
            ThemeMode::Dark => ThemeModeDto::Dark,
            ThemeMode::System => ThemeModeDto::System,
        }
    }
}

impl vstd::std_specs::convert::FromSpecImpl<ThemeMode> for ThemeModeDto {
    open spec fn obeys_from_spec() -> bool {
        true
    }

    open spec fn from_spec(mode: ThemeMode) -> ThemeModeDto {
        theme_to_dto(mode)
    }
}

impl From<ThemeModeDto> for ThemeMode {
    fn from(mode: ThemeModeDto) -> (r: Self) {
        match mode {
            ThemeModeDto::Light => ThemeMode::Light,
            ThemeModeDto::Dark => ThemeMode::Dark,
            ThemeModeDto::System => ThemeMode::System,
        }
    }
}

impl vstd::std_specs::convert::FromSpecImpl<ThemeModeDto> for ThemeMode {
    open spec fn obeys_from_spec() -> bool {
        true
    }

    open spec fn from_spec(mode: ThemeModeDto) -> ThemeMode {
        dto_to_theme(mode)
    }
}

pub fn mode_dto(mode: OptimizeMode) -> (r: ModeDto)
    ensures
        r == mode_to_dto(mode),
{
    ModeDto::from(mode)
}

pub fn backend_mode(mode: ModeDto) -> (r: OptimizeMode)
    ensures
        r == dto_to_mode(mode),
{
    OptimizeMode::from(mode)
}

pub open spec fn mode_label_spec(mode: ModeDto) -> Seq<char> {
    match mode {
        ModeDto::High => "고성능 모드"@,
        ModeDto::Normal => "일반 모드"@,
        ModeDto::LowPower => "저전력 모드"@,
    }
}

pub fn mode_label(mode: ModeDto) -> (r: &'static str)
    ensures
        r@ == mode_label_spec(mode),
{
    match mode {
        ModeDto::High => "고성능 모드",
        ModeDto::Normal => "일반 모드",
        ModeDto::LowPower => "저전력 모드",
    }
}

pub open spec fn mode_success_text(mode: OptimizeMode) -> Seq<char> {
    match mode {
        OptimizeMode::High => "고성능 모드 적용 완료."@,
        OptimizeMode::Normal => "일반 모드 적용 완료."@,
        OptimizeMode::LowPower => "저전력 모드 적용 완료."@,
    }
}

/// The affinity mask, the priority class and the success message of a mode.
pub fn mode_params(mode: OptimizeMode, info: &CpuInfo) -> (r: (usize, u32, &'static str))
    ensures
        r.1 == process::mode_priority(mode),
        r.2@ == mode_success_text(mode),
        mode == OptimizeMode::High ==> process::is_high_affinity(*info, r.0),
        mode == OptimizeMode::Normal ==> process::is_normal_affinity(*info, r.0),
        mode == OptimizeMode::LowPower ==> process::is_low_power_affinity(*info, r.0),
{
    match mode {
        OptimizeMode::High => (process::calc_high_affinity(info), process::HIGH_PRIORITY_CLASS, "고성능 모드 적용 완료."),
        OptimizeMode::Normal => (process::calc_normal_affinity(info), process::NORMAL_PRIORITY_CLASS, "일반 모드 적용 완료."),
        OptimizeMode::LowPower => (process::calc_low_power_affinity(info), process::IDLE_PRIORITY_CLASS, "저전력 모드 적용 완료."),
    }
}

// ---------------------------------------------------------------------------
// Response builders

pub fn build_control_state(
    admin_ok: bool,
    game_running: bool,
    current_mode: Option<ModeDto>,
    launcher_path: String,
) -> (r: ControlStateDto)
    ensures
        r == (ControlStateDto { admin_ok, game_running, current_mode, current_mode_known: current_mode is Some, launcher_path }),
{
    ControlStateDto {
        admin_ok,
        game_running,
        current_mode,
        current_mode_known: current_mode.is_some(),
        launcher_path,
    }
}

pub fn control_state_for_test(
    admin_ok: bool,
    game_running: bool,
    current_mode: Option<ModeDto>,
    launcher_path: String,
) -> (r: ControlStateDto)
    ensures
        r == (ControlStateDto { admin_ok, game_running, current_mode, current_mode_known: current_mode is Some, launcher_path }),
{
    build_control_state(admin_ok, game_running, current_mode, launcher_path)
}

/// A status line with the given message and no previous message.
pub fn status(current: &str) -> (r: StatusDto)
    ensures
        r.current@ == current@,
        r.previous@ == Seq::<char>::empty(),
{
    StatusDto { current: owned(current), previous: String::new() }
}

pub fn command_response(current: &str, control: ControlStateDto) -> (r: CommandResponseDto)
    ensures
        r.status.current@ == current@,
        r.status.previous@ == Seq::<char>::empty(),
        r.control == control,
{
    CommandResponseDto { status: status(current), control }
}

pub fn command_response_for_test(current: String, control: ControlStateDto) -> (r: CommandResponseDto)
    ensures
        r.status.current@ == current@,
        r.status.previous@ == Seq::<char>::empty(),
        r.control == control,
{
    command_response(current.as_str(), control)
}

/// The settings as the UI shows them: an unsupported palette shows as 0 and an
/// unsupported update interval as one day.
pub open spec fn settings_state_spec(
    loaded: AppSettings,
    autostart_enabled: bool,
    autostart_minimized: bool,
    effective_dark: bool,
) -> SettingsStateDto {
    SettingsStateDto {
        theme_mode: theme_to_dto(loaded.theme_mode),
        effective_dark,
        accent_palette: if loaded.accent_palette < settings::ACCENT_PALETTE_COUNT { loaded.accent_palette } else { 0 },
        reduce_motion: loaded.reduce_motion,
        auto_tray_on_game_minimize: loaded.auto_tray_on_game_minimize,
        close_to_tray: loaded.close_to_tray,
        autostart_enabled,
        autostart_minimized,
        launcher_path: loaded.launcher_path,
        default_mode: match loaded.default_mode { Some(m) => Some(mode_to_dto(m)), None => None },
        monitor_interval_ms: loaded.monitor_interval_ms,
        update_alert_enabled: loaded.update_alert_enabled,
        update_check_interval_ms: if settings::is_update_interval(loaded.update_check_interval_ms) {
            loaded.update_check_interval_ms
        } else {
            settings::UPDATE_CHECK_INTERVAL_1D_MS
        },
    }
}

/// Builds the settings state; the dark flag comes from `resolve_dark_mode`, which asks
/// `detect_os_dark` only for the System theme.
pub fn settings_state<F: FnOnce() -> bool>(
    loaded: AppSettings,
    autostart_enabled: bool,
    autostart_minimized: bool,
    detect_os_dark: F,
) -> (r: SettingsStateDto)
    requires
        loaded.theme_mode == ThemeMode::System ==> call_requires(detect_os_dark, ()),
    ensures
        exists|dark: bool| r == settings_state_spec(loaded, autostart_enabled, autostart_minimized, dark)
            && (loaded.theme_mode == ThemeMode::Light ==> !dark)
            && (loaded.theme_mode == ThemeMode::Dark ==> dark)
            && (loaded.theme_mode == ThemeMode::System ==> call_ensures(detect_os_dark, (), dark)),
{
    let update_check_interval_ms = if settings::is_supported_update_check_interval_ms(loaded.update_check_interval_ms) {
        loaded.update_check_interval_ms
    } else {
        settings::UPDATE_CHECK_INTERVAL_1D_MS
    };
    let dark = settings::resolve_dark_mode(loaded.theme_mode, detect_os_dark);
    let default_mode = match loaded.default_mode {
        Some(m) => Some(mode_dto(m)),
        None => None,
    };
    let r = SettingsStateDto {
        theme_mode: ThemeModeDto::from(loaded.theme_mode),
        effective_dark: dark,
        accent_palette: if settings::is_supported_accent_palette(loaded.accent_palette) { loaded.accent_palette } else { 0 },
        reduce_motion: loaded.reduce_motion,
        auto_tray_on_game_minimize: loaded.auto_tray_on_game_minimize,
        close_to_tray: loaded.close_to_tray,
        autostart_enabled,
        autostart_minimized,
        launcher_path: loaded.launcher_path,
        default_mode,
        monitor_interval_ms: loaded.monitor_interval_ms,
        update_alert_enabled: loaded.update_alert_enabled,
        update_check_interval_ms,
    };
    assert(r == settings_state_spec(loaded, autostart_enabled, autostart_minimized, dark));
    r
}

/// The settings state used by the UI tests: System theme, light, defaults elsewhere.
pub fn settings_state_for_test() -> (r: SettingsStateDto)
    ensures
        r.theme_mode == ThemeModeDto::System,
        !r.effective_dark,
        r.accent_palette == 0,
        r.launcher_path@ == Seq::<char>::empty(),
        r.default_mode is None,
        r.monitor_interval_ms == 1000,
        r.update_alert_enabled,
        r.update_check_interval_ms == settings::UPDATE_CHECK_INTERVAL_1D_MS,
        !r.reduce_motion && !r.auto_tray_on_game_minimize && !r.close_to_tray,
        !r.autostart_enabled && !r.autostart_minimized,
{
    SettingsStateDto {
        theme_mode: ThemeModeDto::System,
        effective_dark: false,
        accent_palette: 0,
        reduce_motion: false,
        auto_tray_on_game_minimize: false,
        close_to_tray: false,
        autostart_enabled: false,
        autostart_minimized: false,
        launcher_path: String::new(),
        default_mode: None,
        monitor_interval_ms: 1000,
        update_alert_enabled: true,
        update_check_interval_ms: settings::UPDATE_CHECK_INTERVAL_1D_MS,
    }
}

pub fn settings_command_response(current: &str, settings: SettingsStateDto) -> (r: SettingsCommandResponseDto)
    ensures
        r.status.current@ == current@,
        r.status.previous@ == Seq::<char>::empty(),
        r.settings == settings,
{
    SettingsCommandResponseDto { status: status(current), settings }
}

pub fn update_state(
    status_text: String,
    available: bool,
    checking: bool,
    release_url: String,
    app_version: String,
    latest_version: Option<String>,
    notes: Option<String>,
) -> (r: UpdateStateDto)
    ensures
        r == (UpdateStateDto { status_text, available, checking, release_url, app_version, latest_version, notes }),
{
    UpdateStateDto { status_text, available, checking, release_url, app_version, latest_version, notes }
}

pub fn update_state_for_test(
    status_text: String,
    available: bool,
    checking: bool,
    release_url: String,
    app_version: String,
    latest_version: Option<String>,
    notes: Option<String>,
) -> (r: UpdateStateDto)
    ensures
        r == (UpdateStateDto { status_text, available, checking, release_url, app_version, latest_version, notes }),
{
    update_state(status_text, available, checking, release_url, app_version, latest_version, notes)
}

/// The update card before any check.
pub fn initial_update_state() -> (r: UpdateStateDto)
    ensures
        r.status_text@ == "업데이트 확인 전."@,
        !r.available,
        !r.checking,
        r.release_url@ == Seq::<char>::empty(),
        r.app_version@ == APP_VERSION@,
        r.latest_version is None,
        r.notes is None,
{
    update_state(owned("업데이트 확인 전."), false, false, String::new(), owned(APP_VERSION), None, None)
}

pub fn update_state_from_check(check: crate::update::UpdateCheck) -> (r: UpdateStateDto)
    ensures
        r.status_text == check.status_text,
        r.available == check.update_available,
        !r.checking,
        r.release_url@ == Seq::<char>::empty(),
        r.app_version@ == APP_VERSION@,
        r.latest_version == Some(check.latest_version),
        r.notes == check.notes,
{
    update_state(
        check.status_text,
        check.update_available,
        false,
        String::new(),
        owned(APP_VERSION),
        Some(check.latest_version),
        check.notes,
    )
}

/// The update card after a failed check: the error is the status.
pub fn update_error_state(message: &str) -> (r: UpdateStateDto)
    ensures
        r.status_text@ == message@,
        !r.available,
        !r.checking,
        r.release_url@ == Seq::<char>::empty(),
        r.app_version@ == APP_VERSION@,
        r.latest_version is None,
        r.notes is None,
{
    update_state(owned(message), false, false, String::new(), owned(APP_VERSION), None, None)
}

pub fn update_command_response(current: &str, update: UpdateStateDto) -> (r: UpdateCommandResponseDto)
    ensures
        r.status.current@ == current@,
        r.status.previous@ == Seq::<char>::empty(),
        r.update == update,
{
    UpdateCommandResponseDto { status: status(current), update }
}

pub fn update_alert_command_response(
    current: &str,
    update: UpdateStateDto,
    should_alert: bool,
    alert_text: String,
) -> (r: UpdateAlertCommandResponseDto)
    ensures
        r.status.current@ == current@,
        r.status.previous@ == Seq::<char>::empty(),
        r.update == update,
        r.should_alert == should_alert,
        r.alert_text == alert_text,
{
    UpdateAlertCommandResponseDto { status: status(current), update, should_alert, alert_text }
}

/// `u` is the update card after check `c`.
pub open spec fn is_check_state(c: crate::update::UpdateCheck, u: UpdateStateDto) -> bool {
    &&& u.status_text == c.status_text && u.available == c.update_available && !u.checking
    &&& u.release_url@ == Seq::<char>::empty() && u.app_version@ == APP_VERSION@
    &&& u.latest_version == Some(c.latest_version) && u.notes == c.notes
}

/// `u` is the update card after a check that failed with `m`.
pub open spec fn is_error_state(m: Seq<char>, u: UpdateStateDto) -> bool {
    &&& u.status_text@ == m && !u.available && !u.checking
    &&& u.release_url@ == Seq::<char>::empty() && u.app_version@ == APP_VERSION@
    &&& u.latest_version is None && u.notes is None
}

/// `u` is the update card before any check.
pub open spec fn is_initial_state(u: UpdateStateDto) -> bool {
    is_error_state("업데이트 확인 전."@, u)
}

/// The reply of an alert check with status `current`, card `u`, and the alert: alerting
/// shows the status text, otherwise the alert text is empty.
pub open spec fn is_alert_reply(r: UpdateAlertCommandResponseDto, current: Seq<char>, alert: bool) -> bool {
    &&& r.status.current@ == current && r.status.previous@ == Seq::<char>::empty()
    &&& r.should_alert == alert
    &&& r.alert_text@ == (if alert { r.update.status_text@ } else { Seq::<char>::empty() })
}

/// Checks for a new release and says whether to alert the user. With alerts off nothing
/// is checked. A failed check is reported in the status. When a release is offered,
/// `record` notes it in the settings (see `update::record_update_alert`) and tells
/// whether it is new; a failure to save that is the error. The alert shows the status
/// text.
pub fn check_update_alert<C, R>(alerts_enabled: bool, check: C, record: R) -> (r: Result<UpdateAlertCommandResponseDto, String>)
    where
        C: FnOnce() -> Result<crate::update::UpdateCheck, String>,
        R: FnOnce(&crate::update::UpdateCheck) -> Result<bool, String>,
    requires
        alerts_enabled ==> call_requires(check, ()),
        forall|c: &crate::update::UpdateCheck| alerts_enabled && c.update_available ==> call_requires(record, (c,)),
    ensures
        !alerts_enabled ==> (r matches Ok(x) && is_alert_reply(x, "업데이트 알림이 꺼져 있습니다."@, false)
            && is_initial_state(x.update)),
        alerts_enabled ==> exists|res: Result<crate::update::UpdateCheck, String>| call_ensures(check, (), res) && match res {
            Err(m) => r matches Ok(x) && is_alert_reply(x, m@, false) && is_error_state(m@, x.update),
            Ok(c) => if !c.update_available {
                r matches Ok(x) && is_alert_reply(x, c.status_text@, false) && is_check_state(c, x.update)
            } else {
                exists|rec: Result<bool, String>| call_ensures(record, (&c,), rec) && match rec {
                    Err(e) => r == Err::<UpdateAlertCommandResponseDto, String>(e),
                    Ok(a) => r matches Ok(x) && is_alert_reply(x, c.status_text@, a) && is_check_state(c, x.update),
                }
            },
        },
{
    if !alerts_enabled {
        let u = initial_update_state();
        return Ok(update_alert_command_response("업데이트 알림이 꺼져 있습니다.", u, false, String::new()));
    }
    let res = check();
    match res {
        Err(m) => {
            let u = update_error_state(m.as_str());
            Ok(update_alert_command_response(m.as_str(), u, false, String::new()))
        },
        Ok(c) => {
            let alert = if c.update_available {
                let rec = record(&c);
                match rec {
                    Err(e) => return Err(e),
                    Ok(a) => a,
                }
            } else {
                false
            };
            let text = owned(c.status_text.as_str());
            let u = update_state_from_check(c);
            let alert_text = if alert { owned(text.as_str()) } else { String::new() };
            Ok(update_alert_command_response(text.as_str(), u, alert, alert_text))
        },
    }
}

} // verus!
