use vstd::prelude::*;
use crate::schedule::OptimizeMode;
use crate::text::{
    chars_eq, chars_of, last_token, last_token_chars, owned, push_str, split_char, split_chars,
};

verus! {

/// Colour theme choice.
#[derive(Debug, Clone, Copy, PartialEq, Eq, Structural)]
pub enum ThemeMode {
    Light,
    Dark,
    System,
}

impl Default for ThemeMode {
    fn default() -> (r: Self)
        ensures
            r == ThemeMode::System,
    {
        ThemeMode::System
    }
}

pub const UPDATE_CHECK_INTERVAL_6H_MS: u32 = 21_600_000;
pub const UPDATE_CHECK_INTERVAL_12H_MS: u32 = 43_200_000;
pub const UPDATE_CHECK_INTERVAL_1D_MS: u32 = 86_400_000;
pub const UPDATE_CHECK_INTERVAL_3D_MS: u32 = 259_200_000;
pub const UPDATE_CHECK_INTERVAL_7D_MS: u32 = 604_800_000;

pub const ACCENT_PALETTE_COUNT: u32 = 4;
pub const DEFAULT_MONITOR_INTERVAL_MS: u32 = 1000;

/// Update check intervals offered in the settings.
pub open spec fn is_update_interval(ms: u32) -> bool {
    ms == UPDATE_CHECK_INTERVAL_6H_MS || ms == UPDATE_CHECK_INTERVAL_12H_MS
        || ms == UPDATE_CHECK_INTERVAL_1D_MS || ms == UPDATE_CHECK_INTERVAL_3D_MS
        || ms == UPDATE_CHECK_INTERVAL_7D_MS
}

/// Monitor polling intervals offered in the settings.
pub open spec fn is_monitor_interval(ms: u32) -> bool {
    ms == 500 || ms == 1000 || ms == 2000
}

/// Failures of saving the settings file.
#[derive(Debug, Clone)]
pub enum SaveError {
    PathUnavailable,
    CreateDir(String),
    Serialize(String),
    Write(String),
}

pub open spec fn save_error_text(e: SaveError) -> Seq<char> {
    match e {
        SaveError::PathUnavailable => "설정 저장 경로를 확인할 수 없습니다."@,
        SaveError::CreateDir(d) => "설정 디렉터리 생성 실패: "@ + d@,
        SaveError::Serialize(d) => "설정 직렬화 실패: "@ + d@,
        SaveError::Write(d) => "설정 파일 저장 실패: "@ + d@,
    }
}

impl SaveError {
    pub fn message(&self) -> (r: String)
        ensures
            r@ == save_error_text(*self),
    {
        match self {
            SaveError::PathUnavailable => owned("설정 저장 경로를 확인할 수 없습니다."),
            SaveError::CreateDir(d) => {
                let mut s = owned("설정 디렉터리 생성 실패: ");
                push_str(&mut s, d.as_str());
                s
            },
            SaveError::Serialize(d) => {
                let mut s = owned("설정 직렬화 실패: ");
                push_str(&mut s, d.as_str());
                s
            },
            SaveError::Write(d) => {
                let mut s = owned("설정 파일 저장 실패: ");
                push_str(&mut s, d.as_str());
                s
            },
        }
    }
}

pub fn is_supported_accent_palette(palette: u32) -> (r: bool)
    ensures
        r == (palette < ACCENT_PALETTE_COUNT),
{
    palette < ACCENT_PALETTE_COUNT
}

pub fn default_monitor_interval() -> (r: u32)
    ensures
        r == 1000,
{
    DEFAULT_MONITOR_INTERVAL_MS
}

pub fn default_update_check_interval() -> (r: u32)
    ensures
        r == UPDATE_CHECK_INTERVAL_1D_MS,
{
    UPDATE_CHECK_INTERVAL_1D_MS
}

pub fn default_true() -> (r: bool)
    ensures
        r,
{
    true
}

/// The monitor interval in force for a stored value.
pub open spec fn normalized_interval(ms: u32) -> u32 {
    if is_monitor_interval(ms) { ms } else { 1000 }
}

/// A supported monitor interval is kept; anything else becomes the default of 1000 ms.
pub fn normalize_monitor_interval_ms(ms: u32) -> (r: u32)
    ensures
        r == normalized_interval(ms),
        is_monitor_interval(r),
{
    if ms == 500 || ms == 1000 || ms == 2000 {
        ms
    } else {
        default_monitor_interval()
    }
}

pub fn is_supported_update_check_interval_ms(ms: u32) -> (r: bool)
    ensures
        r == is_update_interval(ms),
{
    ms == UPDATE_CHECK_INTERVAL_6H_MS || ms == UPDATE_CHECK_INTERVAL_12H_MS
        || ms == UPDATE_CHECK_INTERVAL_1D_MS || ms == UPDATE_CHECK_INTERVAL_3D_MS
        || ms == UPDATE_CHECK_INTERVAL_7D_MS
}

/// The persisted application settings.
#[derive(Debug, Clone)]
pub struct AppSettings {
    pub theme_mode: ThemeMode,
    pub accent_palette: u32,
    pub reduce_motion: bool,
    pub launcher_path: String,
    /// Switch the game to low power while its window is hidden in the tray.
    pub auto_tray_on_game_minimize: bool,
    /// The close button hides the window to the tray instead of quitting.
    pub close_to_tray: bool,
    /// The mode the user chose last (automatic switches are not recorded).
    pub last_user_mode: Option<OptimizeMode>,
    /// Mode applied when the game is newly detected (`None`: manual).
    pub default_mode: Option<OptimizeMode>,
    pub monitor_interval_ms: u32,
    pub update_alert_enabled: bool,
    pub update_check_interval_ms: u32,
    /// The release last announced, so that it is not announced twice.
    pub last_update_notified_version: Option<String>,
}

impl AppSettings {
    pub open spec fn is_default(self) -> bool {
        &&& self.theme_mode == ThemeMode::System
        &&& self.accent_palette == 0
        &&& !self.reduce_motion
        &&& self.launcher_path@ == Seq::<char>::empty()
        &&& !self.auto_tray_on_game_minimize
        &&& self.close_to_tray
        &&& self.last_user_mode is None
        &&& self.default_mode is None
        &&& self.monitor_interval_ms == 1000
        &&& self.update_alert_enabled
        &&& self.update_check_interval_ms == UPDATE_CHECK_INTERVAL_1D_MS
        &&& self.last_update_notified_version is None
    }

    /// Settings just read from disk: an unsupported monitor interval falls back to 1000 ms.
    pub fn normalized(self) -> (r: AppSettings)
        ensures
            r == (AppSettings { monitor_interval_ms: normalized_interval(self.monitor_interval_ms), ..self }),
    {
        let mut s = self;
        s.monitor_interval_ms = normalize_monitor_interval_ms(s.monitor_interval_ms);
        s
    }
}

impl Default for AppSettings {
    fn default() -> (r: Self)
        ensures
            r.is_default(),
    {
        AppSettings {
            theme_mode: ThemeMode::System,
            accent_palette: 0,
            reduce_motion: false,
            launcher_path: String::new(),
            auto_tray_on_game_minimize: false,
            close_to_tray: true,
            last_user_mode: None,
            default_mode: None,
            monitor_interval_ms: 1000,
            update_alert_enabled: true,
            update_check_interval_ms: UPDATE_CHECK_INTERVAL_1D_MS,
            last_update_notified_version: None,
        }
    }
}

/// The theme is dark: Light and Dark decide by themselves; System asks `detect_os_dark`,
/// which is not called otherwise.
pub fn resolve_dark_mode<F: FnOnce() -> bool>(mode: ThemeMode, detect_os_dark: F) -> (r: bool)
    requires
        mode == ThemeMode::System ==> call_requires(detect_os_dark, ()),
    ensures
        mode == ThemeMode::Light ==> !r,
        mode == ThemeMode::Dark ==> r,
        mode == ThemeMode::System ==> call_ensures(detect_os_dark, (), r),
{
    match mode {
        ThemeMode::Light => false,
        ThemeMode::Dark => true,
        ThemeMode::System => detect_os_dark(),
    }
}

/// Some line of the output ends with the token `0x1`.
pub open spec fn reports_light_theme(output: Seq<char>) -> bool {
    exists|i: int| 0 <= i < split_char(output, '\n').len()
        && #[trigger] last_token(split_char(output, '\n')[i]) == Some("0x1"@)
}

/// Reads the answer of `reg query ... /v AppsUseLightTheme`: the OS is dark unless the
/// query succeeded and a line's last token is `0x1`. A failed query counts as dark.
pub fn os_dark_from_reg_query(succeeded: bool, output: &str) -> (r: bool)
    ensures
        r == !(succeeded && reports_light_theme(output@)),
{
    if !succeeded {
        return true;
    }
    let text = chars_of(output);
    let lines = split_chars(text.as_slice(), '\n');
    let one = chars_of("0x1");
    let mut found = false;
    let mut i: usize = 0;
    while i < lines.len() && !found
        invariant
            i <= lines@.len(),
            text@ == output@,
            one@ == "0x1"@,
            lines@.len() == split_char(output@, '\n').len(),
            forall|k: int| 0 <= k < lines@.len() ==> #[trigger] lines@[k]@ == split_char(output@, '\n')[k],
            found ==> reports_light_theme(output@),
            !found ==> forall|k: int| 0 <= k < i ==> #[trigger] last_token(split_char(output@, '\n')[k]) != Some("0x1"@),
        decreases lines.len() - i,
    {
        let tok = last_token_chars(lines[i].as_slice());
        assert(lines@[i as int]@ == split_char(output@, '\n')[i as int]);
        match tok {
            Some(t) => {
                if chars_eq(t.as_slice(), one.as_slice()) {
                    assert(last_token(split_char(output@, '\n')[i as int]) == Some("0x1"@));
                    found = true;
                }
            },
            None => {},
        }
        i = i + 1;
    }
    !found
}

} // verus!
