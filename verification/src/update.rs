use vstd::prelude::*;
use crate::text::{
    ascii_lower_seq, chars_contain, chars_ends_with, chars_eq, chars_of, chars_starts_with,
    ends_with, lower_chars, owned, push_str, split_char, split_chars, starts_with,
    string_of_range, take_until, take_until_chars, trim, trim_chars,
};

verus! {

/// The application version shown in the UI and compared against releases.
pub const APP_VERSION: &'static str = "0.1.0";

/// How long the release metadata request may take, in seconds.
pub const UPDATE_METADATA_TIMEOUT_SECS: u64 = 15;

/// How long the installer download may take, in seconds.
pub const UPDATE_DOWNLOAD_TIMEOUT_SECS: u64 = 600;

/// The only location update installers may be downloaded from.
pub const UPDATE_ASSET_PREFIX: &'static str = "https://github.com/Lv2dev/bdo-optimizer-launcher/releases/download/";

/// Release notes are cut to this many characters.
pub const NOTES_MAX_CHARS: usize = 4000;

/// The result of a release check as the settings card shows it.
#[derive(Debug, Clone, PartialEq, Eq)]
pub struct UpdateCheck {
    pub status_text: String,
    pub latest_version: String,
    pub update_available: bool,
    pub notes: Option<String>,
}

/// Progress reported to the UI while an update downloads and installs.
#[derive(Debug, Clone, PartialEq, Eq)]
pub enum UpdateProgressEvent {
    Started { content_length: Option<u64> },
    Progress { downloaded: u64, content_length: Option<u64> },
    Verifying,
    Installing,
}

/// Failures of the update operations.
#[derive(Debug, Clone)]
pub enum Error {
    /// The updater itself failed; the text is its message.
    Updater(String),
    InvalidDownloadUrl,
    NoPendingUpdate,
    InstallInProgress,
    StatePoisoned,
    CheckGenerationExhausted,
    StaleCheck,
    InvalidReleaseUrl,
    /// The browser could not be started; the text is the OS error.
    ExplorerSpawn(String),
}

pub open spec fn error_text(e: Error) -> Seq<char> {
    match e {
        Error::Updater(m) => "업데이트 처리 실패: "@ + m@,
        Error::InvalidDownloadUrl => "업데이트 다운로드 주소가 허용된 GitHub Release 자산이 아닙니다."@,
        Error::NoPendingUpdate => "설치할 업데이트가 없습니다. 다시 확인해 주세요."@,
        Error::InstallInProgress => "업데이트 설치가 이미 진행 중입니다."@,
        Error::StatePoisoned => "업데이트 상태 잠금이 손상되었습니다."@,
        Error::CheckGenerationExhausted => "업데이트 확인 요청 번호를 더 이상 만들 수 없습니다."@,
        Error::StaleCheck => "더 최신 업데이트 확인 요청이 시작되어 이전 결과를 폐기했습니다."@,
        Error::InvalidReleaseUrl => "릴리스 페이지 URL이 올바르지 않습니다."@,
        Error::ExplorerSpawn(m) => "브라우저 실행 실패: "@ + m@,
    }
}

impl Error {
    /// The message shown to the user for this error.
    pub fn message(&self) -> (r: String)
        ensures
            r@ == error_text(*self),
    {
        match self {
            Error::Updater(m) => {
                let mut s = owned("업데이트 처리 실패: ");
                push_str(&mut s, m.as_str());
                s
            },
            Error::InvalidDownloadUrl => owned("업데이트 다운로드 주소가 허용된 GitHub Release 자산이 아닙니다."),
            Error::NoPendingUpdate => owned("설치할 업데이트가 없습니다. 다시 확인해 주세요."),
            Error::InstallInProgress => owned("업데이트 설치가 이미 진행 중입니다."),
            Error::StatePoisoned => owned("업데이트 상태 잠금이 손상되었습니다."),
            Error::CheckGenerationExhausted => owned("업데이트 확인 요청 번호를 더 이상 만들 수 없습니다."),
            Error::StaleCheck => owned("더 최신 업데이트 확인 요청이 시작되어 이전 결과를 폐기했습니다."),
            Error::InvalidReleaseUrl => owned("릴리스 페이지 URL이 올바르지 않습니다."),
            Error::ExplorerSpawn(m) => {
                let mut s = owned("브라우저 실행 실패: ");
                push_str(&mut s, m.as_str());
                s
            },
        }
    }
}

// ---------------------------------------------------------------------------
// Release notes and check results

/// Release notes as shown: trimmed, at most `NOTES_MAX_CHARS` characters, and absent
/// when nothing but whitespace was published.
pub open spec fn sanitize_notes_spec(notes: Option<Seq<char>>) -> Option<Seq<char>> {
    match notes {
        None => None,
        Some(n) => {
            let t = trim(n);
            if t.len() == 0 {
                None
            } else if t.len() <= NOTES_MAX_CHARS {
                Some(t)
            } else {
                Some(t.take(NOTES_MAX_CHARS as int))
            }
        },
    }
}

pub open spec fn opt_view(s: Option<String>) -> Option<Seq<char>> {
    match s {
        Some(x) => Some(x@),
        None => None,
    }
}

pub fn sanitize_notes(notes: Option<String>) -> (r: Option<String>)
    ensures
        opt_view(r) == sanitize_notes_spec(opt_view(notes)),
{
    match notes {
        None => None,
        Some(n) => {
            let c = chars_of(n.as_str());
            let t = trim_chars(c.as_slice());
            if t.len() == 0 {
                None
            } else {
                let end = if t.len() <= NOTES_MAX_CHARS { t.len() } else { NOTES_MAX_CHARS };
                Some(string_of_range(t.as_slice(), 0, end))
            }
        },
    }
}

pub open spec fn available_status_text(version: Seq<char>) -> Seq<char> {
    "새 버전 "@ + version + " 사용 가능."@
}

/// The check result for a newer release `version`.
pub fn available_update_check(version: String, notes: Option<String>) -> (r: UpdateCheck)
    ensures
        r.status_text@ == available_status_text(version@),
        r.latest_version == version,
        r.update_available,
        opt_view(r.notes) == sanitize_notes_spec(opt_view(notes)),
{
    let mut status_text = owned("새 버전 ");
    push_str(&mut status_text, version.as_str());
    push_str(&mut status_text, " 사용 가능.");
    UpdateCheck { status_text, latest_version: version, update_available: true, notes: sanitize_notes(notes) }
}

pub open spec fn current_status_text() -> Seq<char> {
    "최신 버전입니다. ("@ + APP_VERSION@ + ")"@
}

/// The check result when the running version is the latest.
pub fn current_update_check() -> (r: UpdateCheck)
    ensures
        r.status_text@ == current_status_text(),
        r.latest_version@ == APP_VERSION@,
        !r.update_available,
        r.notes is None,
{
    let mut status_text = owned("최신 버전입니다. (");
    push_str(&mut status_text, APP_VERSION);
    push_str(&mut status_text, ")");
    UpdateCheck { status_text, latest_version: owned(APP_VERSION), update_available: false, notes: None }
}

/// A check whose result was not stored because a newer check started is an error.
pub fn ensure_current_check(replaced: bool) -> (r: Result<(), Error>)
    ensures
        replaced ==> r is Ok,
        !replaced ==> r matches Err(Error::StaleCheck),
{
    if replaced { Ok(()) } else { Err(Error::StaleCheck) }
}

// ---------------------------------------------------------------------------
// URL checks

/// An installer URL is accepted only as `<prefix><tag>/<file>` with a non-empty tag and
/// file name, no further path segments, and no `@`, `?` or `#`.
pub open spec fn allowed_download_url(url: Seq<char>) -> bool {
    let prefix = UPDATE_ASSET_PREFIX@;
    let path = url.skip(prefix.len() as int);
    let parts = split_char(path, '/');
    &&& starts_with(url, prefix)
    &&& !path.contains('@')
    &&& !path.contains('?')
    &&& !path.contains('#')
    &&& parts.len() == 2
    &&& parts[0].len() > 0
    &&& parts[1].len() > 0
}

pub fn is_allowed_update_download_url(url: &str) -> (r: bool)
    ensures
        r == allowed_download_url(url@),
{
    let u = chars_of(url);
    let prefix = chars_of(UPDATE_ASSET_PREFIX);
    if !chars_starts_with(u.as_slice(), prefix.as_slice()) {
        return false;
    }
    let mut path: Vec<char> = Vec::new();
    let mut i: usize = prefix.len();
    while i < u.len()
        invariant
            prefix.len() <= i <= u.len(),
            path@ == u@.subrange(prefix.len() as int, i as int),
        decreases u.len() - i,
    {
        path.push(u[i]);
        assert(u@.subrange(prefix.len() as int, i as int + 1) == u@.subrange(prefix.len() as int, i as int).push(u@[i as int]));
        i = i + 1;
    }
    assert(path@ == u@.skip(prefix@.len() as int));
    if chars_contain(path.as_slice(), '@') || chars_contain(path.as_slice(), '?') || chars_contain(path.as_slice(), '#') {
        return false;
    }
    let parts = split_chars(path.as_slice(), '/');
    if parts.len() != 2 {
        return false;
    }
    assert(parts@[0]@ == split_char(path@, '/')[0]);
    assert(parts@[1]@ == split_char(path@, '/')[1]);
    parts[0].len() > 0 && parts[1].len() > 0
}

/// The authority of an `https://` URL: the text after the scheme up to the first
/// `/`, `?` or `#`.
pub open spec fn release_authority(url: Seq<char>) -> Seq<char> {
    take_until(trim(url).skip(8), seq!['/', '?', '#'])
}

/// The lower-cased host of a release URL (the authority before any `:`).
pub open spec fn release_host(url: Seq<char>) -> Seq<char> {
    ascii_lower_seq(take_until(release_authority(url), seq![':']))
}

/// Release pages may only be opened on `github.com` or one of its subdomains, over
/// `https`, without user information in the authority.
pub open spec fn allowed_release_url(url: Seq<char>) -> bool {
    let authority = release_authority(url);
    let host = release_host(url);
    &&& starts_with(trim(url), "https://"@)
    &&& authority.len() > 0
    &&& !authority.contains('@')
    &&& (host == "github.com"@ || ends_with(host, ".github.com"@))
}

pub fn is_allowed_release_url(url: &str) -> (r: bool)
    ensures
        r == allowed_release_url(url@),
{
    proof {
        reveal_strlit("https://");
    }
    let c = chars_of(url);
    let t = trim_chars(c.as_slice());
    let scheme = chars_of("https://");
    if !chars_starts_with(t.as_slice(), scheme.as_slice()) {
        return false;
    }
    let rest = crate::text::slice_to_vec(t.as_slice(), 8, t.len());
    assert(rest@ == trim(url@).skip(8));
    let stops: Vec<char> = vec!['/', '?', '#'];
    assert(stops@ == seq!['/', '?', '#']);
    let authority = take_until_chars(rest.as_slice(), stops.as_slice());
    if authority.len() == 0 || chars_contain(authority.as_slice(), '@') {
        return false;
    }
    let colon: Vec<char> = vec![':'];
    assert(colon@ == seq![':']);
    let host_raw = take_until_chars(authority.as_slice(), colon.as_slice());
    let host = lower_chars(host_raw.as_slice());
    let github = chars_of("github.com");
    let dot_github = chars_of(".github.com");
    chars_eq(host.as_slice(), github.as_slice()) || chars_ends_with(host.as_slice(), dot_github.as_slice())
}

// ---------------------------------------------------------------------------
// Pending update bookkeeping

/// The update found by the latest check, the number of that check, and whether an
/// install is running. `T` is the updater's handle for a downloadable release.
pub struct PendingUpdates<T> {
    pub pending: Option<T>,
    pub check_generation: u64,
    pub installing: bool,
}

impl<T> PendingUpdates<T> {
    pub fn new() -> (r: Self)
        ensures
            r.pending is None,
            r.check_generation == 0,
            !r.installing,
    {
        PendingUpdates { pending: None, check_generation: 0, installing: false }
    }

    /// Starts a check: its number is one more than the previous check's.
    pub fn begin_check(&mut self) -> (r: Result<u64, Error>)
        ensures
            old(self).check_generation < u64::MAX ==> r == Ok::<u64, Error>((old(self).check_generation + 1) as u64)
                && final(self).check_generation == old(self).check_generation + 1,
            old(self).check_generation == u64::MAX ==> (r matches Err(Error::CheckGenerationExhausted))
                && final(self).check_generation == old(self).check_generation,
            final(self).pending == old(self).pending,
            final(self).installing == old(self).installing,
    {
        if self.check_generation == u64::MAX {
            return Err(Error::CheckGenerationExhausted);
        }
        self.check_generation = self.check_generation + 1;
        Ok(self.check_generation)
    }

    /// Stores the result of check `generation` unless a later check has started.
    pub fn replace_if_current(&mut self, generation: u64, update: Option<T>) -> (r: bool)
        ensures
            r == (old(self).check_generation == generation),
            r ==> final(self).pending == update,
            !r ==> final(self).pending == old(self).pending,
            final(self).check_generation == old(self).check_generation,
            final(self).installing == old(self).installing,
    {
        if self.check_generation != generation {
            return false;
        }
        self.pending = update;
        true
    }

    /// Hands out the pending update, leaving none.
    pub fn take(&mut self) -> (r: Option<T>)
        ensures
            r == old(self).pending,
            final(self).pending is None,
            final(self).check_generation == old(self).check_generation,
            final(self).installing == old(self).installing,
    {
        self.pending.take()
    }

    /// Puts a failed update back unless a newer one has arrived meanwhile.
    pub fn restore_if_empty(&mut self, update: T)
        ensures
            old(self).pending is None ==> final(self).pending == Some(update),
            old(self).pending is Some ==> final(self).pending == old(self).pending,
            final(self).check_generation == old(self).check_generation,
            final(self).installing == old(self).installing,
    {
        if self.pending.is_none() {
            self.pending = Some(update);
        }
    }

    /// Claims the installer: only one install runs at a time.
    pub fn begin_install(&mut self) -> (r: Result<(), Error>)
        ensures
            !old(self).installing ==> r is Ok,
            old(self).installing ==> r matches Err(Error::InstallInProgress),
            final(self).installing,
            final(self).pending == old(self).pending,
            final(self).check_generation == old(self).check_generation,
    {
        if self.installing {
            return Err(Error::InstallInProgress);
        }
        self.installing = true;
        Ok(())
    }

    /// Releases the installer claim.
    pub fn end_install(&mut self)
        ensures
            !final(self).installing,
            final(self).pending == old(self).pending,
            final(self).check_generation == old(self).check_generation,
    {
        self.installing = false;
    }
}

/// What the updater found: the release's handle, version, installer URL and notes.
pub struct FoundRelease<T> {
    pub update: T,
    pub version: String,
    pub download_url: String,
    pub notes: Option<String>,
}

/// Settles check `generation` with what the updater returned. No release: the state
/// forgets any pending update and the running version is reported as current. A
/// release whose installer URL is not allowed: the pending update is forgotten and the
/// check fails. Otherwise the release becomes the pending update. A result that a
/// newer check has overtaken is discarded as stale.
pub fn settle_update_check<T>(
    state: &mut PendingUpdates<T>,
    generation: u64,
    found: Option<FoundRelease<T>>,
) -> (r: Result<UpdateCheck, Error>)
    ensures
        final(state).check_generation == old(state).check_generation,
        final(state).installing == old(state).installing,
        old(state).check_generation != generation ==> final(state).pending == old(state).pending,
        old(state).check_generation != generation ==> r matches Err(Error::StaleCheck),
        old(state).check_generation == generation ==> match found {
            None => final(state).pending is None && (r matches Ok(c) && c.status_text@ == current_status_text()
                && c.latest_version@ == APP_VERSION@ && !c.update_available && c.notes is None),
            Some(f) => if allowed_download_url(f.download_url@) {
                final(state).pending == Some(f.update) && (r matches Ok(c)
                    && c.status_text@ == available_status_text(f.version@)
                    && c.latest_version == f.version && c.update_available
                    && opt_view(c.notes) == sanitize_notes_spec(opt_view(f.notes)))
            } else {
                final(state).pending is None && (r matches Err(Error::InvalidDownloadUrl))
            },
        },
{
    match found {
        None => {
            let replaced = state.replace_if_current(generation, None);
            match ensure_current_check(replaced) {
                Err(e) => Err(e),
                Ok(()) => Ok(current_update_check()),
            }
        },
        Some(f) => {
            if !is_allowed_update_download_url(f.download_url.as_str()) {
                let replaced = state.replace_if_current(generation, None);
                match ensure_current_check(replaced) {
                    Err(e) => Err(e),
                    Ok(()) => Err(Error::InvalidDownloadUrl),
                }
            } else {
                let check = available_update_check(f.version, f.notes);
                let replaced = state.replace_if_current(generation, Some(f.update));
                match ensure_current_check(replaced) {
                    Err(e) => Err(e),
                    Ok(()) => Ok(check),
                }
            }
        },
    }
}

/// One downloaded chunk: the first chunk is announced with `Started`, every chunk with
/// the running total (saturating) in `Progress`.
pub fn download_progress_step(
    started: bool,
    downloaded: u64,
    chunk_length: u64,
    content_length: Option<u64>,
) -> (r: (bool, u64, Vec<UpdateProgressEvent>))
    ensures
        r.0,
        r.1 == (if downloaded + chunk_length > u64::MAX { u64::MAX as int } else { downloaded + chunk_length }),
        !started ==> r.2@ == seq![
            UpdateProgressEvent::Started { content_length },
            UpdateProgressEvent::Progress { downloaded: r.1, content_length },
        ],
        started ==> r.2@ == seq![UpdateProgressEvent::Progress { downloaded: r.1, content_length }],
{
    let mut events: Vec<UpdateProgressEvent> = Vec::new();
    if !started {
        events.push(UpdateProgressEvent::Started { content_length });
    }
    let total = downloaded.saturating_add(chunk_length);
    events.push(UpdateProgressEvent::Progress { downloaded: total, content_length });
    (true, total, events)
}

/// Notes an alert for a release: when alerts are on and `check` offers a version that
/// was not announced yet, the settings remember that version and the user is alerted.
pub fn record_update_alert(settings: &mut crate::settings::AppSettings, check: &UpdateCheck) -> (r: bool)
    ensures
        r == (check.update_available && old(settings).update_alert_enabled
            && crate::monitor_view::should_alert(true, check.latest_version@, opt_view(old(settings).last_update_notified_version))),
        r ==> *final(settings) == (crate::settings::AppSettings { last_update_notified_version: Some(check.latest_version), ..*old(settings) }),
        !r ==> *final(settings) == *old(settings),
{
    if !check.update_available || !settings.update_alert_enabled {
        return false;
    }
    let alert = match &settings.last_update_notified_version {
        Some(v) => crate::monitor_view::should_alert_for_update(true, check.latest_version.as_str(), Some(v.as_str())),
        None => crate::monitor_view::should_alert_for_update(true, check.latest_version.as_str(), None),
    };
    if alert {
        settings.last_update_notified_version = Some(check.latest_version.clone());
    }
    alert
}

} // verus!
