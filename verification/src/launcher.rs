use vstd::prelude::*;
use crate::paths::{backslashed, under_any_root};
use crate::text::{
    chars_eq_ignore_ascii_case, chars_of, eq_ignore_ascii_case, owned, push_str, split_char,
    split_chars, string_of_range,
};

verus! {

pub const GAME_EXE: &'static str = "BlackDesert64.exe";
pub const LAUNCHER_EXE: &'static str = "BlackDesertLauncher.exe";
pub const INSTALL_SUBPATH: &'static str = "Pearlabyss\\BlackDesert";
/// The only Authenticode publisher whose launcher is started.
pub const APPROVED_LAUNCHER_PUBLISHER: &'static str = "Pearl abyss Corp";
/// `FILE_ATTRIBUTE_REPARSE_POINT`
pub const FILE_ATTRIBUTE_REPARSE_POINT: u32 = 0x400;

/// What starting the game came to.
#[derive(Debug, Clone, PartialEq, Eq)]
pub enum LaunchResult {
    GameAlreadyRunning,
    LauncherStarted(String),
    /// The launcher at this path failed verification, for this reason.
    LauncherRejected(String, String),
    LauncherNotFound,
}

// ---------------------------------------------------------------------------
// Windows path names

/// A drive prefix such as `C:`.
pub open spec fn has_drive_prefix(p: Seq<char>) -> bool {
    p.len() >= 2 && p[1] == ':' && (('A' <= p[0] && p[0] <= 'Z') || ('a' <= p[0] && p[0] <= 'z'))
}

/// The last segment among the first `n` that is neither empty nor `.`.
pub open spec fn last_segment(segs: Seq<Seq<char>>, n: int) -> Option<Seq<char>>
    decreases n,
{
    if n <= 0 || n > segs.len() {
        None
    } else if segs[n - 1].len() == 0 || segs[n - 1] == seq!['.'] {
        last_segment(segs, n - 1)
    } else {
        Some(segs[n - 1])
    }
}

/// `Path::file_name` for a Windows path: after any drive prefix, the last segment
/// between `\` or `/` separators that is neither empty nor `.`; none when that segment
/// is `..` or there is none.
pub open spec fn file_name(p: Seq<char>) -> Option<Seq<char>> {
    let body = if has_drive_prefix(p) { p.skip(2) } else { p };
    let segs = split_char(backslashed(body), '\\');
    match last_segment(segs, segs.len() as int) {
        Some(s) => if s == seq!['.', '.'] { None } else { Some(s) },
        None => None,
    }
}

pub fn path_file_name(p: &str) -> (r: Option<Vec<char>>)
    ensures
        match (r, file_name(p@)) {
            (Some(x), Some(y)) => x@ == y,
            (None, None) => true,
            _ => false,
        },
{
    let c = chars_of(p);
    let drive = c.len() >= 2 && c[1] == ':' && (('A' <= c[0] && c[0] <= 'Z') || ('a' <= c[0] && c[0] <= 'z'));
    let start: usize = if drive { 2 } else { 0 };
    let body = crate::text::slice_to_vec(c.as_slice(), start, c.len());
    assert(body@ == (if has_drive_prefix(p@) { p@.skip(2) } else { p@ }));
    let mut b: Vec<char> = Vec::new();
    let mut i: usize = 0;
    while i < body.len()
        invariant
            i <= body.len(),
            b@ == backslashed(body@.take(i as int)),
        decreases body.len() - i,
    {
        let ch = if body[i] == '/' { '\\' } else { body[i] };
        b.push(ch);
        assert(backslashed(body@.take(i as int + 1)) == backslashed(body@.take(i as int)).push(ch));
        i = i + 1;
    }
    assert(body@.take(body@.len() as int) == body@);
    let segs = split_chars(b.as_slice(), '\\');
    let mut n: usize = segs.len();
    while n > 0 && (segs[n - 1].len() == 0 || (segs[n - 1].len() == 1 && segs[n - 1][0] == '.'))
        invariant
            n <= segs@.len(),
            segs@.len() == split_char(b@, '\\').len(),
            forall|k: int| 0 <= k < segs@.len() ==> #[trigger] segs@[k]@ == split_char(b@, '\\')[k],
            last_segment(split_char(b@, '\\'), split_char(b@, '\\').len() as int) == last_segment(split_char(b@, '\\'), n as int),
        decreases n,
    {
        assert(segs@[n - 1]@ == split_char(b@, '\\')[n - 1]);
        assert(segs@[n - 1]@.len() == 1 && segs@[n - 1]@[0] == '.' ==> segs@[n - 1]@ == seq!['.']);
        n = n - 1;
    }
    if n == 0 {
        return None;
    }
    assert(segs@[n - 1]@ == split_char(b@, '\\')[n - 1]);
    assert(!(segs@[n - 1]@.len() == 0 || segs@[n - 1]@ == seq!['.']));
    let last = &segs[n - 1];
    if last.len() == 2 && last[0] == '.' && last[1] == '.' {
        assert(last@ == seq!['.', '.']);
        return None;
    }
    assert(last@ != seq!['.', '.']);
    Some(crate::text::slice_to_vec(last.as_slice(), 0, last.len()))
}

/// The file name is the launcher's, in any ASCII case.
pub open spec fn is_launcher_path(p: Seq<char>) -> bool {
    file_name(p) matches Some(n) && eq_ignore_ascii_case(n, LAUNCHER_EXE@)
}

/// Only a file named like the game's launcher may be started with elevated rights.
pub fn is_launcher_exe(p: &str) -> (r: bool)
    ensures
        r == is_launcher_path(p@),
{
    let launcher = chars_of(LAUNCHER_EXE);
    match path_file_name(p) {
        Some(n) => chars_eq_ignore_ascii_case(n.as_slice(), launcher.as_slice()),
        None => false,
    }
}

// ---------------------------------------------------------------------------
// The path the user entered

/// Where a user-supplied launcher path is used.
#[derive(Debug, Clone, PartialEq, Eq)]
pub enum UserPathDecision {
    Use(String),
    Ignore,
}

pub open spec fn skip_quotes(s: Seq<char>, i: int) -> int
    decreases s.len() - i,
{
    if 0 <= i < s.len() && s[i] == '"' { skip_quotes(s, i + 1) } else { i }
}

pub open spec fn back_quotes(s: Seq<char>, lo: int, j: int) -> int
    decreases j - lo,
{
    if lo < j && j <= s.len() && s[j - 1] == '"' { back_quotes(s, lo, j - 1) } else { j }
}

/// `trim_matches('"')`
pub open spec fn strip_quotes(s: Seq<char>) -> Seq<char> {
    let a = skip_quotes(s, 0);
    s.subrange(a, back_quotes(s, a, s.len() as int))
}

proof fn lemma_quote_bounds(s: Seq<char>, i: int, lo: int, j: int)
    requires
        0 <= i <= s.len(),
        0 <= lo <= j <= s.len(),
    ensures
        i <= skip_quotes(s, i) <= s.len(),
        lo <= back_quotes(s, lo, j) <= j,
    decreases s.len() - i + j - lo,
{
    if 0 <= i < s.len() && s[i] == '"' {
        lemma_quote_bounds(s, i + 1, lo, j);
    } else if lo < j && j <= s.len() && s[j - 1] == '"' {
        lemma_quote_bounds(s, i, lo, j - 1);
    }
}

pub fn strip_quote_chars(s: &[char]) -> (r: Vec<char>)
    ensures
        r@ == strip_quotes(s@),
{
    let mut a: usize = 0;
    while a < s.len() && s[a] == '"'
        invariant
            a <= s.len(),
            skip_quotes(s@, 0) == skip_quotes(s@, a as int),
        decreases s.len() - a,
    {
        a = a + 1;
    }
    let mut b: usize = s.len();
    while a < b && s[b - 1] == '"'
        invariant
            a <= b <= s.len(),
            back_quotes(s@, a as int, s.len() as int) == back_quotes(s@, a as int, b as int),
        decreases b - a,
    {
        b = b - 1;
    }
    crate::text::slice_to_vec(s, a, b)
}

/// The cleaned path: surrounding whitespace, then surrounding `"`, removed.
pub open spec fn cleaned_user_path(user_path: Seq<char>) -> Seq<char> {
    strip_quotes(crate::text::trim(user_path))
}

/// A user path is used when, cleaned, it is not empty, names the launcher, and does not
/// lie in one of the staging locations `deny_roots`.
pub open spec fn user_path_decision(user_path: Seq<char>, deny_roots: Seq<String>) -> Option<Seq<char>> {
    let p = cleaned_user_path(user_path);
    if p.len() == 0 || !is_launcher_path(p) || under_any_root(p, deny_roots) { None } else { Some(p) }
}

pub fn classify_user_path_with_roots(user_path: &str, deny_roots: &[String]) -> (r: UserPathDecision)
    ensures
        match (r, user_path_decision(user_path@, deny_roots@)) {
            (UserPathDecision::Use(x), Some(y)) => x@ == y,
            (UserPathDecision::Ignore, None) => true,
            _ => false,
        },
{
    let c = chars_of(user_path);
    let t = crate::text::trim_chars(c.as_slice());
    let q = strip_quote_chars(t.as_slice());
    if q.len() == 0 {
        return UserPathDecision::Ignore;
    }
    let p = crate::text::string_of(q.as_slice());
    if !is_launcher_exe(p.as_str()) {
        return UserPathDecision::Ignore;
    }
    if crate::paths::is_high_risk_user_writable_path(p.as_str(), deny_roots) {
        return UserPathDecision::Ignore;
    }
    UserPathDecision::Use(p)
}

// ---------------------------------------------------------------------------
// Fallback locations

/// `X:\Pearlabyss\BlackDesert\BlackDesertLauncher.exe` for drive letter `d`.
pub open spec fn drive_candidate(d: char) -> Seq<char> {
    seq![d] + ":\\"@ + INSTALL_SUBPATH@ + "\\"@ + LAUNCHER_EXE@
}

/// The standard install location on each drive from C to Z.
pub fn drive_scan_candidates() -> (r: Vec<String>)
    ensures
        r@.len() == 24,
        forall|i: int| 0 <= i < 24 ==> #[trigger] r@[i]@ == drive_candidate((('C' as u32) + i) as char),
{
    let mut r: Vec<String> = Vec::new();
    let mut d: u8 = 67;
    while d <= 90
        invariant
            67 <= d <= 91,
            r@.len() == d - 67,
            forall|i: int| 0 <= i < r@.len() ==> #[trigger] r@[i]@ == drive_candidate((('C' as u32) + i) as char),
        decreases 91 - d,
    {
        let mut s = String::new();
        s.push(d as char);
        push_str(&mut s, ":\\");
        push_str(&mut s, INSTALL_SUBPATH);
        push_str(&mut s, "\\");
        push_str(&mut s, LAUNCHER_EXE);
        assert(s@ == drive_candidate((('C' as u32) + (d - 67)) as char));
        r.push(s);
        d = d + 1;
    }
    r
}

/// `f` answered `a` for a path with the text `path`.
pub open spec fn answered<F: Fn(&str) -> bool>(f: F, path: Seq<char>, a: bool) -> bool {
    exists|q: &str| q@ == path && call_ensures(f, (q,), a)
}

/// The candidates that `file_exists` answered for and that name the launcher, in order.
pub open spec fn kept_candidates(candidates: Seq<String>, answers: Seq<bool>) -> Seq<Seq<char>>
    decreases candidates.len(),
{
    if candidates.len() == 0 || answers.len() != candidates.len() {
        Seq::empty()
    } else {
        let p = kept_candidates(candidates.drop_last(), answers.drop_last());
        if answers.last() && is_launcher_path(candidates.last()@) { p.push(candidates.last()@) } else { p }
    }
}

/// Keeps the candidates that exist (as `file_exists` answers, asked once each, in order) and
/// that name the launcher, in order.
pub fn validated_launcher_candidates<F>(candidates: Vec<String>, file_exists: F) -> (r: Vec<String>)
    where
        F: Fn(&str) -> bool,
    requires
        forall|p: &str| call_requires(file_exists, (p,)),
    ensures
        exists|answers: Seq<bool>| answers.len() == candidates@.len()
            && (forall|j: int| 0 <= j < candidates@.len() ==> #[trigger] answered(file_exists, candidates@[j]@, answers[j]))
            && crate::cmd::string_views(r@) == kept_candidates(candidates@, answers),
{
    let mut r: Vec<String> = Vec::new();
    let ghost all = candidates@;
    let ghost mut answers: Seq<bool> = Seq::empty();
    let total = candidates.len();
    let mut rest = candidates;
    let mut i: usize = 0;
    while rest.len() > 0
        invariant
            forall|p: &str| call_requires(file_exists, (p,)),
            total == all.len(),
            i <= all.len(),
            rest@ == all.skip(i as int),
            rest@.len() + i == all.len(),
            answers.len() == i,
            forall|j: int| 0 <= j < i ==> #[trigger] answered(file_exists, all[j]@, answers[j]),
            crate::cmd::string_views(r@) == kept_candidates(all.take(i as int), answers),
        decreases rest.len(),
    {
        let c = rest.remove(0);
        assert(c == all[i as int]);
        assert(all.skip(i as int).drop_first() == all.skip(i as int + 1));
        let e = file_exists(c.as_str());
        let ghost prev = answers;
        proof {
            answers = answers.push(e);
            assert(answered(file_exists, all[i as int]@, answers[i as int]));
        }
        assert(all.take(i as int + 1).drop_last() == all.take(i as int));
        assert(answers.drop_last() == prev);
        assert(all.take(i as int + 1).last() == c);
        let keep = e && is_launcher_exe(c.as_str());
        let ghost before = r@;
        if keep {
            r.push(c);
            assert(crate::cmd::string_views(r@) == crate::cmd::string_views(before).push(all[i as int]@));
        }
        i = i + 1;
    }
    assert(all.take(i as int) == all);
    r
}

// ---------------------------------------------------------------------------
// Publisher and process image checks

pub fn publisher_is_approved(publisher: &str) -> (r: bool)
    ensures
        r == eq_ignore_ascii_case(publisher@, APPROVED_LAUNCHER_PUBLISHER@),
{
    let p = chars_of(publisher);
    let a = chars_of(APPROVED_LAUNCHER_PUBLISHER);
    chars_eq_ignore_ascii_case(p.as_slice(), a.as_slice())
}

/// The volume and file id that name one file on a machine.
#[derive(Debug, Clone, Copy, PartialEq, Eq)]
pub struct FileIdentity {
    pub volume_serial: u64,
    pub file_id: [u8; 16],
}

/// The final path and the identity of an executable image.
#[derive(Debug, Clone, PartialEq, Eq)]
pub struct ImageDescriptor {
    pub final_path: String,
    pub identity: FileIdentity,
}

/// The started process runs the verified file: the same identity and the same final
/// path up to ASCII case.
pub fn child_matches_verified(expected: &ImageDescriptor, actual: &ImageDescriptor) -> (r: bool)
    ensures
        r == (expected.identity == actual.identity
            && eq_ignore_ascii_case(expected.final_path@, actual.final_path@)),
{
    if expected.identity.volume_serial != actual.identity.volume_serial {
        return false;
    }
    let mut i: usize = 0;
    while i < 16
        invariant
            i <= 16,
            expected.identity.volume_serial == actual.identity.volume_serial,
            forall|k: int| 0 <= k < i ==> expected.identity.file_id@[k] == actual.identity.file_id@[k],
        decreases 16 - i,
    {
        if expected.identity.file_id[i] != actual.identity.file_id[i] {
            return false;
        }
        i = i + 1;
    }
    assert(expected.identity.file_id =~= actual.identity.file_id);
    assert(expected.identity == actual.identity);
    let a = chars_of(expected.final_path.as_str());
    let b = chars_of(actual.final_path.as_str());
    chars_eq_ignore_ascii_case(a.as_slice(), b.as_slice())
}

/// The length of a drive prefix (`C:`) at the start of `p`, or 0.
pub open spec fn drive_prefix_len(p: Seq<char>) -> int {
    if p.len() >= 2 && (('a' <= p[0] && p[0] <= 'z') || ('A' <= p[0] && p[0] <= 'Z')) && p[1] == ':' { 2 } else { 0 }
}

/// The `n` characters of `p` at `i` are dots and form a whole component: a separator or
/// the start (after a drive prefix) before them, a separator or the end after them.
pub open spec fn dot_segment_at(p: Seq<char>, i: int, n: int) -> bool {
    &&& drive_prefix_len(p) <= i
    &&& i + n <= p.len()
    &&& (i == drive_prefix_len(p) || crate::paths::is_separator(p[i - 1]))
    &&& (i + n == p.len() || crate::paths::is_separator(p[i + n]))
    &&& forall|k: int| i <= k < i + n ==> #[trigger] p[k] == '.'
}

/// What `Path::components` on Windows reports as `.` or `..`: a `..` component anywhere,
/// a `.` that starts a relative path (after an optional drive prefix), and, in a
/// verbatim `\\?\` path (which is not normalized), a `.` component anywhere. Other `.`
/// components are normalized away.
pub open spec fn dot_component(p: Seq<char>) -> bool {
    ||| exists|i: int| #[trigger] dot_segment_at(p, i, 2)
    ||| dot_segment_at(p, drive_prefix_len(p), 1)
    ||| (crate::text::starts_with(p, "\\\\?\\"@) && exists|i: int| #[trigger] dot_segment_at(p, i, 1))
}

fn is_sep_char(c: char) -> (r: bool)
    ensures
        r == crate::paths::is_separator(c),
{
    c == '\\' || c == '/'
}

fn dot_segment_exec(c: &[char], start: usize, i: usize, n: usize) -> (r: bool)
    requires
        start as int == drive_prefix_len(c@),
        1 <= n <= 2,
    ensures
        r == dot_segment_at(c@, i as int, n as int),
{
    if i < start || n > c.len() || i > c.len() - n {
        return false;
    }
    if i != start && !is_sep_char(c[i - 1]) {
        return false;
    }
    if i + n != c.len() && !is_sep_char(c[i + n]) {
        return false;
    }
    let dots = c[i] == '.' && (n == 1 || c[i + 1] == '.');
    proof {
        if dots {
            assert forall|k: int| i <= k < i + n implies #[trigger] c@[k] == '.' by {
                assert(k == i || k == i + 1);
            }
        } else {
            if c@[i as int] != '.' {
                assert(!(forall|k: int| i <= k < i + n ==> #[trigger] c@[k] == '.'));
            } else {
                assert(c@[i + 1] != '.');
            }
        }
    }
    dots
}

/// The path has a `.` or `..` component (see `dot_component`); such launcher paths are
/// refused before anything is opened.
pub fn has_dot_component(path: &str) -> (r: bool)
    ensures
        r == dot_component(path@),
{
    let c = chars_of(path);
    let start: usize = if c.len() >= 2 && (('a' <= c[0] && c[0] <= 'z') || ('A' <= c[0] && c[0] <= 'Z')) && c[1] == ':' { 2 } else { 0 };
    if dot_segment_exec(c.as_slice(), start, start, 1) {
        return true;
    }
    let pre = chars_of("\\\\?\\");
    let verbatim = crate::text::chars_starts_with(c.as_slice(), pre.as_slice());
    let mut i: usize = 0;
    while i < c.len()
        invariant
            i <= c.len(),
            c@ == path@,
            start as int == drive_prefix_len(c@),
            verbatim == crate::text::starts_with(c@, "\\\\?\\"@),
            !dot_segment_at(c@, start as int, 1),
            forall|k: int| 0 <= k < i ==> !#[trigger] dot_segment_at(c@, k, 2),
            verbatim ==> forall|k: int| 0 <= k < i ==> !#[trigger] dot_segment_at(c@, k, 1),
        decreases c.len() - i,
    {
        if dot_segment_exec(c.as_slice(), start, i, 2) {
            return true;
        }
        if verbatim && dot_segment_exec(c.as_slice(), start, i, 1) {
            return true;
        }
        i = i + 1;
    }
    proof {
        assert forall|k: int| !#[trigger] dot_segment_at(c@, k, 2) by {
            if 0 <= k < i {
            }
        }
        if verbatim {
            assert forall|k: int| !#[trigger] dot_segment_at(c@, k, 1) by {
                if 0 <= k < i {
                }
            }
        }
    }
    false
}

/// A path component with `FILE_ATTRIBUTE_REPARSE_POINT` is refused.
pub fn is_reparse_point(attributes: u32) -> (r: bool)
    ensures
        r == (attributes & FILE_ATTRIBUTE_REPARSE_POINT != 0),
{
    attributes & FILE_ATTRIBUTE_REPARSE_POINT != 0
}

/// A final path without the `\\?\` prefix that `GetFinalPathNameByHandleW` puts before
/// a drive path.
pub open spec fn without_verbatim_prefix(p: Seq<char>) -> Seq<char> {
    if crate::text::starts_with(p, "\\\\?\\"@) { p.skip(4) } else { p }
}

pub fn strip_verbatim_prefix(p: &str) -> (r: String)
    ensures
        r@ == without_verbatim_prefix(p@),
{
    let c = chars_of(p);
    let pre = chars_of("\\\\?\\");
    proof {
        reveal_strlit("\\\\?\\");
    }
    if crate::text::chars_starts_with(c.as_slice(), pre.as_slice()) {
        string_of_range(c.as_slice(), 4, c.len())
    } else {
        owned(p)
    }
}

// ---------------------------------------------------------------------------
// Launching

/// The game runs: a process of `BlackDesert64.exe` is found (see `find_process_id`).
pub fn is_game_running<V, S>(cache: &mut Option<u32>, image_path: V, snapshot: S) -> (r: bool)
    where
        V: FnOnce(u32) -> Option<Vec<u16>>,
        S: FnOnce() -> Vec<(u32, Vec<u16>)>,
    requires
        forall|pid: u32| call_requires(image_path, (pid,)),
        call_requires(snapshot, ()),
    ensures
        exists|found: Option<u32>| crate::process::process_lookup(*old(cache), *final(cache), GAME_EXE@, image_path, snapshot, found)
            && r == found is Some,
{
    let found = crate::process::find_process_id(cache, GAME_EXE, image_path, snapshot);
    found.is_some()
}

/// `spawn` answered `res` for a path with the text `path`.
pub open spec fn spawned<S: Fn(&str) -> Result<(), String>>(spawn: S, path: Seq<char>, res: Result<(), String>) -> bool {
    exists|q: &str| q@ == path && call_ensures(spawn, (q,), res)
}

/// `spawn` succeeded for a path with the text `path`.
pub open spec fn spawned_ok<S: Fn(&str) -> Result<(), String>>(spawn: S, path: Seq<char>) -> bool {
    exists|q: &str, res: Result<(), String>| q@ == path && call_ensures(spawn, (q,), res) && res is Ok
}

/// `spawn` refused a path with the text `path`.
pub open spec fn spawn_failed<S: Fn(&str) -> Result<(), String>>(spawn: S, path: Seq<char>) -> bool {
    exists|q: &str, res: Result<(), String>| q@ == path && call_ensures(spawn, (q,), res) && res is Err
}

/// The outcome of trying the fallback candidates in order: the first that starts, else
/// the last rejection, else nothing found.
pub open spec fn fallback_outcome<S: Fn(&str) -> Result<(), String>>(spawn: S, fallback: Seq<String>, r: LaunchResult) -> bool {
    match r {
        LaunchResult::LauncherStarted(p) => exists|i: int| 0 <= i < fallback.len() && #[trigger] fallback[i]@ == p@
            && forall|j: int| 0 <= j < i ==> spawn_failed(spawn, #[trigger] fallback[j]@),
        LaunchResult::LauncherRejected(p, _) => fallback.len() > 0 && p@ == fallback.last()@
            && forall|j: int| 0 <= j < fallback.len() ==> spawn_failed(spawn, #[trigger] fallback[j]@),
        LaunchResult::LauncherNotFound => fallback.len() == 0,
        LaunchResult::GameAlreadyRunning => false,
    }
}

/// The path a launch result names, if any.
pub open spec fn result_path(r: LaunchResult) -> Option<Seq<char>> {
    match r {
        LaunchResult::LauncherStarted(p) => Some(p@),
        LaunchResult::LauncherRejected(p, _) => Some(p@),
        _ => None,
    }
}

/// `spawn` may be given `p` only when the game was found not running and `p` is the one
/// path the launch goes by: the vetted user path that exists, or else a fallback
/// candidate.
pub open spec fn spawn_allowed<G, E>(
    game_running: G,
    file_exists: E,
    user_path: Seq<char>,
    deny_roots: Seq<String>,
    fallback: Seq<String>,
    p: Seq<char>,
) -> bool
    where
        G: FnOnce() -> bool,
        E: Fn(&str) -> bool,
{
    &&& exists|running: bool| call_ensures(game_running, (), running) && !running
    &&& {
        let d = user_path_decision(user_path, deny_roots);
        ||| (d is Some && answered(file_exists, d->0, true) && p == d->0)
        ||| ((d is None || answered(file_exists, d->0, false))
            && exists|i: int| 0 <= i < fallback.len() && #[trigger] fallback[i]@ == p)
    }
}

/// Starts the game's launcher. Nothing is started while the game runs. A user path
/// that `classify_user_path_with_roots` accepts and that exists is tried alone; otherwise
/// the fallback candidates are tried in order until one starts, and the last rejection
/// is reported if none did. `spawn` verifies and starts one launcher file.
pub fn launch_game<G, E, S>(
    user_path: &str,
    deny_roots: &[String],
    fallback: Vec<String>,
    game_running: G,
    file_exists: E,
    spawn: S,
) -> (r: LaunchResult)
    where
        G: FnOnce() -> bool,
        E: Fn(&str) -> bool,
        S: Fn(&str) -> Result<(), String>,
    requires
        call_requires(game_running, ()),
        forall|p: &str| call_requires(file_exists, (p,)),
        forall|p: &str| spawn_allowed(game_running, file_exists, user_path@, deny_roots@, fallback@, p@)
            ==> call_requires(spawn, (p,)),
    ensures
        exists|running: bool| call_ensures(game_running, (), running) && (running <==> r is GameAlreadyRunning),
        r matches LaunchResult::LauncherStarted(p) ==> spawned_ok(spawn, p@),
        r matches LaunchResult::LauncherRejected(p, e) ==> spawned(spawn, p@, Err::<(), String>(e)),
        !(r is GameAlreadyRunning) ==> {
            let d = user_path_decision(user_path@, deny_roots@);
            ||| (d is Some && answered(file_exists, d->0, true) && result_path(r) == d)
            ||| ((d is None || answered(file_exists, d->0, false)) && fallback_outcome(spawn, fallback@, r))
        },
{
    let running = game_running();
    if running {
        return LaunchResult::GameAlreadyRunning;
    }
    match classify_user_path_with_roots(user_path, deny_roots) {
        UserPathDecision::Use(p) => {
            let there = file_exists(p.as_str());
            assert(answered(file_exists, p@, there));
            if there {
                let res = spawn(p.as_str());
                assert(spawned(spawn, p@, res));
                return match res {
                    Ok(()) => {
                        assert(spawned_ok(spawn, p@));
                        LaunchResult::LauncherStarted(p)
                    },
                    Err(e) => LaunchResult::LauncherRejected(p, e),
                };
            }
        },
        UserPathDecision::Ignore => {},
    }
    let ghost d = user_path_decision(user_path@, deny_roots@);
    assert(d is None || answered(file_exists, d->0, false));
    let mut last_rejection: Option<(String, String)> = None;
    let mut i: usize = 0;
    while i < fallback.len()
        invariant
            i <= fallback@.len(),
            forall|p: &str| spawn_allowed(game_running, file_exists, user_path@, deny_roots@, fallback@, p@)
                ==> call_requires(spawn, (p,)),
            call_ensures(game_running, (), running) && !running,
            d == user_path_decision(user_path@, deny_roots@),
            d is None || answered(file_exists, d->0, false),
            last_rejection matches Some((p, e)) ==> spawned(spawn, p@, Err::<(), String>(e)) && i > 0
                && p@ == fallback@[i - 1]@,
            last_rejection is None ==> i == 0,
            forall|j: int| 0 <= j < i ==> spawn_failed(spawn, #[trigger] fallback@[j]@),
        decreases fallback.len() - i,
    {
        let path = &fallback[i];
        assert(fallback@[i as int]@ == path@);
        assert(spawn_allowed(game_running, file_exists, user_path@, deny_roots@, fallback@, path@));
        let res = spawn(path.as_str());
        assert(spawned(spawn, path@, res));
        match res {
            Ok(()) => {
                assert(spawned_ok(spawn, path@));
                let r = LaunchResult::LauncherStarted(path.clone());
                assert(fallback@[i as int]@ == path@);
                assert(fallback_outcome(spawn, fallback@, r));
                return r;
            },
            Err(e) => {
                assert(spawn_failed(spawn, fallback@[i as int]@));
                last_rejection = Some((path.clone(), e));
            },
        }
        i = i + 1;
    }
    match last_rejection {
        Some((p, e)) => {
            let r = LaunchResult::LauncherRejected(p, e);
            assert(fallback_outcome(spawn, fallback@, r));
            r
        },
        None => LaunchResult::LauncherNotFound,
    }
}

/// The message shown after a launch attempt (or after the launch task failed).
pub open spec fn launch_message_text(result: Result<LaunchResult, String>) -> Seq<char> {
    match result {
        Ok(LaunchResult::GameAlreadyRunning) => "게임이 이미 실행 중입니다. 런처를 실행하지 않습니다."@,
        Ok(LaunchResult::LauncherStarted(p)) => "런처 실행됨: "@ + p@,
        Ok(LaunchResult::LauncherRejected(p, e)) => "런처 보안 검증 실패 ("@ + p@ + "): "@ + e@,
        Ok(LaunchResult::LauncherNotFound) => "런처를 찾을 수 없습니다. 경로를 직접 입력하세요."@,
        Err(e) => "런처 실행 작업 실패: "@ + e@,
    }
}

pub fn launch_message(result: &Result<LaunchResult, String>) -> (r: String)
    ensures
        r@ == launch_message_text(*result),
{
    match result {
        Ok(LaunchResult::GameAlreadyRunning) => owned("게임이 이미 실행 중입니다. 런처를 실행하지 않습니다."),
        Ok(LaunchResult::LauncherStarted(p)) => {
            let mut s = owned("런처 실행됨: ");
            push_str(&mut s, p.as_str());
            s
        },
        Ok(LaunchResult::LauncherRejected(p, e)) => {
            let mut s = owned("런처 보안 검증 실패 (");
            push_str(&mut s, p.as_str());
            push_str(&mut s, "): ");
            push_str(&mut s, e.as_str());
            s
        },
        Ok(LaunchResult::LauncherNotFound) => owned("런처를 찾을 수 없습니다. 경로를 직접 입력하세요."),
        Err(e) => {
            let mut s = owned("런처 실행 작업 실패: ");
            push_str(&mut s, e.as_str());
            s
        },
    }
}

/// Launcher paths longer than this many characters are refused before anything runs.
pub const LAUNCH_PATH_MAX_CHARS: usize = 512;

/// Allows one launch at a time.
#[derive(Debug)]
pub struct LaunchFlag {
    pub busy: bool,
}

impl LaunchFlag {
    pub fn new() -> (r: Self)
        ensures
            !r.busy,
    {
        LaunchFlag { busy: false }
    }

    /// Takes the flag if it is free.
    pub fn try_acquire(&mut self) -> (r: bool)
        ensures
            r == !old(self).busy,
            final(self).busy,
    {
        if self.busy {
            false
        } else {
            self.busy = true;
            true
        }
    }

    pub fn release(&mut self)
        ensures
            !final(self).busy,
    {
        self.busy = false;
    }
}

// ---------------------------------------------------------------------------
// Verified start of the launcher

/// Why a launcher file was not started. System errors are carried as text.
#[derive(Debug, Clone)]
pub enum VerificationError {
    Open(String),
    InvalidSignature(i32),
    MissingSigner,
    MissingPublisher,
    UnapprovedPublisher(String),
    InvalidPath(String),
    ReparsePoint(String),
    Windows { operation: String, source: String },
    FinalPath(String),
    ChildImageMismatch,
    Resume,
}

/// `0x` and the lower-case hexadecimal digits of `n` (as `{:#x}` prints an `i32`, in two's
/// complement for a negative value).
pub open spec fn hex_text(n: u32) -> Seq<char>
    decreases n,
{
    let d = (n % 16) as int;
    let c = if d < 10 { (48 + d) as char } else { (87 + d) as char };
    if n < 16 { "0x"@.push(c) } else { hex_text(n / 16).push(c) }
}

fn push_hex(s: &mut String, n: u32)
    ensures
        final(s)@ == old(s)@ + hex_text(n),
    decreases n,
{
    let d = n % 16;
    let c: char = if d < 10 { (48 + d) as u8 as char } else { (87 + d) as u8 as char };
    if n < 16 {
        push_str(s, "0x");
        proof {
            reveal_strlit("0x");
        }
    } else {
        push_hex(s, n / 16);
    }
    s.push(c);
}

pub open spec fn verification_text(e: VerificationError) -> Seq<char> {
    match e {
        VerificationError::Open(m) => "런처 파일 잠금 실패: "@ + m@,
        VerificationError::InvalidSignature(code) => "Authenticode 서명 검증 실패 (코드 "@ + hex_text(code as u32) + ")"@,
        VerificationError::MissingSigner => "Authenticode 서명자 인증서를 찾을 수 없습니다."@,
        VerificationError::MissingPublisher => "Authenticode 발행자 이름을 읽을 수 없습니다."@,
        VerificationError::UnapprovedPublisher(p) => "승인되지 않은 Authenticode 발행자: "@ + p@,
        VerificationError::InvalidPath(p) => "런처 경로에 허용되지 않는 구성요소가 있습니다: "@ + p@,
        VerificationError::ReparsePoint(p) => "런처 경로에 reparse point가 포함되어 있습니다: "@ + p@,
        VerificationError::Windows { operation, source } => operation@ + " 실패: "@ + source@,
        VerificationError::FinalPath(m) => "런처 최종 경로 확인 실패: "@ + m@,
        VerificationError::ChildImageMismatch => "실행된 프로세스 이미지가 검증한 런처와 일치하지 않습니다."@,
        VerificationError::Resume => "중지 상태 런처 재개 실패"@,
    }
}

impl VerificationError {
    pub fn message(&self) -> (r: String)
        ensures
            r@ == verification_text(*self),
    {
        match self {
            VerificationError::Open(m) => {
                let mut s = owned("런처 파일 잠금 실패: ");
                push_str(&mut s, m.as_str());
                s
            },
            VerificationError::InvalidSignature(code) => {
                let mut s = owned("Authenticode 서명 검증 실패 (코드 ");
                push_hex(&mut s, *code as u32);
                push_str(&mut s, ")");
                s
            },
            VerificationError::MissingSigner => owned("Authenticode 서명자 인증서를 찾을 수 없습니다."),
            VerificationError::MissingPublisher => owned("Authenticode 발행자 이름을 읽을 수 없습니다."),
            VerificationError::UnapprovedPublisher(p) => {
                let mut s = owned("승인되지 않은 Authenticode 발행자: ");
                push_str(&mut s, p.as_str());
                s
            },
            VerificationError::InvalidPath(p) => {
                let mut s = owned("런처 경로에 허용되지 않는 구성요소가 있습니다: ");
                push_str(&mut s, p.as_str());
                s
            },
            VerificationError::ReparsePoint(p) => {
                let mut s = owned("런처 경로에 reparse point가 포함되어 있습니다: ");
                push_str(&mut s, p.as_str());
                s
            },
            VerificationError::Windows { operation, source } => {
                let mut s = operation.clone();
                push_str(&mut s, " 실패: ");
                push_str(&mut s, source.as_str());
                s
            },
            VerificationError::FinalPath(m) => {
                let mut s = owned("런처 최종 경로 확인 실패: ");
                push_str(&mut s, m.as_str());
                s
            },
            VerificationError::ChildImageMismatch => owned("실행된 프로세스 이미지가 검증한 런처와 일치하지 않습니다."),
            VerificationError::Resume => owned("중지 상태 런처 재개 실패"),
        }
    }
}

/// The image and the publisher that checking the signature of a locked launcher file gave.
pub struct SignedImage {
    pub image: ImageDescriptor,
    pub publisher: String,
}

/// What starting a launcher file came to, given what each step answered after the
/// signature check `checked`: an unapproved publisher, or the suspended start, the image
/// of the started process, and its comparison with the checked file before it may run.
pub open spec fn started_after_check<K, C, Q, R>(
    checked: SignedImage,
    create_suspended: C,
    child_image: Q,
    resume: R,
    r: Result<(), VerificationError>,
) -> bool
    where
        C: FnOnce(&ImageDescriptor) -> Result<K, VerificationError>,
        Q: FnOnce(&K) -> Result<ImageDescriptor, VerificationError>,
        R: FnOnce(K) -> Result<(), VerificationError>,
{
    if !eq_ignore_ascii_case(checked.publisher@, APPROVED_LAUNCHER_PUBLISHER@) {
        r matches Err(VerificationError::UnapprovedPublisher(p)) && p == checked.publisher
    } else {
        exists|child: Result<K, VerificationError>| call_ensures(create_suspended, (&checked.image,), child) && match child {
            Err(e) => r == Err::<(), VerificationError>(e),
            Ok(k) => exists|actual: Result<ImageDescriptor, VerificationError>| call_ensures(child_image, (&k,), actual) && match actual {
                Err(e) => r == Err::<(), VerificationError>(e),
                Ok(a) => if !(checked.image.identity == a.identity && eq_ignore_ascii_case(checked.image.final_path@, a.final_path@)) {
                    r matches Err(VerificationError::ChildImageMismatch)
                } else {
                    call_ensures(resume, (k,), r)
                },
            },
        }
    }
}

/// `verify` gave `c` for `path` and its publisher is the approved one.
pub open spec fn approved_check<V: FnOnce(&str) -> Result<SignedImage, VerificationError>>(verify: V, path: &str, c: SignedImage) -> bool {
    &&& exists|res: Result<SignedImage, VerificationError>|
        call_ensures(verify, (path,), res) && res == Ok::<SignedImage, VerificationError>(c)
    &&& eq_ignore_ascii_case(c.publisher@, APPROVED_LAUNCHER_PUBLISHER@)
}

/// `k` is a process started suspended from an approved checked image, and the image it
/// runs is that file: only such a process may be resumed.
pub open spec fn resumable<K, V, C, Q>(verify: V, path: &str, create_suspended: C, child_image: Q, k: K) -> bool
    where
        V: FnOnce(&str) -> Result<SignedImage, VerificationError>,
        C: FnOnce(&ImageDescriptor) -> Result<K, VerificationError>,
        Q: FnOnce(&K) -> Result<ImageDescriptor, VerificationError>,
{
    exists|c: SignedImage, a: ImageDescriptor| {
        &&& approved_check(verify, path, c)
        &&& exists|ch: Result<K, VerificationError>|
            call_ensures(create_suspended, (&c.image,), ch) && ch == Ok::<K, VerificationError>(k)
        &&& exists|act: Result<ImageDescriptor, VerificationError>|
            call_ensures(child_image, (&k,), act) && act == Ok::<ImageDescriptor, VerificationError>(a)
        &&& c.image.identity == a.identity && eq_ignore_ascii_case(c.image.final_path@, a.final_path@)
    }
}

/// Starts the launcher at `path` only as the file whose signature was checked: `verify`
/// locks the file and checks its Authenticode signature, giving its image and publisher;
/// the publisher must be the approved one; `create_suspended` starts that image
/// suspended, `child_image` reads which image the new process runs, which must be the
/// checked file (same identity and final path); only then does `resume` let it run. A
/// process that is not resumed is ended by its owner.
pub fn spawn_verified_launcher<K, V, C, Q, R>(
    path: &str,
    verify: V,
    create_suspended: C,
    child_image: Q,
    resume: R,
) -> (r: Result<(), VerificationError>)
    where
        V: FnOnce(&str) -> Result<SignedImage, VerificationError>,
        C: FnOnce(&ImageDescriptor) -> Result<K, VerificationError>,
        Q: FnOnce(&K) -> Result<ImageDescriptor, VerificationError>,
        R: FnOnce(K) -> Result<(), VerificationError>,
    requires
        call_requires(verify, (path,)),
        forall|i: &ImageDescriptor| (exists|c: SignedImage| approved_check(verify, path, c) && c.image == *i)
            ==> call_requires(create_suspended, (i,)),
        forall|k: &K| call_requires(child_image, (k,)),
        forall|k: K| resumable(verify, path, create_suspended, child_image, k) ==> call_requires(resume, (k,)),
    ensures
        exists|checked: Result<SignedImage, VerificationError>| call_ensures(verify, (path,), checked) && match checked {
            Err(e) => r == Err::<(), VerificationError>(e),
            Ok(c) => started_after_check(c, create_suspended, child_image, resume, r),
        },
{
    let checked = verify(path);
    let c = match checked {
        Err(e) => return Err(e),
        Ok(c) => c,
    };
    if !publisher_is_approved(c.publisher.as_str()) {
        let r = Err(VerificationError::UnapprovedPublisher(c.publisher));
        return r;
    }
    assert(approved_check(verify, path, c));
    let child = create_suspended(&c.image);
    let k = match child {
        Err(e) => {
            let r = Err(e);
            assert(started_after_check(c, create_suspended, child_image, resume, r));
            return r;
        },
        Ok(k) => k,
    };
    let actual = child_image(&k);
    let a = match actual {
        Err(e) => {
            let r = Err(e);
            assert(started_after_check(c, create_suspended, child_image, resume, r));
            return r;
        },
        Ok(a) => a,
    };
    if !child_matches_verified(&c.image, &a) {
        let r = Err(VerificationError::ChildImageMismatch);
        assert(started_after_check(c, create_suspended, child_image, resume, r));
        return r;
    }
    assert(resumable(verify, path, create_suspended, child_image, k)) by {
        assert(approved_check(verify, path, c));
    }
    let r = resume(k);
    assert(started_after_check(c, create_suspended, child_image, resume, r));
    r
}

} // verus!
