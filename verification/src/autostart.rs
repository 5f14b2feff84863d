use vstd::prelude::*;
use crate::cmd::{decode_lossy, string_list, string_views, utf8_lossy, CommandOutput};
use crate::paths::under_any_root;
use crate::shutdown::{delete_detail, says_task_missing};
use crate::text::{chars_of, dec, owned, string_of, push_dec, push_str, str_views, trim, trim_str};

verus! {

/// Task Scheduler name of the autostart task.
pub const TASK_NAME: &'static str = "BDO_Optimizer_Launcher_Autostart";
/// The argument that makes the app start in the tray.
pub const MINIMIZED_FLAG: &'static str = "--minimized";

/// Failures of the autostart operations. Paths and system errors are carried as text.
#[derive(Debug, Clone)]
pub enum Error {
    CurrentExe(String),
    QuoteInPath,
    UntrustedAutostartPath(String),
    ProgramFiles(String),
    ProgramFilesEncoding(String),
    Canonicalize { path: String, source: String },
    SecurityInfo { path: String, code: u32 },
    Sid(String),
    Acl(String),
    WritableDacl(String),
    SchtasksSpawn(String),
    RegisterFailed(String),
    TaskNotFound,
    UnregisterFailed(String),
}

pub open spec fn error_text(e: Error) -> Seq<char> {
    match e {
        Error::CurrentExe(m) => "실행 파일 경로 확인 실패: "@ + m@,
        Error::QuoteInPath => "실행 파일 경로에 큰따옴표가 포함되어 자동 시작 등록 불가."@,
        Error::UntrustedAutostartPath(p) => "자동 시작 등록 거부: 실행 파일이 사용자 쓰기 가능성이 높은 위치에 있습니다. Program Files 같은 관리자 전용 위치로 옮긴 뒤 다시 시도하세요. ("@ + p@ + ")"@,
        Error::ProgramFiles(m) => "Program Files 경로 확인 실패: "@ + m@,
        Error::ProgramFilesEncoding(m) => "Program Files 경로 문자열 변환 실패: "@ + m@,
        Error::Canonicalize { path, source } => "자동 시작 경로 정규화 실패 ("@ + path@ + "): "@ + source@,
        Error::SecurityInfo { path, code } => "자동 시작 보안 정보 조회 실패 ("@ + path@ + ", 코드 "@ + dec(code as nat) + ")"@,
        Error::Sid(m) => "자동 시작 SID 생성 실패: "@ + m@,
        Error::Acl(m) => "자동 시작 ACL 구조 확인 실패: "@ + m@,
        Error::WritableDacl(p) => "자동 시작 등록 거부: 일반 사용자가 수정 가능한 경로입니다. ("@ + p@ + ")"@,
        Error::SchtasksSpawn(m) => "schtasks 실행 실패: "@ + m@,
        Error::RegisterFailed(m) => "자동 시작 등록 실패. 관리자 권한을 확인하세요. ("@ + m@ + ")"@,
        Error::TaskNotFound => "이미 등록된 자동 시작이 없습니다."@,
        Error::UnregisterFailed(m) => "자동 시작 해제 실패. 관리자 권한을 확인하세요. ("@ + m@ + ")"@,
    }
}

fn text_around(head: &str, middle: &str, tail: &str) -> (r: String)
    ensures
        r@ == head@ + middle@ + tail@,
{
    let mut s = owned(head);
    push_str(&mut s, middle);
    push_str(&mut s, tail);
    s
}

impl Error {
    pub fn message(&self) -> (r: String)
        ensures
            r@ == error_text(*self),
    {
        proof {
            reveal_strlit("");
        }
        match self {
            Error::CurrentExe(m) => text_around("실행 파일 경로 확인 실패: ", m.as_str(), ""),
            Error::QuoteInPath => owned("실행 파일 경로에 큰따옴표가 포함되어 자동 시작 등록 불가."),
            Error::UntrustedAutostartPath(p) => text_around(
                "자동 시작 등록 거부: 실행 파일이 사용자 쓰기 가능성이 높은 위치에 있습니다. Program Files 같은 관리자 전용 위치로 옮긴 뒤 다시 시도하세요. (",
                p.as_str(),
                ")",
            ),
            Error::ProgramFiles(m) => text_around("Program Files 경로 확인 실패: ", m.as_str(), ""),
            Error::ProgramFilesEncoding(m) => text_around("Program Files 경로 문자열 변환 실패: ", m.as_str(), ""),
            Error::Canonicalize { path, source } => {
                let mut s = text_around("자동 시작 경로 정규화 실패 (", path.as_str(), "): ");
                push_str(&mut s, source.as_str());
                s
            },
            Error::SecurityInfo { path, code } => {
                let mut s = text_around("자동 시작 보안 정보 조회 실패 (", path.as_str(), ", 코드 ");
                push_dec(&mut s, *code as u64);
                push_str(&mut s, ")");
                s
            },
            Error::Sid(m) => text_around("자동 시작 SID 생성 실패: ", m.as_str(), ""),
            Error::Acl(m) => text_around("자동 시작 ACL 구조 확인 실패: ", m.as_str(), ""),
            Error::WritableDacl(p) => text_around("자동 시작 등록 거부: 일반 사용자가 수정 가능한 경로입니다. (", p.as_str(), ")"),
            Error::SchtasksSpawn(m) => text_around("schtasks 실행 실패: ", m.as_str(), ""),
            Error::RegisterFailed(m) => text_around("자동 시작 등록 실패. 관리자 권한을 확인하세요. (", m.as_str(), ")"),
            Error::TaskNotFound => owned("이미 등록된 자동 시작이 없습니다."),
            Error::UnregisterFailed(m) => text_around("자동 시작 해제 실패. 관리자 권한을 확인하세요. (", m.as_str(), ")"),
        }
    }

    pub fn is_task_not_found(&self) -> (r: bool)
        ensures
            r == (*self is TaskNotFound),
    {
        matches!(self, Error::TaskNotFound)
    }
}

// ---------------------------------------------------------------------------
// Registration checks

/// A deletion counts only when the task can no longer be queried and its task file is
/// gone.
pub fn task_deletion_is_confirmed(query_succeeded: bool, task_file_exists: bool) -> (r: bool)
    ensures
        r == (!query_succeeded && !task_file_exists),
{
    !query_succeeded && !task_file_exists
}

pub fn require_existing_task(exists: bool) -> (r: Result<(), Error>)
    ensures
        exists ==> r is Ok,
        !exists ==> r matches Err(Error::TaskNotFound),
{
    if exists { Ok(()) } else { Err(Error::TaskNotFound) }
}

/// The registered task is the one asked for: it exists and its start-minimized flag is
/// the expected one.
pub fn registration_matches(registered: bool, minimized: bool, expected_minimized: bool) -> (r: bool)
    ensures
        r == (registered && minimized == expected_minimized),
{
    registered && minimized == expected_minimized
}

/// The registration error after a wrong registration was removed (or not) with outcome `c`.
pub open spec fn rollback_text(c: Result<(), Error>) -> Seq<char> {
    match c {
        Ok(()) => "작업 등록 확인 실패."@,
        Err(Error::TaskNotFound) => "작업 등록 확인 실패."@,
        Err(e) => rollback_failed_text(e),
    }
}

pub open spec fn rollback_failed_text(e: Error) -> Seq<char> {
    "작업 등록 확인 실패 후 잘못된 작업 정리에도 실패했습니다: "@ + error_text(e)
}

/// Checks a fresh registration with `query` (registered, minimized). When it does not
/// match, the task is removed with `cleanup` and registration fails; a failed removal
/// (other than "not found") is reported with it.
pub fn verify_registration_with<Q, C>(expected_minimized: bool, query: Q, cleanup: C) -> (r: Result<(), Error>)
    where
        Q: FnOnce() -> (bool, bool),
        C: FnOnce() -> Result<(), Error>,
    requires
        call_requires(query, ()),
        (exists|state: (bool, bool)| call_ensures(query, (), state) && !(state.0 && state.1 == expected_minimized))
            ==> call_requires(cleanup, ()),
    ensures
        exists|state: (bool, bool)| call_ensures(query, (), state) && (
            if state.0 && state.1 == expected_minimized {
                r is Ok
            } else {
                exists|c: Result<(), Error>| call_ensures(cleanup, (), c) && match c {
                    Ok(()) => r matches Err(Error::RegisterFailed(m)) && m@ == "작업 등록 확인 실패."@,
                    Err(Error::TaskNotFound) => r matches Err(Error::RegisterFailed(m)) && m@ == "작업 등록 확인 실패."@,
                    Err(e) => r matches Err(Error::RegisterFailed(m)) && m@ == rollback_failed_text(e),
                }
            }),
{
    let (registered, minimized) = query();
    if registration_matches(registered, minimized, expected_minimized) {
        return Ok(());
    }
    assert(call_ensures(query, (), (registered, minimized)));
    let c = cleanup();
    match c {
        Ok(()) => Err(Error::RegisterFailed(owned("작업 등록 확인 실패."))),
        Err(Error::TaskNotFound) => Err(Error::RegisterFailed(owned("작업 등록 확인 실패."))),
        Err(e) => {
            let mut m = owned("작업 등록 확인 실패 후 잘못된 작업 정리에도 실패했습니다: ");
            let t = e.message();
            push_str(&mut m, t.as_str());
            Err(Error::RegisterFailed(m))
        },
    }
}

/// Removes the task with `delete`, but only after `task_exists` found it.
pub fn unregister_with<X, D>(task_exists: X, delete: D) -> (r: Result<(), Error>)
    where
        X: FnOnce() -> bool,
        D: FnOnce() -> Result<(), Error>,
    requires
        call_requires(task_exists, ()),
        call_ensures(task_exists, (), true) ==> call_requires(delete, ()),
    ensures
        exists|found: bool| call_ensures(task_exists, (), found) && (
            if found { call_ensures(delete, (), r) } else { r matches Err(Error::TaskNotFound) }),
{
    let found = task_exists();
    match require_existing_task(found) {
        Err(e) => Err(e),
        Ok(()) => delete(),
    }
}

/// The executable may not lie in a user-writable location.
pub fn validate_autostart_exe_path_for_roots(exe: &str, high_risk_roots: &[String]) -> (r: Result<(), Error>)
    ensures
        under_any_root(exe@, high_risk_roots@) ==> (r matches Err(Error::UntrustedAutostartPath(p)) && p@ == exe@),
        !under_any_root(exe@, high_risk_roots@) ==> r is Ok,
{
    if crate::paths::is_high_risk_user_writable_path(exe, high_risk_roots) {
        return Err(Error::UntrustedAutostartPath(owned(exe)));
    }
    Ok(())
}

/// The `/tr` value of the task: the executable quoted, with the tray flag when asked.
/// A path with a quote is refused, and so is one in a user-writable location.
pub open spec fn tr_value(exe: Seq<char>, with_tray: bool) -> Seq<char> {
    if with_tray { "\""@ + exe + "\" "@ + MINIMIZED_FLAG@ } else { "\""@ + exe + "\""@ }
}

/// `untrusted_write` answered `res` for a path with the text `p`.
pub open spec fn write_answer<W: Fn(&str) -> Result<bool, Error>>(w: W, p: Seq<char>, res: Result<bool, Error>) -> bool {
    exists|q: &str| q@ == p && call_ensures(w, (q,), res)
}

/// The walk over the directories `ps` (from the executable up to `root`) stopped at
/// index `i` with `r`: every earlier directory was answered "not writable", and this one
/// was answered writable, or with an error, or was the last and not writable.
pub open spec fn walk_stop<W: Fn(&str) -> Result<bool, Error>>(
    w: W,
    ps: Seq<Seq<char>>,
    exe: Seq<char>,
    root: Seq<char>,
    i: int,
    r: Result<(), Error>,
) -> bool {
    &&& 0 <= i < ps.len()
    &&& forall|j: int| 0 <= j < i ==> #[trigger] write_answer(w, ps[j], Ok(false))
    &&& {
        ||| (write_answer(w, ps[i], Ok(true)) && (r matches Err(Error::WritableDacl(x)) && x@ == ps[i]))
        ||| (r matches Err(e) && write_answer(w, ps[i], Err(e)))
        ||| (write_answer(w, ps[i], Ok(false)) && i == ps.len() - 1 && if crate::paths::normalized_path(ps[i])
            == crate::paths::normalized_path(root) {
            r is Ok
        } else {
            r matches Err(Error::UntrustedAutostartPath(x)) && x@ == exe
        })
    }
}

/// What checking `exe` against `root` gives: a path outside `root` is refused at once;
/// otherwise the walk up from `exe` stops as `walk_stop` says.
pub open spec fn protection_outcome<W: Fn(&str) -> Result<bool, Error>>(
    w: W,
    exe: Seq<char>,
    root: Seq<char>,
    r: Result<(), Error>,
) -> bool {
    &&& !crate::paths::same_or_child(exe, root) ==> (r matches Err(Error::UntrustedAutostartPath(x)) && x@ == exe)
    &&& crate::paths::same_or_child(exe, root) ==> exists|i: int|
        #[trigger] walk_stop(w, crate::paths::climb(exe, root), exe, root, i, r)
}

/// The executable `exe` (already made canonical) counts as protected when it lies in
/// `root` (the canonical Program Files directory) and `untrusted_write` answers "no" for
/// it and for every directory above it up to `root`. The first directory answered
/// "writable" is reported; an error of `untrusted_write` is passed on.
pub fn validate_protected_path<W: Fn(&str) -> Result<bool, Error>>(exe: &str, root: &str, untrusted_write: &W) -> (r: Result<(), Error>)
    requires
        forall|p: &str| call_requires(*untrusted_write, (p,)),
    ensures
        protection_outcome(*untrusted_write, exe@, root@, r),
        r is Ok ==> {
            let ps = crate::paths::climb(exe@, root@);
            &&& crate::paths::same_or_child(exe@, root@)
            &&& crate::paths::normalized_path(ps.last()) == crate::paths::normalized_path(root@)
            &&& forall|j: int| 0 <= j < ps.len() ==> #[trigger] write_answer(*untrusted_write, ps[j], Ok(false))
        },
{
    if !crate::paths::path_is_same_or_child(exe, root) {
        return Err(Error::UntrustedAutostartPath(owned(exe)));
    }
    let ghost ps = crate::paths::climb(exe@, root@);
    let root_n = crate::paths::normalize_path_for_prefix(root);
    let mut cur: Vec<char> = chars_of(exe);
    let ghost mut k: int = 0;
    loop
        invariant
            forall|p: &str| call_requires(*untrusted_write, (p,)),
            ps == crate::paths::climb(exe@, root@),
            crate::paths::same_or_child(exe@, root@),
            0 <= k < ps.len(),
            ps.skip(k) == crate::paths::climb(cur@, root@),
            root_n@ == crate::paths::normalized_path(root@),
            forall|j: int| 0 <= j < k ==> #[trigger] write_answer(*untrusted_write, ps[j], Ok(false)),
        decreases cur.len(),
    {
        assert(ps.skip(k)[0] == ps[k]);
        assert(ps[k] == cur@);
        let cs = string_of(cur.as_slice());
        let ans = untrusted_write(cs.as_str());
        assert(write_answer(*untrusted_write, cur@, ans));
        match ans {
            Err(e) => {
                let r = Err(e);
                assert(walk_stop(*untrusted_write, ps, exe@, root@, k, r));
                return r;
            },
            Ok(true) => {
                let r = Err(Error::WritableDacl(cs));
                assert(walk_stop(*untrusted_write, ps, exe@, root@, k, r));
                return r;
            },
            Ok(false) => {
                let n = crate::paths::normalize_path_for_prefix(cs.as_str());
                if crate::text::chars_eq(n.as_slice(), root_n.as_slice()) {
                    assert(ps.skip(k).len() == 1);
                    let r: Result<(), Error> = Ok(());
                    assert(walk_stop(*untrusted_write, ps, exe@, root@, k, r));
                    return r;
                }
                match crate::paths::last_separator_index(cur.as_slice()) {
                    Some(j) if j > 0 => {
                        proof {
                            crate::paths::lemma_last_separator_bounds(cur@, cur@.len() as int);
                            assert(crate::paths::climb(cur@, root@) == seq![cur@] + crate::paths::climb(cur@.take(j as int), root@));
                            assert(ps.skip(k + 1) == ps.skip(k).skip(1));
                            assert((seq![cur@] + crate::paths::climb(cur@.take(j as int), root@)).skip(1)
                                == crate::paths::climb(cur@.take(j as int), root@));
                            k = k + 1;
                        }
                        cur = crate::text::slice_to_vec(cur.as_slice(), 0, j);
                    },
                    _ => {
                        assert(ps.skip(k).len() == 1);
                        let r = Err(Error::UntrustedAutostartPath(owned(exe)));
                        assert(walk_stop(*untrusted_write, ps, exe@, root@, k, r));
                        return r;
                    },
                }
            },
        }
    }
}

pub fn build_tr_value_for_exe(exe: &str, with_tray: bool, high_risk_roots: &[String]) -> (r: Result<String, Error>)
    ensures
        under_any_root(exe@, high_risk_roots@) ==> (r matches Err(Error::UntrustedAutostartPath(p)) && p@ == exe@),
        !under_any_root(exe@, high_risk_roots@) && exe@.contains('"') ==> r matches Err(Error::QuoteInPath),
        !under_any_root(exe@, high_risk_roots@) && !exe@.contains('"') ==> (r matches Ok(t) && t@ == tr_value(exe@, with_tray)),
{
    match validate_autostart_exe_path_for_roots(exe, high_risk_roots) {
        Err(e) => return Err(e),
        Ok(()) => {},
    }
    let c = chars_of(exe);
    if crate::text::chars_contain(c.as_slice(), '"') {
        return Err(Error::QuoteInPath);
    }
    if with_tray {
        let mut s = text_around("\"", exe, "\" ");
        push_str(&mut s, MINIMIZED_FLAG);
        Ok(s)
    } else {
        Ok(text_around("\"", exe, "\""))
    }
}

// ---------------------------------------------------------------------------
// Access rights

pub const GENERIC_READ: u32 = 0x8000_0000;
pub const GENERIC_WRITE: u32 = 0x4000_0000;
pub const GENERIC_EXECUTE: u32 = 0x2000_0000;
pub const GENERIC_ALL: u32 = 0x1000_0000;
pub const FILE_GENERIC_READ: u32 = 0x0012_0089;
pub const FILE_GENERIC_WRITE: u32 = 0x0012_0116;
pub const FILE_GENERIC_EXECUTE: u32 = 0x0012_00A0;
pub const FILE_ALL_ACCESS: u32 = 0x001F_01FF;
/// Write data, append data, write extended attributes, write attributes, delete child,
/// delete, write DAC and write owner.
pub const DANGEROUS_WRITE_RIGHTS: u32 = 0x0002 | 0x0004 | 0x0010 | 0x0100 | 0x0040 | 0x0001_0000 | 0x0004_0000 | 0x0008_0000;

/// `MapGenericMask` with the file mapping: each generic bit is replaced by the specific
/// rights it stands for.
pub open spec fn map_generic(r: u32) -> u32 {
    let base = r & !(GENERIC_READ | GENERIC_WRITE | GENERIC_EXECUTE | GENERIC_ALL);
    base
        | (if r & GENERIC_READ != 0 { FILE_GENERIC_READ } else { 0 })
        | (if r & GENERIC_WRITE != 0 { FILE_GENERIC_WRITE } else { 0 })
        | (if r & GENERIC_EXECUTE != 0 { FILE_GENERIC_EXECUTE } else { 0 })
        | (if r & GENERIC_ALL != 0 { FILE_ALL_ACCESS } else { 0 })
}

pub fn map_file_generic_rights(rights: u32) -> (r: u32)
    ensures
        r == map_generic(rights),
{
    let m = (rights & !(GENERIC_READ | GENERIC_WRITE | GENERIC_EXECUTE | GENERIC_ALL))
        | (if rights & GENERIC_READ != 0 { FILE_GENERIC_READ } else { 0 })
        | (if rights & GENERIC_WRITE != 0 { FILE_GENERIC_WRITE } else { 0 })
        | (if rights & GENERIC_EXECUTE != 0 { FILE_GENERIC_EXECUTE } else { 0 })
        | (if rights & GENERIC_ALL != 0 { FILE_ALL_ACCESS } else { 0 });
    m
}

/// Rights that let a holder change, replace or take over the file.
pub fn has_dangerous_write_rights(rights: u32) -> (r: bool)
    ensures
        r == (map_generic(rights) & DANGEROUS_WRITE_RIGHTS != 0),
{
    let mapped = map_file_generic_rights(rights);
    mapped & DANGEROUS_WRITE_RIGHTS != 0
}

// ---------------------------------------------------------------------------
// Access control entries

/// How an access control entry counts: malformed (the path is then untrusted), not an
/// allowing entry that matters here, or an allowing entry whose SID starts at
/// `sid_offset` and which grants `mask`.
#[derive(Debug, Clone, Copy, PartialEq, Eq, Structural)]
pub enum AceView {
    Malformed,
    Skip,
    Allow { sid_offset: usize, mask: u32 },
}

pub open spec fn le_u16(b: Seq<u8>, i: int) -> u16 {
    ((b[i] as u16) | ((b[i + 1] as u16) << 8u16)) as u16
}

pub open spec fn le_u32(b: Seq<u8>, i: int) -> u32 {
    ((b[i] as u32) | ((b[i + 1] as u32) << 8u32) | ((b[i + 2] as u32) << 16u32) | ((b[i + 3] as u32) << 24u32)) as u32
}

/// The entry's header is type (byte 0), flags (byte 1) and size (bytes 2..4, little
/// endian). Inherit-only entries and other types than the allowing ones are skipped;
/// allowing entries (types 0 and 9) keep their SID at byte 8, object entries (types 5 and
/// 11) after 12 bytes and the GUIDs their flags announce; a compound entry (type 4), a
/// short object entry, or a SID outside the entry is malformed. The mask is at byte 4.
pub open spec fn ace_view(ace: Seq<u8>) -> AceView {
    let t = ace[0];
    let flags = ace[1];
    let size = le_u16(ace, 2) as int;
    if flags & 0x08 != 0 {
        AceView::Skip
    } else if t == 4 {
        AceView::Malformed
    } else if !(t == 0 || t == 9 || t == 5 || t == 11) {
        AceView::Skip
    } else if (t == 5 || t == 11) && size < 12 {
        AceView::Malformed
    } else {
        let off: int = if t == 0 || t == 9 {
            8
        } else {
            let f = le_u32(ace, 8);
            12 + (if f & 1 != 0 { 16int } else { 0 }) + (if f & 2 != 0 { 16int } else { 0 })
        };
        if off >= size { AceView::Malformed } else { AceView::Allow { sid_offset: off as usize, mask: le_u32(ace, 4) } }
    }
}

/// Reads one entry; `ace` holds at least its header and all of its declared size.
pub fn allow_ace(ace: &[u8]) -> (r: AceView)
    requires
        ace@.len() >= 4,
        ace@.len() >= le_u16(ace@, 2),
    ensures
        r == ace_view(ace@),
{
    let t = ace[0];
    let flags = ace[1];
    let size: u16 = (ace[2] as u16) | ((ace[3] as u16) << 8u16);
    if flags & 0x08 != 0 {
        return AceView::Skip;
    }
    if t == 4 {
        return AceView::Malformed;
    }
    if !(t == 0 || t == 9 || t == 5 || t == 11) {
        return AceView::Skip;
    }
    if (t == 5 || t == 11) && size < 12 {
        return AceView::Malformed;
    }
    let off: usize = if t == 0 || t == 9 {
        8
    } else {
        let f: u32 = (ace[8] as u32) | ((ace[9] as u32) << 8u32) | ((ace[10] as u32) << 16u32) | ((ace[11] as u32) << 24u32);
        12 + (if f & 1 != 0 { 16 } else { 0 }) + (if f & 2 != 0 { 16 } else { 0 })
    };
    if off >= size as usize {
        return AceView::Malformed;
    }
    let mask: u32 = (ace[4] as u32) | ((ace[5] as u32) << 8u32) | ((ace[6] as u32) << 16u32) | ((ace[7] as u32) << 24u32);
    AceView::Allow { sid_offset: off, mask }
}

/// `is_trusted` answered `a` for a SID with the bytes `sid`.
pub open spec fn judged<T: Fn(&[u8]) -> bool>(is_trusted: T, sid: Seq<u8>, a: bool) -> bool {
    exists|q: &[u8]| q@ == sid && call_ensures(is_trusted, (q,), a)
}

/// How an entry counts: one shorter than its header or than the size it declares is
/// malformed, otherwise `ace_view` decides.
pub open spec fn entry_view(ace: Seq<u8>) -> AceView {
    if well_formed_ace(ace) { ace_view(ace) } else { AceView::Malformed }
}

/// The entry lets someone untrusted write: it is malformed, or it grants dangerous write
/// rights to a SID that `is_trusted` rejected.
pub open spec fn ace_untrusted<T: Fn(&[u8]) -> bool>(ace: Seq<u8>, is_trusted: T) -> bool {
    match entry_view(ace) {
        AceView::Malformed => true,
        AceView::Skip => false,
        AceView::Allow { sid_offset, mask } => map_generic(mask) & DANGEROUS_WRITE_RIGHTS != 0
            && judged(is_trusted, ace.skip(sid_offset as int), false),
    }
}

/// The entry is harmless: skipped, without dangerous rights, or for a SID `is_trusted`
/// accepted.
pub open spec fn ace_trusted<T: Fn(&[u8]) -> bool>(ace: Seq<u8>, is_trusted: T) -> bool {
    match entry_view(ace) {
        AceView::Malformed => false,
        AceView::Skip => true,
        AceView::Allow { sid_offset, mask } => map_generic(mask) & DANGEROUS_WRITE_RIGHTS == 0
            || judged(is_trusted, ace.skip(sid_offset as int), true),
    }
}

pub open spec fn well_formed_ace(ace: Seq<u8>) -> bool {
    ace.len() >= 4 && ace.len() >= le_u16(ace, 2)
}

/// Some entry of the list lets someone untrusted write (entries are looked at in order
/// and the first such entry decides).
pub fn dacl_has_untrusted_write_access<T>(aces: &[Vec<u8>], is_trusted: &T) -> (r: bool)
    where
        T: Fn(&[u8]) -> bool,
    requires
        forall|q: &[u8]| call_requires(*is_trusted, (q,)),
    ensures
        r ==> exists|i: int| 0 <= i < aces@.len() && ace_untrusted(#[trigger] aces@[i]@, *is_trusted),
        !r ==> forall|i: int| 0 <= i < aces@.len() ==> ace_trusted(#[trigger] aces@[i]@, *is_trusted),
{
    let mut i: usize = 0;
    while i < aces.len()
        invariant
            i <= aces@.len(),
            forall|q: &[u8]| call_requires(*is_trusted, (q,)),
            forall|k: int| 0 <= k < i ==> ace_trusted(#[trigger] aces@[k]@, *is_trusted),
        decreases aces.len() - i,
    {
        let ace = &aces[i];
        assert(ace@ == aces@[i as int]@);
        if ace.len() < 4 || ace.len() < ((ace[2] as u16) | ((ace[3] as u16) << 8u16)) as usize {
            assert(!well_formed_ace(aces@[i as int]@));
            assert(ace_untrusted(aces@[i as int]@, *is_trusted));
            return true;
        }
        assert(well_formed_ace(aces@[i as int]@));
        match allow_ace(ace.as_slice()) {
            AceView::Malformed => {
                assert(ace_untrusted(aces@[i as int]@, *is_trusted));
                return true;
            },
            AceView::Skip => {},
            AceView::Allow { sid_offset, mask } => {
                if has_dangerous_write_rights(mask) {
                    let sid = &ace.as_slice()[sid_offset..ace.len()];
                    assert(sid@ == aces@[i as int]@.skip(sid_offset as int));
                    let ok = is_trusted(sid);
                    if !ok {
                        assert(judged(*is_trusted, aces@[i as int]@.skip(sid_offset as int), false));
                        assert(ace_untrusted(aces@[i as int]@, *is_trusted));
                        return true;
                    }
                    assert(judged(*is_trusted, aces@[i as int]@.skip(sid_offset as int), true));
                }
            },
        }
        i = i + 1;
    }
    false
}

/// A file whose owner is missing or untrusted, or without a DACL, counts as writable by
/// others; otherwise its DACL decides.
pub fn security_descriptor_has_untrusted_write_access<T>(owner: Option<&[u8]>, dacl: Option<&[Vec<u8>]>, is_trusted: &T) -> (r: bool)
    where
        T: Fn(&[u8]) -> bool,
    requires
        forall|q: &[u8]| call_requires(*is_trusted, (q,)),
    ensures
        (owner is None || dacl is None) ==> r,
        owner is Some && dacl is Some ==> exists|a: bool| judged(*is_trusted, owner->0@, a)
            && (!a ==> r)
            && (a && r ==> exists|i: int| 0 <= i < dacl->0@.len() && ace_untrusted(#[trigger] dacl->0@[i]@, *is_trusted))
            && (a && !r ==> forall|i: int| 0 <= i < dacl->0@.len() ==> ace_trusted(#[trigger] dacl->0@[i]@, *is_trusted)),
{
    let o = match owner {
        None => return true,
        Some(o) => o,
    };
    let d = match dacl {
        None => return true,
        Some(d) => d,
    };
    let ok = is_trusted(o);
    assert(judged(*is_trusted, o@, ok));
    if !ok {
        return true;
    }
    let r = dacl_has_untrusted_write_access(d, is_trusted);
    assert(ok && !r ==> forall|i: int| 0 <= i < d@.len() ==> ace_trusted(#[trigger] d@[i]@, *is_trusted));
    r
}

// ---------------------------------------------------------------------------
// The task itself

/// The task's file in the Task Scheduler store, `<Windows>\System32\Tasks\<name>`.
pub fn task_file_path(windows_dir: Option<String>) -> (r: String)
    ensures
        r@ == crate::paths::join_path(crate::paths::join_path(crate::paths::join_path(
            match windows_dir { Some(d) => d@, None => crate::paths::FALLBACK_WINDOWS_DIR@ }, "System32"@), "Tasks"@), TASK_NAME@),
{
    let system32 = crate::paths::windows_path(windows_dir, "System32");
    let tasks = crate::paths::join_dir(system32.as_str(), "Tasks");
    crate::paths::join_dir(tasks.as_str(), TASK_NAME)
}

/// What the registered task says: it is registered when its definition passes
/// `task_action`, `command_is_current_exe` accepts its program (the running, protected
/// executable), and its arguments are empty or the tray flag; it starts minimized with
/// the tray flag.
pub open spec fn autostart_state(action: Option<(Seq<char>, Seq<char>)>, command_ok: bool) -> (bool, bool) {
    match action {
        None => (false, false),
        Some((_, args)) => if !command_ok {
            (false, false)
        } else {
            let a = trim(args);
            if a.len() > 0 && a != MINIMIZED_FLAG@ { (false, false) } else { (true, a == MINIMIZED_FLAG@) }
        },
    }
}

pub open spec fn xml_args() -> Seq<Seq<char>> {
    seq!["/query"@, "/tn"@, TASK_NAME@, "/xml"@]
}

/// Whether the autostart task is registered as this app would register it, and whether
/// it starts minimized. `schtasks` prints the task's XML; `command_is_current_exe`
/// checks that a program path is the running executable in a protected location.
pub fn query_autostart<F, C>(schtasks: &F, command_is_current_exe: C) -> (r: (bool, bool))
    where
        F: Fn(Vec<String>) -> Result<CommandOutput, String>,
        C: FnOnce(String) -> bool,
    requires
        forall|args: Vec<String>| string_views(args@) == xml_args() ==> call_requires(*schtasks, (args,)),
        forall|p: String| call_requires(command_is_current_exe, (p,)),
    ensures
        exists|args: Vec<String>, out: Result<CommandOutput, String>|
            call_ensures(*schtasks, (args,), out) && string_views(args@) == xml_args() && (
                match out {
                    Ok(o) => if !o.success {
                        r == (false, false)
                    } else {
                        let action = crate::task_xml::task_action(utf8_lossy(o.stdout@));
                        match action {
                            None => r == (false, false),
                            Some((cmd, _)) => exists|p: String, ok: bool| p@ == cmd
                                && call_ensures(command_is_current_exe, (p,), ok)
                                && r == autostart_state(action, ok),
                        }
                    },
                    Err(_) => r == (false, false),
                }),
{
    let items: [&str; 4] = ["/query", "/tn", TASK_NAME, "/xml"];
    let args = string_list(&items);
    assert(str_views(items@) == xml_args());
    let out = schtasks(args);
    match &out {
        Err(_) => (false, false),
        Ok(o) => {
            if !o.success {
                return (false, false);
            }
            let text = decode_lossy(o.stdout.as_slice());
            let (command, arguments) = match crate::task_xml::parse_task_action(text.as_str()) {
                None => return (false, false),
                Some(x) => x,
            };
            let ok = command_is_current_exe(command);
            if !ok {
                return (false, false);
            }
            let a = trim_str(arguments.as_str());
            let ac = chars_of(a.as_str());
            let flag = chars_of(MINIMIZED_FLAG);
            let is_flag = crate::text::chars_eq(ac.as_slice(), flag.as_slice());
            if ac.len() > 0 && !is_flag {
                return (false, false);
            }
            (true, is_flag)
        },
    }
}

pub open spec fn delete_task_args() -> Seq<Seq<char>> {
    seq!["/delete"@, "/tn"@, TASK_NAME@, "/f"@]
}

/// What deleting the autostart task came to: the outcome of `schtasks /delete`, and after
/// a successful one, whether the task can still be queried or its file (`task_file_exists`)
/// is still there.
pub open spec fn removal_outcome<F: Fn(Vec<String>) -> Result<CommandOutput, String>, T: FnOnce() -> bool>(
    schtasks: F,
    task_file_exists: T,
    r: Result<(), Error>,
) -> bool {
    exists|args: Vec<String>, out: Result<CommandOutput, String>|
        call_ensures(schtasks, (args,), out) && string_views(args@) == delete_task_args() && match out {
            Err(m) => r matches Err(Error::SchtasksSpawn(x)) && x@ == m@,
            Ok(o) => if o.success {
                exists|qargs: Vec<String>, q: Result<CommandOutput, String>|
                    call_ensures(schtasks, (qargs,), q) && string_views(qargs@) == crate::shutdown::query_args(TASK_NAME@)
                    && match q {
                        Err(m) => r matches Err(Error::SchtasksSpawn(x)) && x@ == m@,
                        Ok(qo) => exists|file: bool| call_ensures(task_file_exists, (), file) && (
                            if !qo.success && !file {
                                r is Ok
                            } else {
                                r matches Err(Error::UnregisterFailed(x)) && x@ == "삭제 명령 성공 후에도 작업이 남아 있습니다."@
                            }),
                    }
            } else if says_task_missing(delete_detail(o)) {
                r matches Err(Error::TaskNotFound)
            } else {
                r matches Err(Error::UnregisterFailed(x)) && x@ == delete_detail(o)
            },
        }
}

/// Deletes the autostart task and confirms it is gone: it can no longer be queried and
/// its task file (`task_file_exists`) is absent. A refused deletion whose output says the
/// task is missing is "not found"; other refusals report the output.
pub fn delete_registered_task<F, T>(schtasks: &F, task_file_exists: T) -> (r: Result<(), Error>)
    where
        F: Fn(Vec<String>) -> Result<CommandOutput, String>,
        T: FnOnce() -> bool,
    requires
        forall|args: Vec<String>| string_views(args@) == delete_task_args() || string_views(args@) == crate::shutdown::query_args(TASK_NAME@)
            ==> call_requires(*schtasks, (args,)),
        call_requires(task_file_exists, ()),
    ensures
        removal_outcome(*schtasks, task_file_exists, r),
{
    let items: [&str; 4] = ["/delete", "/tn", TASK_NAME, "/f"];
    let args = string_list(&items);
    assert(str_views(items@) == delete_task_args());
    let out = schtasks(args);
    match &out {
        Err(m) => Err(Error::SchtasksSpawn(m.clone())),
        Ok(o) => {
            if o.success {
                let qitems: [&str; 3] = ["/query", "/tn", TASK_NAME];
                let qargs = string_list(&qitems);
                assert(str_views(qitems@) == crate::shutdown::query_args(TASK_NAME@));
                let q = schtasks(qargs);
                match &q {
                    Err(m) => Err(Error::SchtasksSpawn(m.clone())),
                    Ok(qo) => {
                        let file = task_file_exists();
                        if task_deletion_is_confirmed(qo.success, file) {
                            Ok(())
                        } else {
                            Err(Error::UnregisterFailed(owned("삭제 명령 성공 후에도 작업이 남아 있습니다.")))
                        }
                    },
                }
            } else {
                match crate::shutdown::delete_failure(o) {
                    crate::shutdown::Error::TaskNotFound => Err(Error::TaskNotFound),
                    crate::shutdown::Error::DeleteFailed(d) => Err(Error::UnregisterFailed(d)),
                    _ => Err(Error::UnregisterFailed(String::new())),
                }
            }
        },
    }
}

/// Removes the autostart task; it must exist first.
pub fn unregister_autostart<F, T>(schtasks: &F, task_file_exists: T) -> (r: Result<(), Error>)
    where
        F: Fn(Vec<String>) -> Result<CommandOutput, String>,
        T: FnOnce() -> bool,
    requires
        forall|args: Vec<String>| crate::shutdown::delete_gate(*schtasks, TASK_NAME@, args) ==> call_requires(*schtasks, (args,)),
        crate::shutdown::found_by_query(*schtasks, TASK_NAME@, true) ==> call_requires(task_file_exists, ()),
    ensures
        exists|found: bool| crate::shutdown::found_by_query(*schtasks, TASK_NAME@, found)
            && (!found ==> r matches Err(Error::TaskNotFound))
            && (found ==> removal_outcome(*schtasks, task_file_exists, r)),
{
    assert forall|args: Vec<String>| string_views(args@) == crate::shutdown::query_args(TASK_NAME@)
        implies call_requires(*schtasks, (args,)) by {
        assert(crate::shutdown::query_args(TASK_NAME@).len() != crate::shutdown::delete_args(TASK_NAME@).len());
        assert(crate::shutdown::delete_gate(*schtasks, TASK_NAME@, args));
    }
    let found = crate::shutdown::task_exists(schtasks, TASK_NAME);
    match require_existing_task(found) {
        Err(e) => Err(e),
        Ok(()) => {
            assert forall|args: Vec<String>| call_requires(*schtasks, (args,)) by {
                assert(crate::shutdown::delete_gate(*schtasks, TASK_NAME@, args));
            }
            delete_registered_task(schtasks, task_file_exists)
        },
    }
}

pub open spec fn create_task_args(tr: Seq<char>) -> Seq<Seq<char>> {
    seq!["/create"@, "/tn"@, TASK_NAME@, "/tr"@, tr, "/sc"@, "onlogon"@, "/rl"@, "HIGHEST"@, "/f"@]
}

/// Registering the task for the protected executable `exe`: a path with `"` is refused;
/// otherwise `schtasks /create` is run, a spawn failure or a failed command is reported,
/// and after success the registration read back with `query` decides: a match is `Ok`,
/// a mismatch removes the task again and reports the failure (with the removal's error).
pub open spec fn registration_outcome<F, Q, T>(with_tray: bool, exe: Seq<char>, schtasks: F, query: Q, task_file_exists: T, r: Result<(), Error>) -> bool
    where
        F: Fn(Vec<String>) -> Result<CommandOutput, String>,
        Q: FnOnce() -> (bool, bool),
        T: FnOnce() -> bool,
{
    &&& exe.contains('"') ==> (r matches Err(Error::QuoteInPath))
    &&& !exe.contains('"') ==> exists|args: Vec<String>, out: Result<CommandOutput, String>|
        call_ensures(schtasks, (args,), out) && string_views(args@) == create_task_args(tr_value(exe, with_tray))
        && match out {
            Err(m) => r matches Err(Error::SchtasksSpawn(x)) && x@ == m@,
            Ok(o) => if o.success {
                exists|state: (bool, bool)| call_ensures(query, (), state)
                    && (state.0 && state.1 == with_tray ==> r is Ok)
                    && (!(state.0 && state.1 == with_tray) ==> exists|c: Result<(), Error>|
                        removal_outcome(schtasks, task_file_exists, c)
                        && (r matches Err(Error::RegisterFailed(m)) && m@ == rollback_text(c)))
            } else {
                r matches Err(Error::RegisterFailed(x)) && x@ == delete_detail(o)
            },
        }
}

/// The executable was found, its location is protected (the check can answer `Ok`) and
/// its path holds no `"`: only then is anything registered.
pub open spec fn registration_allowed<W: Fn(&str) -> Result<bool, Error>>(
    exe: Result<String, Error>,
    location: Result<(String, String), Error>,
    untrusted_write: W,
) -> bool {
    &&& exe is Ok && !exe->Ok_0@.contains('"')
    &&& location is Ok
    &&& exists|v: Result<(), Error>| protection_outcome(untrusted_write, location->Ok_0.0@, location->Ok_0.1@, v) && v is Ok
}

/// Registers the autostart task for the running executable `exe`. `location` holds the
/// canonical executable and the canonical Program Files directory (or the error of
/// finding them); the executable must be protected there (`validate_protected_path`,
/// with `untrusted_write` reading each directory's ACL) before anything is registered.
/// The task runs at logon with the highest privileges, with the tray flag when
/// `with_tray`. After `schtasks` succeeds the registration is read back with `query` and
/// removed again when it does not match.
pub fn register_autostart<W, F, Q, T>(
    with_tray: bool,
    exe: Result<String, Error>,
    location: Result<(String, String), Error>,
    untrusted_write: &W,
    schtasks: &F,
    query: Q,
    task_file_exists: T,
) -> (r: Result<(), Error>)
    where
        W: Fn(&str) -> Result<bool, Error>,
        F: Fn(Vec<String>) -> Result<CommandOutput, String>,
        Q: FnOnce() -> (bool, bool),
        T: FnOnce() -> bool,
    requires
        forall|p: &str| call_requires(*untrusted_write, (p,)),
        forall|args: Vec<String>| registration_allowed(exe, location, *untrusted_write) ==> call_requires(*schtasks, (args,)),
        registration_allowed(exe, location, *untrusted_write) ==> call_requires(query, ()),
        registration_allowed(exe, location, *untrusted_write) ==> call_requires(task_file_exists, ()),
    ensures
        exe is Err ==> r == Err::<(), Error>(exe->Err_0),
        exe is Ok && location is Err ==> r == Err::<(), Error>(location->Err_0),
        exe is Ok && location is Ok ==> exists|v: Result<(), Error>|
            #[trigger] protection_outcome(*untrusted_write, location->Ok_0.0@, location->Ok_0.1@, v)
            && (v is Err ==> r == v)
            && (v is Ok ==> registration_outcome(with_tray, exe->Ok_0@, *schtasks, query, task_file_exists, r)),
{
    let exe = match exe {
        Err(e) => return Err(e),
        Ok(p) => p,
    };
    let (canonical_exe, root) = match location {
        Err(e) => return Err(e),
        Ok(l) => l,
    };
    let v = validate_protected_path(canonical_exe.as_str(), root.as_str(), untrusted_write);
    if v.is_err() {
        return v;
    }
    let tr = match build_tr_value_for_exe(exe.as_str(), with_tray, &[]) {
        Err(e) => return Err(e),
        Ok(t) => t,
    };
    let items: [&str; 10] = ["/create", "/tn", TASK_NAME, "/tr", tr.as_str(), "/sc", "onlogon", "/rl", "HIGHEST", "/f"];
    let args = string_list(&items);
    assert(str_views(items@) == create_task_args(tr_value(exe@, with_tray)));
    let out = schtasks(args);
    match &out {
        Err(m) => Err(Error::SchtasksSpawn(m.clone())),
        Ok(o) => {
            if o.success {
                let (registered, minimized) = query();
                if registration_matches(registered, minimized, with_tray) {
                    return Ok(());
                }
                let c = delete_registered_task(schtasks, task_file_exists);
                match c {
                    Ok(()) => Err(Error::RegisterFailed(owned("작업 등록 확인 실패."))),
                    Err(Error::TaskNotFound) => Err(Error::RegisterFailed(owned("작업 등록 확인 실패."))),
                    Err(e) => {
                        let mut m = owned("작업 등록 확인 실패 후 잘못된 작업 정리에도 실패했습니다: ");
                        let t = e.message();
                        push_str(&mut m, t.as_str());
                        Err(Error::RegisterFailed(m))
                    },
                }
            } else {
                let d = decode_lossy(o.stdout.as_slice());
                let e = decode_lossy(o.stderr.as_slice());
                let mut detail = trim_str(d.as_str());
                let et = trim_str(e.as_str());
                push_str(&mut detail, et.as_str());
                Err(Error::RegisterFailed(detail))
            }
        },
    }
}

} // verus!
