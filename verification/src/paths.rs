use vstd::prelude::*;
use crate::system_info::utf16_lossy;
use crate::text::{ascii_lower_seq, chars_eq, chars_of, chars_starts_with, lower_chars, owned, push_str, starts_with};

verus! {

/// Where Windows lives when the system cannot say.
pub const FALLBACK_SYSTEM_DIR: &'static str = "C:\\Windows\\System32";
pub const FALLBACK_WINDOWS_DIR: &'static str = "C:\\Windows";

/// The directory a `GetSystemDirectoryW`-style call wrote: `len` units of `buf`; nothing
/// when the call failed (0) or the buffer was too small (`len` not below its size).
pub open spec fn api_dir(len: u32, buf: Seq<u16>) -> Option<Seq<char>> {
    if len == 0 || len >= buf.len() { None } else { Some(utf16_lossy(buf.take(len as int))) }
}

pub fn path_from_windows_dir_api(len: u32, buf: &[u16]) -> (r: Option<String>)
    ensures
        match (r, api_dir(len, buf@)) {
            (Some(x), Some(y)) => x@ == y,
            (None, None) => true,
            _ => false,
        },
{
    if len == 0 || len as usize >= buf.len() {
        return None;
    }
    let part = &buf[0..len as usize];
    assert(part@ == buf@.take(len as int));
    Some(crate::system_info::decode_utf16(part))
}

pub open spec fn is_separator(c: char) -> bool {
    c == '\\' || c == '/'
}

/// `Path::join` on Windows for a relative name: a separator is added unless the
/// directory already ends with one.
pub open spec fn join_path(dir: Seq<char>, name: Seq<char>) -> Seq<char> {
    if dir.len() == 0 || is_separator(dir.last()) { dir + name } else { dir + "\\"@ + name }
}

pub fn join_dir(dir: &str, name: &str) -> (r: String)
    ensures
        r@ == join_path(dir@, name@),
{
    let d = chars_of(dir);
    let mut s = owned(dir);
    if d.len() == 0 || d[d.len() - 1] == '\\' || d[d.len() - 1] == '/' {
        push_str(&mut s, name);
    } else {
        push_str(&mut s, "\\");
        push_str(&mut s, name);
        assert(s@ == dir@ + "\\"@ + name@);
    }
    s
}

/// The absolute path of `name` in the system directory that Windows reported (`dir`),
/// or in `C:\Windows\System32` when it could not. Used so that system tools are never
/// looked up through `PATH`.
pub fn system32_path(dir: Option<String>, name: &str) -> (r: String)
    ensures
        r@ == join_path(match dir { Some(d) => d@, None => FALLBACK_SYSTEM_DIR@ }, name@),
{
    match dir {
        Some(d) => join_dir(d.as_str(), name),
        None => join_dir(FALLBACK_SYSTEM_DIR, name),
    }
}

/// The absolute path of `name` in the Windows directory (`C:\Windows` when unknown).
pub fn windows_path(dir: Option<String>, name: &str) -> (r: String)
    ensures
        r@ == join_path(match dir { Some(d) => d@, None => FALLBACK_WINDOWS_DIR@ }, name@),
{
    match dir {
        Some(d) => join_dir(d.as_str(), name),
        None => join_dir(FALLBACK_WINDOWS_DIR, name),
    }
}

// ---------------------------------------------------------------------------
// User-writable locations

/// The values of `USERPROFILE`, `APPDATA`, `LOCALAPPDATA`, `TEMP` and `TMP`, in that
/// order, that are set and not empty.
pub open spec fn nonempty_values(values: Seq<Option<String>>) -> Seq<Seq<char>>
    decreases values.len(),
{
    if values.len() == 0 {
        Seq::empty()
    } else {
        let p = nonempty_values(values.drop_last());
        match values.last() {
            Some(v) => if v@.len() > 0 { p.push(v@) } else { p },
            None => p,
        }
    }
}

pub fn high_risk_user_writable_roots(values: Vec<Option<String>>) -> (r: Vec<String>)
    ensures
        crate::cmd::string_views(r@) == nonempty_values(values@),
{
    let mut r: Vec<String> = Vec::new();
    let ghost all = values@;
    let total = values.len();
    let mut rest = values;
    let mut i: usize = 0;
    while rest.len() > 0
        invariant
            i <= all.len(),
            rest@ == all.skip(i as int),
            rest@.len() + i == all.len(),
            total == all.len(),
            crate::cmd::string_views(r@) == nonempty_values(all.take(i as int)),
        decreases rest.len(),
    {
        assert(all.take(i as int + 1).drop_last() == all.take(i as int));
        let v = rest.remove(0);
        assert(v == all[i as int]);
        assert(all.skip(i as int).drop_first() == all.skip(i as int + 1));
        match v {
            Some(s) => {
                if !s.as_str().is_empty() {
                    r.push(s);
                }
            },
            None => {},
        }
        i = i + 1;
    }
    assert(all.take(i as int) == all);
    r
}

/// `/` made `\`.
pub open spec fn backslashed(s: Seq<char>) -> Seq<char> {
    s.map_values(|c: char| if c == '/' { '\\' } else { c })
}

/// Trailing `\` removed (`trim_end_matches('\\')`).
pub open spec fn trim_backslashes(s: Seq<char>) -> Seq<char>
    decreases s.len(),
{
    if s.len() > 0 && s.last() == '\\' { trim_backslashes(s.drop_last()) } else { s }
}

/// A path made comparable: `\` separators, no trailing separator, ASCII lower case.
pub open spec fn normalized_path(s: Seq<char>) -> Seq<char> {
    ascii_lower_seq(trim_backslashes(backslashed(s)))
}

pub fn normalize_path_for_prefix(path: &str) -> (r: Vec<char>)
    ensures
        r@ == normalized_path(path@),
{
    let c = chars_of(path);
    let mut b: Vec<char> = Vec::new();
    let mut i: usize = 0;
    while i < c.len()
        invariant
            i <= c.len(),
            b@ == backslashed(c@.take(i as int)),
        decreases c.len() - i,
    {
        let ch = if c[i] == '/' { '\\' } else { c[i] };
        b.push(ch);
        assert(backslashed(c@.take(i as int + 1)) == backslashed(c@.take(i as int)).push(ch));
        i = i + 1;
    }
    assert(c@.take(c@.len() as int) == c@);
    while b.len() > 0 && b[b.len() - 1] == '\\'
        invariant
            trim_backslashes(b@) == trim_backslashes(backslashed(path@)),
        decreases b.len(),
    {
        b.pop();
    }
    lower_chars(b.as_slice())
}

/// `path` is `root` or lies below it, comparing normalized paths; an empty root matches
/// nothing.
pub open spec fn same_or_child(path: Seq<char>, root: Seq<char>) -> bool {
    let p = normalized_path(path);
    let r = normalized_path(root);
    r.len() > 0 && (p == r || starts_with(p, r + "\\"@))
}

pub fn path_is_same_or_child(path: &str, root: &str) -> (r: bool)
    ensures
        r == same_or_child(path@, root@),
{
    let p = normalize_path_for_prefix(path);
    let mut rt = normalize_path_for_prefix(root);
    if rt.len() == 0 {
        return false;
    }
    if chars_eq(p.as_slice(), rt.as_slice()) {
        return true;
    }
    rt.push('\\');
    proof {
        reveal_strlit("\\");
    }
    assert(rt@ == normalized_path(root@) + "\\"@);
    chars_starts_with(p.as_slice(), rt.as_slice())
}

/// `path` is one of `roots` or lies below one.
pub open spec fn under_any_root(path: Seq<char>, roots: Seq<String>) -> bool {
    exists|i: int| 0 <= i < roots.len() && same_or_child(path, #[trigger] roots[i]@)
}

pub fn is_high_risk_user_writable_path(path: &str, roots: &[String]) -> (r: bool)
    ensures
        r == under_any_root(path@, roots@),
{
    let mut i: usize = 0;
    while i < roots.len()
        invariant
            i <= roots.len(),
            forall|k: int| 0 <= k < i ==> !same_or_child(path@, #[trigger] roots@[k]@),
        decreases roots.len() - i,
    {
        if path_is_same_or_child(path, roots[i].as_str()) {
            return true;
        }
        i = i + 1;
    }
    false
}

/// The index of the last separator before position `i`, or -1.
pub open spec fn last_separator(p: Seq<char>, i: int) -> int
    decreases i,
{
    if i <= 0 { -1 } else if is_separator(p[i - 1]) { i - 1 } else { last_separator(p, i - 1) }
}

/// The directory that holds `p`: the text before its last separator, when there is one
/// after the first character.
pub open spec fn parent_path(p: Seq<char>) -> Option<Seq<char>> {
    let j = last_separator(p, p.len() as int);
    if j > 0 { Some(p.take(j)) } else { None }
}

/// The paths from `p` upwards, one directory at a time, ending at the one that names
/// `root` or at one without a parent.
pub open spec fn climb(p: Seq<char>, root: Seq<char>) -> Seq<Seq<char>>
    decreases p.len(),
{
    let j = last_separator(p, p.len() as int);
    if normalized_path(p) == normalized_path(root) || !(0 < j < p.len()) {
        seq![p]
    } else {
        seq![p] + climb(p.take(j), root)
    }
}

pub proof fn lemma_last_separator_bounds(p: Seq<char>, i: int)
    requires
        0 <= i <= p.len(),
    ensures
        -1 <= last_separator(p, i) < i,
        last_separator(p, i) >= 0 ==> is_separator(p[last_separator(p, i)]),
    decreases i,
{
    if i > 0 && !is_separator(p[i - 1]) {
        lemma_last_separator_bounds(p, i - 1);
    }
}

/// The index of the last separator in `p`, if any.
pub fn last_separator_index(p: &[char]) -> (r: Option<usize>)
    ensures
        match r {
            Some(k) => k as int == last_separator(p@, p@.len() as int),
            None => last_separator(p@, p@.len() as int) == -1,
        },
{
    let mut i: usize = p.len();
    while i > 0
        invariant
            i <= p.len(),
            last_separator(p@, i as int) == last_separator(p@, p@.len() as int),
        decreases i,
    {
        if p[i - 1] == '\\' || p[i - 1] == '/' {
            assert(is_separator(p@[i - 1]));
            return Some(i - 1);
        }
        i = i - 1;
    }
    None
}

} // verus!
