use vstd::prelude::*;
use crate::cmd::{decode_lossy, string_views, utf8_lossy, CommandOutput};
use crate::text::{
    chars_of, find_chars_from, find_from, owned, slice_to_vec, split_char, split_chars, string_of,
    trim, trim_chars, trim_str,
};

verus! {

/// The PC's processor name and the names of its hardware graphics adapters.
#[derive(Debug, Clone)]
pub struct SystemInfo {
    pub cpu_name: String,
    /// Distinct adapter names, in the order the adapters were listed.
    pub gpu_names: Vec<String>,
}

/// A display adapter as DXGI describes it.
#[derive(Debug, Clone)]
pub struct AdapterDesc {
    /// `DXGI_ADAPTER_FLAG_SOFTWARE` is set (a software rasterizer).
    pub software: bool,
    /// The UTF-16 `Description` buffer.
    pub description: Vec<u16>,
}

// ---------------------------------------------------------------------------
// The processor name from `reg query`

/// The value after `REG_SZ` on line `l`, trimmed, when there is one and it is not empty.
pub open spec fn reg_sz_on_line(l: Seq<char>) -> Option<Seq<char>> {
    match find_from(l, "REG_SZ"@, 0) {
        Some(k) => {
            let v = trim(l.skip(k + 6));
            if v.len() > 0 { Some(v) } else { None }
        },
        None => None,
    }
}

/// The first value found on lines `i..` of `lines`.
pub open spec fn first_reg_sz(lines: Seq<Seq<char>>, i: int) -> Option<Seq<char>>
    decreases lines.len() - i,
{
    if i < 0 || i >= lines.len() {
        None
    } else {
        match reg_sz_on_line(lines[i]) {
            Some(v) => Some(v),
            None => first_reg_sz(lines, i + 1),
        }
    }
}

/// The value of the first line of `reg query` output that holds a non-empty `REG_SZ`
/// value. Lines are split at `\n`; a `\r` before it is removed with the trimming.
pub open spec fn reg_sz_value(text: Seq<char>) -> Option<Seq<char>> {
    first_reg_sz(split_char(text, '\n'), 0)
}

fn reg_sz_on_line_exec(l: &[char]) -> (r: Option<Vec<char>>)
    ensures
        match (r, reg_sz_on_line(l@)) {
            (Some(x), Some(y)) => x@ == y,
            (None, None) => true,
            _ => false,
        },
{
    let n = l.len();
    let key = chars_of("REG_SZ");
    proof {
        reveal_strlit("REG_SZ");
    }
    assert(key@.len() == 6);
    match find_chars_from(l, key.as_slice(), 0) {
        Some(k) => {
            proof {
                crate::text::lemma_find_from_bounds(l@, key@, 0);
                assert(crate::text::matches_at(l@, key@, k as int));
                assert(k + 6 <= n);
            }
            let rest = slice_to_vec(l, k + 6, l.len());
            assert(rest@ == l@.skip(k + 6));
            let v = trim_chars(rest.as_slice());
            if v.len() > 0 { Some(v) } else { None }
        },
        None => None,
    }
}

pub fn parse_reg_sz_value(text: &str) -> (r: Option<String>)
    ensures
        match (r, reg_sz_value(text@)) {
            (Some(x), Some(y)) => x@ == y,
            (None, None) => true,
            _ => false,
        },
{
    let c = chars_of(text);
    let lines = split_chars(c.as_slice(), '\n');
    let mut i: usize = 0;
    while i < lines.len()
        invariant
            i <= lines@.len(),
            lines@.len() == split_char(text@, '\n').len(),
            forall|k: int| 0 <= k < lines@.len() ==> #[trigger] lines@[k]@ == split_char(text@, '\n')[k],
            reg_sz_value(text@) == first_reg_sz(split_char(text@, '\n'), i as int),
        decreases lines.len() - i,
    {
        assert(lines@[i as int]@ == split_char(text@, '\n')[i as int]);
        match reg_sz_on_line_exec(lines[i].as_slice()) {
            Some(v) => return Some(string_of(v.as_slice())),
            None => {},
        }
        i = i + 1;
    }
    None
}

pub open spec fn cpu_query_args() -> Seq<Seq<char>> {
    seq!["query"@, "HKLM\\HARDWARE\\DESCRIPTION\\System\\CentralProcessor\\0"@, "/v"@, "ProcessorNameString"@]
}

/// The processor name as the registry reports it, if the query succeeded and printed one.
pub open spec fn cpu_name_from(out: Result<CommandOutput, String>) -> Option<Seq<char>> {
    match out {
        Ok(o) => if o.success { reg_sz_value(utf8_lossy(o.stdout@)) } else { None },
        Err(_) => None,
    }
}

// ---------------------------------------------------------------------------
// Adapter names

/// The text `String::from_utf16_lossy` makes of `units`.
pub uninterp spec fn utf16_lossy(units: Seq<u16>) -> Seq<char>;

/// Calls `String::from_utf16_lossy`, which decodes UTF-16 and puts U+FFFD in place of each
/// unpaired surrogate. The result is named, not described.
#[verifier::external_body]
pub(crate) fn decode_utf16(units: &[u16]) -> (r: String)
    ensures
        r@ == utf16_lossy(units@),
{
    String::from_utf16_lossy(units)
}

/// The index of the first 0 unit, or the length.
pub open spec fn nul_index(buf: Seq<u16>, i: int) -> int
    decreases buf.len() - i,
{
    if 0 <= i < buf.len() && buf[i] != 0 { nul_index(buf, i + 1) } else { i }
}

/// An adapter description: the units before the first NUL (all of them without one),
/// decoded and trimmed.
pub open spec fn description_text(buf: Seq<u16>) -> Seq<char> {
    trim(utf16_lossy(buf.take(nul_index(buf, 0))))
}

pub fn decode_description(buf: &[u16]) -> (r: String)
    ensures
        r@ == description_text(buf@),
{
    let mut end: usize = 0;
    while end < buf.len() && buf[end] != 0
        invariant
            end <= buf.len(),
            nul_index(buf@, 0) == nul_index(buf@, end as int),
        decreases buf.len() - end,
    {
        end = end + 1;
    }
    let raw = decode_utf16(&buf[0..end]);
    assert(buf@.subrange(0, end as int) == buf@.take(end as int));
    trim_str(raw.as_str())
}

/// The names of the hardware adapters among `adapters[..n]`: non-empty descriptions,
/// each name once, in the order of first appearance.
pub open spec fn gpu_names_among(adapters: Seq<AdapterDesc>, n: int) -> Seq<Seq<char>>
    decreases n,
{
    if n <= 0 {
        Seq::empty()
    } else {
        let p = gpu_names_among(adapters, n - 1);
        let a = adapters[n - 1];
        let name = description_text(a.description@);
        if !a.software && name.len() > 0 && !p.contains(name) { p.push(name) } else { p }
    }
}

fn names_contain(names: &Vec<String>, name: &String) -> (r: bool)
    ensures
        r == string_views(names@).contains(name@),
{
    let mut i: usize = 0;
    while i < names.len()
        invariant
            i <= names@.len(),
            forall|k: int| 0 <= k < i ==> names@[k]@ != name@,
        decreases names.len() - i,
    {
        if crate::text::str_eq(names[i].as_str(), name.as_str()) {
            assert(string_views(names@)[i as int] == name@);
            return true;
        }
        i = i + 1;
    }
    assert forall|k: int| 0 <= k < string_views(names@).len() implies string_views(names@)[k] != name@ by {
        assert(string_views(names@)[k] == names@[k]@);
    }
    false
}

pub fn adapter_names(adapters: &[AdapterDesc]) -> (r: Vec<String>)
    ensures
        string_views(r@) == gpu_names_among(adapters@, adapters@.len() as int),
{
    let mut names: Vec<String> = Vec::new();
    let mut i: usize = 0;
    while i < adapters.len()
        invariant
            i <= adapters@.len(),
            string_views(names@) == gpu_names_among(adapters@, i as int),
        decreases adapters.len() - i,
    {
        let a = &adapters[i];
        if !a.software {
            let name = decode_description(a.description.as_slice());
            if !name.as_str().is_empty() && !names_contain(&names, &name) {
                names.push(name);
            }
        }
        i = i + 1;
    }
    names
}

/// The processor and adapter names: the registry's `ProcessorNameString` (read with
/// `reg`, which runs the system's `reg.exe` with the given arguments; `Unknown CPU` when
/// that fails) and the names of the hardware adapters in `adapters`.
pub fn fetch_system_info<F>(reg: &F, adapters: &[AdapterDesc]) -> (r: SystemInfo)
    where
        F: Fn(Vec<String>) -> Result<CommandOutput, String>,
    requires
        forall|args: Vec<String>| string_views(args@) == cpu_query_args() ==> call_requires(*reg, (args,)),
    ensures
        exists|args: Vec<String>, out: Result<CommandOutput, String>|
            call_ensures(*reg, (args,), out) && string_views(args@) == cpu_query_args()
            && r.cpu_name@ == (match cpu_name_from(out) {
                Some(n) => n,
                None => "Unknown CPU"@,
            }),
        string_views(r.gpu_names@) == gpu_names_among(adapters@, adapters@.len() as int),
{
    let mut args: Vec<String> = Vec::new();
    args.push(owned("query"));
    args.push(owned("HKLM\\HARDWARE\\DESCRIPTION\\System\\CentralProcessor\\0"));
    args.push(owned("/v"));
    args.push(owned("ProcessorNameString"));
    assert(string_views(args@) == cpu_query_args());
    let out = reg(args);
    let name = match &out {
        Ok(o) => if o.success {
            let text = decode_lossy(o.stdout.as_slice());
            parse_reg_sz_value(text.as_str())
        } else {
            None
        },
        Err(_) => None,
    };
    let cpu_name = match name {
        Some(n) => n,
        None => owned("Unknown CPU"),
    };
    SystemInfo { cpu_name, gpu_names: adapter_names(adapters) }
}

} // verus!
