use vstd::prelude::*;
use crate::system_info::utf16_lossy;
use crate::text::{all_digits, chars_of, matches_at, parse_u32, parse_u32_spec, slice_to_vec, string_of};

verus! {

/// The first index at or after `i` where `c` occurs (or the length).
pub open spec fn char_index(s: Seq<char>, c: char, i: int) -> int
    decreases s.len() - i,
{
    if 0 <= i < s.len() && s[i] != c { char_index(s, c, i + 1) } else { i }
}

/// A processor counter instance `group,cpu` of two decimal numbers (not `_Total` or
/// `0,_total`).
pub open spec fn instance_key(name: Seq<char>) -> Option<(u32, u32)> {
    let k = char_index(name, ',', 0);
    if k >= name.len() {
        None
    } else {
        let g = name.take(k);
        let c = name.skip(k + 1);
        if g.len() == 0 || c.len() == 0 || !all_digits(g) || !all_digits(c) {
            None
        } else {
            match (parse_u32_spec(g), parse_u32_spec(c)) {
                (Some(a), Some(b)) => Some((a, b)),
                _ => None,
            }
        }
    }
}

fn all_digit_chars(s: &[char]) -> (r: bool)
    ensures
        r == all_digits(s@),
{
    let mut i: usize = 0;
    while i < s.len()
        invariant
            i <= s.len(),
            forall|k: int| 0 <= k < i ==> crate::text::is_digit(#[trigger] s@[k]),
        decreases s.len() - i,
    {
        if !('0' <= s[i] && s[i] <= '9') {
            return false;
        }
        i = i + 1;
    }
    true
}

pub fn parse_instance(name: &str) -> (r: Option<(u32, u32)>)
    ensures
        r == instance_key(name@),
{
    let c = chars_of(name);
    let mut k: usize = 0;
    while k < c.len() && c[k] != ','
        invariant
            k <= c.len(),
            char_index(c@, ',', 0) == char_index(c@, ',', k as int),
        decreases c.len() - k,
    {
        k = k + 1;
    }
    if k >= c.len() {
        return None;
    }
    let g = slice_to_vec(c.as_slice(), 0, k);
    let cpu = slice_to_vec(c.as_slice(), k + 1, c.len());
    assert(g@ == c@.take(k as int));
    assert(cpu@ == c@.skip(k + 1));
    if g.len() == 0 || cpu.len() == 0 || !all_digit_chars(g.as_slice()) || !all_digit_chars(cpu.as_slice()) {
        return None;
    }
    match (parse_u32(g.as_slice()), parse_u32(cpu.as_slice())) {
        (Some(a), Some(b)) => Some((a, b)),
        _ => None,
    }
}

/// The index of the first 0 unit at or after `i` (or the length).
pub open spec fn zero_index(b: Seq<u16>, i: int) -> int
    decreases b.len() - i,
{
    if 0 <= i < b.len() && b[i] != 0 { zero_index(b, i + 1) } else { i }
}

/// The strings of a double-NUL-terminated list from `i`: the non-empty runs between
/// 0 units, up to the first empty one.
pub open spec fn multi_sz_from(b: Seq<u16>, i: int) -> Seq<Seq<u16>>
    decreases b.len() - i,
{
    if i < 0 || i > b.len() {
        Seq::empty()
    } else {
        let j = zero_index(b, i);
        if j <= i || j > b.len() {
            Seq::empty()
        } else if j < b.len() {
            seq![b.subrange(i, j)] + multi_sz_from(b, j + 1)
        } else {
            seq![b.subrange(i, j)]
        }
    }
}

pub open spec fn decoded_parts(parts: Seq<Seq<u16>>) -> Seq<Seq<char>> {
    parts.map_values(|p: Seq<u16>| utf16_lossy(p))
}

/// The strings of a `PdhExpandWildCardPathW` buffer.
pub fn split_multi_sz(buffer: &[u16]) -> (r: Vec<String>)
    ensures
        crate::cmd::string_views(r@) == decoded_parts(multi_sz_from(buffer@, 0)),
{
    let mut r: Vec<String> = Vec::new();
    let mut i: usize = 0;
    let ghost mut done: Seq<Seq<u16>> = Seq::empty();
    loop
        invariant
            i <= buffer.len(),
            crate::cmd::string_views(r@) == decoded_parts(done),
            multi_sz_from(buffer@, 0) == done + multi_sz_from(buffer@, i as int),
        decreases buffer.len() - i,
    {
        let mut j: usize = i;
        while j < buffer.len() && buffer[j] != 0
            invariant
                i <= j <= buffer.len(),
                zero_index(buffer@, i as int) == zero_index(buffer@, j as int),
            decreases buffer.len() - j,
        {
            j = j + 1;
        }
        if j == i {
            assert(multi_sz_from(buffer@, i as int) == Seq::<Seq<u16>>::empty());
            assert(done + Seq::<Seq<u16>>::empty() == done);
            return r;
        }
        let part = &buffer[i..j];
        let text = crate::system_info::decode_utf16(part);
        proof {
            let p = buffer@.subrange(i as int, j as int);
            assert(part@ == p);
            assert(decoded_parts(done.push(p)) == decoded_parts(done).push(utf16_lossy(p)));
            if j < buffer.len() {
                assert(multi_sz_from(buffer@, i as int) == seq![p] + multi_sz_from(buffer@, j + 1));
                assert(done + (seq![p] + multi_sz_from(buffer@, j + 1)) == done.push(p) + multi_sz_from(buffer@, j + 1));
            } else {
                assert(multi_sz_from(buffer@, i as int) == seq![p]);
                assert(done + seq![p] == done.push(p));
            }
            done = done.push(p);
        }
        r.push(text);
        if j >= buffer.len() {
            assert(done + Seq::<Seq<u16>>::empty() == done);
            return r;
        }
        i = j + 1;
    }
}

/// The last index `k <= j` where `p` occurs in `s` (`str::rfind`).
pub open spec fn rfind_at(s: Seq<char>, p: Seq<char>, j: int) -> Option<int>
    decreases j + 1,
{
    if j < 0 {
        None
    } else if matches_at(s, p, j) {
        Some(j)
    } else {
        rfind_at(s, p, j - 1)
    }
}

/// The instance of a counter path: the text between the last `(` before the last `)\`
/// and that `)\`.
pub open spec fn counter_instance_of(path: Seq<char>) -> Option<Seq<char>> {
    match rfind_at(path, seq![')', '\\'], path.len() - 2) {
        None => None,
        Some(end) => match rfind_at(path.take(end), seq!['('], end - 1) {
            None => None,
            Some(start) => if 0 <= start && start + 1 <= end <= path.len() { Some(path.subrange(start + 1, end)) } else { None },
        },
    }
}

proof fn lemma_rfind_bounds(s: Seq<char>, p: Seq<char>, j: int)
    ensures
        rfind_at(s, p, j) matches Some(k) ==> 0 <= k <= j && matches_at(s, p, k),
        rfind_at(s, p, j) is None ==> forall|k: int| 0 <= k <= j ==> !matches_at(s, p, k),
    decreases j + 1,
{
    if j >= 0 && !matches_at(s, p, j) {
        lemma_rfind_bounds(s, p, j - 1);
    }
}

fn rfind_chars(s: &[char], p: &[char], from: usize) -> (r: Option<usize>)
    requires
        from < s.len(),
    ensures
        match r {
            Some(k) => rfind_at(s@, p@, from as int) == Some(k as int),
            None => rfind_at(s@, p@, from as int) is None,
        },
{
    let mut j: usize = from + 1;
    while j > 0
        invariant
            j <= from + 1,
            rfind_at(s@, p@, from as int) == rfind_at(s@, p@, j - 1),
        decreases j,
    {
        if crate::text::chars_match_at(s, p, j - 1) {
            return Some(j - 1);
        }
        j = j - 1;
    }
    None
}

pub fn counter_instance(path: &str) -> (r: Option<String>)
    ensures
        match (r, counter_instance_of(path@)) {
            (Some(x), Some(y)) => x@ == y,
            (None, None) => true,
            _ => false,
        },
{
    let c = chars_of(path);
    if c.len() < 2 {
        proof {
            lemma_rfind_bounds(c@, seq![')', '\\'], c@.len() - 2);
        }
        return None;
    }
    let close: Vec<char> = vec![')', '\\'];
    assert(close@ == seq![')', '\\']);
    let end = match rfind_chars(c.as_slice(), close.as_slice(), c.len() - 2) {
        None => return None,
        Some(e) => e,
    };
    proof {
        lemma_rfind_bounds(c@, close@, c@.len() - 2);
    }
    let head = slice_to_vec(c.as_slice(), 0, end);
    assert(head@ == c@.take(end as int));
    let open: Vec<char> = vec!['('];
    assert(open@ == seq!['(']);
    if end == 0 {
        proof {
            lemma_rfind_bounds(head@, open@, -1);
        }
        return None;
    }
    let start = match rfind_chars(head.as_slice(), open.as_slice(), end - 1) {
        None => return None,
        Some(s) => s,
    };
    proof {
        lemma_rfind_bounds(head@, open@, end - 1);
    }
    Some(string_of(slice_to_vec(c.as_slice(), start + 1, end).as_slice()))
}

/// A `FILETIME` as one 64-bit count of 100 ns units.
pub fn filetime_to_u64(high: u32, low: u32) -> (r: u64)
    ensures
        r == high as u64 * 0x1_0000_0000 + low as u64,
{
    let r = ((high as u64) << 32u64) | (low as u64);
    assert(((high as u64) << 32u64) | (low as u64) == high as u64 * 0x1_0000_0000 + low as u64) by (bit_vector);
    r
}

/// Bytes as whole mebibytes.
pub fn bytes_to_mb(bytes: u64) -> (r: u64)
    ensures
        r == bytes / 1024 / 1024,
{
    bytes / 1024 / 1024
}

/// What the monitor remembers between samples of one process: the process, the time of
/// the last sample (milliseconds) and the counters it read, and the machine's totals.
#[derive(Debug, Clone, Copy)]
pub struct Monitor {
    pub bound_pid: Option<u32>,
    pub prev_instant_ms: Option<u64>,
    pub prev_cpu_total_100ns: Option<u64>,
    pub prev_io_read: Option<u64>,
    pub prev_io_write: Option<u64>,
    pub cores: u32,
    pub total_ram_mb: u64,
    pub total_vram_mb: u64,
}

impl Monitor {
    pub fn new(cores: u32, total_ram_mb: u64, total_vram_mb: u64) -> (r: Self)
        ensures
            r.bound_pid is None,
            r.prev_instant_ms is None,
            r.prev_cpu_total_100ns is None,
            r.prev_io_read is None,
            r.prev_io_write is None,
            r.cores == cores,
            r.total_ram_mb == total_ram_mb,
            r.total_vram_mb == total_vram_mb,
    {
        Monitor {
            bound_pid: None,
            prev_instant_ms: None,
            prev_cpu_total_100ns: None,
            prev_io_read: None,
            prev_io_write: None,
            cores,
            total_ram_mb,
            total_vram_mb,
        }
    }

    /// Follows `pid` (or nothing). A change of process forgets the previous samples;
    /// the result says whether it changed (the performance counters must then be opened
    /// again).
    pub fn rebind(&mut self, pid: Option<u32>) -> (r: bool)
        ensures
            r == (old(self).bound_pid != pid),
            r ==> *final(self) == (Monitor {
                bound_pid: pid,
                prev_instant_ms: None,
                prev_cpu_total_100ns: None,
                prev_io_read: None,
                prev_io_write: None,
                ..*old(self)
            }),
            !r ==> *final(self) == *old(self),
    {
        if self.bound_pid == pid {
            return false;
        }
        self.bound_pid = pid;
        self.prev_instant_ms = None;
        self.prev_cpu_total_100ns = None;
        self.prev_io_read = None;
        self.prev_io_write = None;
        true
    }
}

} // verus!
