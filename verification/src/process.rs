use vstd::prelude::*;
use crate::launcher::file_name;
use crate::schedule::OptimizeMode;
use crate::system_info::{nul_index, utf16_lossy};
use crate::text::{eq_ignore_ascii_case, owned, push_dec, push_str};

verus! {

/// `SetPriorityClass` values (Win32 `PROCESS_CREATION_FLAGS`) that the modes use.
pub const HIGH_PRIORITY_CLASS: u32 = 0x0000_0080;
pub const NORMAL_PRIORITY_CLASS: u32 = 0x0000_0020;
pub const IDLE_PRIORITY_CLASS: u32 = 0x0000_0040;

/// Processor topology as the affinity calculations see it.
#[derive(Debug, Clone, Copy)]
pub struct CpuInfo {
    pub physical_cores: u32,
    pub logical_threads: u32,
    /// P-core bitmask on hybrid Intel CPUs; 0 elsewhere.
    pub p_core_mask: usize,
    /// E-core bitmask on hybrid Intel CPUs; 0 elsewhere.
    pub e_core_mask: usize,
    /// More than one efficiency class was reported.
    pub has_hybrid: bool,
}

/// A 64-bit mask as the platform word that `SetProcessAffinityMask` takes.
pub open spec fn as_mask(m: u64) -> usize {
    m as usize
}

/// Bit `b` of `x` is set.
pub open spec fn bit(x: u64, b: u64) -> bool {
    (x >> b) & 1 == 1
}

pub open spec fn min_int(a: int, b: int) -> int {
    if a <= b { a } else { b }
}

proof fn lemma_bit_or_single(x: u64, k: u64, b: u64)
    requires
        k < 64,
        b < 64,
    ensures
        bit(x | (1u64 << k), b) == (bit(x, b) || b == k),
{
    assert(((x | (1u64 << k)) >> b) & 1 == 1 <==> (((x >> b) & 1 == 1) || b == k)) by (bit_vector)
        requires k < 64, b < 64;
}

proof fn lemma_bit_zero(b: u64)
    requires
        b < 64,
    ensures
        !bit(0, b),
{
    assert((0u64 >> b) & 1 != 1) by (bit_vector);
}

proof fn lemma_bit_low_mask(n: u64, b: u64)
    requires
        n < 64,
        b < 64,
    ensures
        bit(((1u64 << n) - 1) as u64, b) == (b < n),
{
    assert(((((1u64 << n) - 1) as u64) >> b) & 1 == 1 <==> b < n) by (bit_vector)
        requires n < 64, b < 64;
}

proof fn lemma_bit_all_ones(b: u64)
    requires
        b < 64,
    ensures
        bit(0xFFFF_FFFF_FFFF_FFFFu64, b),
{
    assert((0xFFFF_FFFF_FFFF_FFFFu64 >> b) & 1 == 1) by (bit_vector) requires b < 64;
}

/// The SMT width that the legacy high-performance layout assumes (at least 1).
pub open spec fn smt_width(info: CpuInfo) -> int {
    let w = info.logical_threads as int / info.physical_cores as int;
    if w >= 1 { w } else { 1 }
}

/// The bit used for physical core `i` when each core runs `smt` threads.
pub open spec fn core_bit(i: int, smt: int) -> int {
    min_int(i * smt, 63)
}

/// High-performance mode: the P-cores on a hybrid CPU; otherwise the first thread of
/// each physical core (at most 64 cores, bit positions clamped to 63).
pub open spec fn high_affinity_bit(info: CpuInfo, b: int) -> bool {
    exists|i: int| 0 <= i < min_int(info.physical_cores as int, 64) && #[trigger] core_bit(i, smt_width(info)) == b
}

/// `r` is the high-performance affinity of `info`.
pub open spec fn is_high_affinity(info: CpuInfo, r: usize) -> bool {
    &&& info.has_hybrid && info.p_core_mask != 0 ==> r == info.p_core_mask
    &&& !(info.has_hybrid && info.p_core_mask != 0) ==> exists|m: u64| r == #[trigger] as_mask(m)
        && forall|b: u64| b < 64 ==> (bit(m, b) <==> high_affinity_bit(info, b as int))
}

/// `r` is the normal-mode affinity of `info`.
pub open spec fn is_normal_affinity(info: CpuInfo, r: usize) -> bool {
    exists|m: u64| r == #[trigger] as_mask(m)
        && forall|b: u64| b < 64 ==> (bit(m, b) <==> (b as int) < min_int(info.logical_threads as int, 64))
}

/// `r` is the low-power affinity of `info`.
pub open spec fn is_low_power_affinity(info: CpuInfo, r: usize) -> bool {
    &&& info.has_hybrid && info.e_core_mask != 0 ==> r == info.e_core_mask
    &&& !(info.has_hybrid && info.e_core_mask != 0) ==> exists|m: u64| r == #[trigger] as_mask(m)
        && forall|b: u64| b < 64 ==> (bit(m, b) <==> low_power_bits(info, b as int))
}

pub fn calc_high_affinity(info: &CpuInfo) -> (r: usize)
    ensures
        info.has_hybrid && info.p_core_mask != 0 ==> r == info.p_core_mask,
        !(info.has_hybrid && info.p_core_mask != 0) ==> exists|m: u64| r == #[trigger] as_mask(m)
            && forall|b: u64| b < 64 ==> (bit(m, b) <==> high_affinity_bit(*info, b as int)),
{
    if info.has_hybrid && info.p_core_mask != 0 {
        return info.p_core_mask;
    }
    if info.physical_cores == 0 {
        assert forall|b: u64| b < 64 implies (bit(0u64, b) <==> high_affinity_bit(*info, b as int)) by {
            lemma_bit_zero(b);
        }
        assert(0usize == as_mask(0u64));
        return 0;
    }
    let phys: usize = if info.physical_cores as usize <= 64 { info.physical_cores as usize } else { 64 };
    let w: u32 = info.logical_threads / info.physical_cores;
    let smt: usize = if w >= 1 { w as usize } else { 1 };
    assert(smt == smt_width(*info));
    let mut mask: u64 = 0;
    let mut i: usize = 0;
    assert forall|b: u64| b < 64 implies (bit(mask, b) <==> exists|j: int| 0 <= j < i && #[trigger] core_bit(j, smt as int) == b) by {
        lemma_bit_zero(b);
    }
    while i < phys
        invariant
            phys == min_int(info.physical_cores as int, 64),
            smt == smt_width(*info),
            1 <= smt <= u32::MAX,
            i <= phys,
            info.physical_cores != 0,
            forall|b: u64| b < 64 ==> (bit(mask, b) <==> exists|j: int| 0 <= j < i && #[trigger] core_bit(j, smt as int) == b),
        decreases phys - i,
    {
        assert(i * smt <= 64 * 0xFFFF_FFFFu64) by (nonlinear_arith)
            requires i <= 64, smt <= 0xFFFF_FFFFu64;
        let prod: u64 = (i as u64) * (smt as u64);
        let k: u64 = if prod < 63 { prod } else { 63 };
        let old_mask = mask;
        mask = mask | (1u64 << k);
        assert forall|b: u64| b < 64 implies (bit(mask, b) <==> exists|j: int| 0 <= j < i + 1 && #[trigger] core_bit(j, smt as int) == b) by {
            lemma_bit_or_single(old_mask, k, b);
            if bit(mask, b) {
                if b == k {
                    assert(core_bit(i as int, smt as int) == b);
                }
            }
            if exists|j: int| 0 <= j < i + 1 && #[trigger] core_bit(j, smt as int) == b {
                let j = choose|j: int| 0 <= j < i + 1 && #[trigger] core_bit(j, smt as int) == b;
                if j < i {
                } else {
                    assert(j == i);
                }
            }
        }
        i = i + 1;
    }
    assert(forall|b: u64| b < 64 ==> (bit(mask, b) <==> high_affinity_bit(*info, b as int)));
    assert(mask as usize == as_mask(mask));
    mask as usize
}

/// Normal mode: every logical thread, at most 64.
pub fn calc_normal_affinity(info: &CpuInfo) -> (r: usize)
    ensures
        exists|m: u64| r == #[trigger] as_mask(m)
            && forall|b: u64| b < 64 ==> (bit(m, b) <==> (b as int) < min_int(info.logical_threads as int, 64)),
{
    let n: u64 = if info.logical_threads <= 64 { info.logical_threads as u64 } else { 64 };
    if n == 0 {
        assert forall|b: u64| b < 64 implies (bit(0u64, b) <==> (b as int) < min_int(info.logical_threads as int, 64)) by {
            lemma_bit_zero(b);
        }
        assert(0usize == as_mask(0u64));
        return 0;
    }
    if n >= 64 {
        assert forall|b: u64| b < 64 implies (bit(0xFFFF_FFFF_FFFF_FFFFu64, b) <==> (b as int) < min_int(info.logical_threads as int, 64)) by {
            lemma_bit_all_ones(b);
        }
        assert(0xFFFF_FFFF_FFFF_FFFFu64 as usize == as_mask(0xFFFF_FFFF_FFFF_FFFFu64));
        0xFFFF_FFFF_FFFF_FFFFu64 as usize
    } else {
        assert((1u64 << n) >= 1) by (bit_vector) requires n < 64;
        let r: u64 = (1u64 << n) - 1;
        assert forall|b: u64| b < 64 implies (bit(r, b) <==> (b as int) < min_int(info.logical_threads as int, 64)) by {
            lemma_bit_low_mask(n, b);
        }
        assert(r as usize == as_mask(r));
        r as usize
    }
}

/// Low-power mode: the E-cores on a hybrid CPU; otherwise the last one or two threads
/// (the last two when the CPU runs two or more threads per core), or bit 0 alone
/// below two threads.
pub open spec fn low_power_bits(info: CpuInfo, b: int) -> bool {
    let n = min_int(info.logical_threads as int, 64);
    let cores = if info.physical_cores >= 1 { info.physical_cores as int } else { 1 };
    if n < 2 {
        b == 0
    } else if info.logical_threads as int / cores >= 2 {
        b == n - 1 || b == n - 2
    } else {
        b == n - 1
    }
}

pub fn calc_low_power_affinity(info: &CpuInfo) -> (r: usize)
    ensures
        info.has_hybrid && info.e_core_mask != 0 ==> r == info.e_core_mask,
        !(info.has_hybrid && info.e_core_mask != 0) ==> exists|m: u64| r == #[trigger] as_mask(m)
            && forall|b: u64| b < 64 ==> (bit(m, b) <==> low_power_bits(*info, b as int)),
{
    if info.has_hybrid && info.e_core_mask != 0 {
        return info.e_core_mask;
    }
    let n: u64 = if info.logical_threads <= 64 { info.logical_threads as u64 } else { 64 };
    if n < 2 {
        assert forall|b: u64| b < 64 implies (bit(1u64, b) <==> low_power_bits(*info, b as int)) by {
            assert(((1u64 >> b) & 1 == 1) <==> b == 0) by (bit_vector) requires b < 64;
        }
        assert(1usize == as_mask(1u64));
        return 1;
    }
    let cores: u32 = if info.physical_cores >= 1 { info.physical_cores } else { 1 };
    let smt: u32 = info.logical_threads / cores;
    let top: u64 = n - 1;
    let r: u64 = if smt >= 2 {
        let two: u64 = (1u64 << (n - 2)) | (1u64 << top);
        assert forall|b: u64| b < 64 implies (bit(two, b) <==> (b == top || b == (n - 2) as u64)) by {
            let lo: u64 = (n - 2) as u64;
            assert(((((1u64 << lo) | (1u64 << top)) >> b) & 1 == 1) <==> (b == top || b == lo)) by (bit_vector)
                requires lo < 64, top < 64, b < 64;
        }
        two
    } else {
        let one: u64 = 1u64 << top;
        assert forall|b: u64| b < 64 implies (bit(one, b) <==> b == top) by {
            assert((((1u64 << top) >> b) & 1 == 1) <==> b == top) by (bit_vector)
                requires top < 64, b < 64;
        }
        one
    };
    assert(r as usize == as_mask(r));
    r as usize
}

/// The mode that a process priority class stands for.
pub open spec fn priority_mode(priority: u32) -> Option<OptimizeMode> {
    if priority == HIGH_PRIORITY_CLASS {
        Some(OptimizeMode::High)
    } else if priority == NORMAL_PRIORITY_CLASS {
        Some(OptimizeMode::Normal)
    } else if priority == IDLE_PRIORITY_CLASS {
        Some(OptimizeMode::LowPower)
    } else {
        None
    }
}

pub fn priority_class_to_mode(priority: u32) -> (r: Option<OptimizeMode>)
    ensures
        r == priority_mode(priority),
{
    if priority == HIGH_PRIORITY_CLASS {
        Some(OptimizeMode::High)
    } else if priority == NORMAL_PRIORITY_CLASS {
        Some(OptimizeMode::Normal)
    } else if priority == IDLE_PRIORITY_CLASS {
        Some(OptimizeMode::LowPower)
    } else {
        None
    }
}

/// The priority class that a mode applies.
pub open spec fn mode_priority(mode: OptimizeMode) -> u32 {
    match mode {
        OptimizeMode::High => HIGH_PRIORITY_CLASS,
        OptimizeMode::Normal => NORMAL_PRIORITY_CLASS,
        OptimizeMode::LowPower => IDLE_PRIORITY_CLASS,
    }
}

pub fn mode_priority_class(mode: OptimizeMode) -> (r: u32)
    ensures
        r == mode_priority(mode),
{
    match mode {
        OptimizeMode::High => HIGH_PRIORITY_CLASS,
        OptimizeMode::Normal => NORMAL_PRIORITY_CLASS,
        OptimizeMode::LowPower => IDLE_PRIORITY_CLASS,
    }
}

} // verus!

verus! {

/// Number of set bits (`u64::count_ones`).
pub open spec fn popcount(x: u64) -> nat
    decreases x,
{
    if x == 0 { 0 } else { (x % 2) as nat + popcount(x / 2) }
}

pub fn count_ones(x: u64) -> (r: u32)
    ensures
        r as nat == popcount(x),
        r <= 64,
{
    let mut y: u64 = x;
    let mut c: u32 = 0;
    let mut steps: u32 = 0;
    proof { lemma_pow2_64(); }
    while y != 0
        invariant
            c as nat + popcount(y) == popcount(x),
            c <= steps,
            steps <= 64,
            y < pow2_u64((64 - steps) as nat),
        decreases y,
    {
        assert(y & 1 == y % 2) by (bit_vector);
        assert(y >> 1 == y / 2) by (bit_vector);
        proof { lemma_halve_below(y, steps); }
        c = c + (y & 1) as u32;
        y = y >> 1;
        steps = steps + 1;
    }
    c
}

pub open spec fn pow2_u64(k: nat) -> int
    decreases k,
{
    if k == 0 { 1 } else { 2 * pow2_u64((k - 1) as nat) }
}

proof fn lemma_pow2_64()
    ensures
        pow2_u64(64) == 0x1_0000_0000_0000_0000,
{
    reveal_with_fuel(pow2_u64, 65);
}

proof fn lemma_halve_below(y: u64, steps: u32)
    requires
        y != 0,
        steps <= 64,
        y < pow2_u64((64 - steps) as nat),
    ensures
        steps < 64,
        y / 2 < pow2_u64((64 - steps - 1) as nat),
{
    if steps == 64 {
        assert(pow2_u64(0) == 1);
    }
    assert(pow2_u64((64 - steps) as nat) == 2 * pow2_u64((64 - steps - 1) as nat));
}

/// Largest efficiency class among the entries (0 for none).
pub open spec fn max_class(e: Seq<(u8, u64)>) -> u8
    decreases e.len(),
{
    if e.len() == 0 {
        0
    } else {
        let m = max_class(e.drop_last());
        if e.last().0 > m { e.last().0 } else { m }
    }
}

/// OR of the masks whose class is (`top` true) or is not (`top` false) `class`.
pub open spec fn or_masks(e: Seq<(u8, u64)>, class: u8, top: bool) -> u64
    decreases e.len(),
{
    if e.len() == 0 {
        0
    } else {
        let rest = or_masks(e.drop_last(), class, top);
        if (e.last().0 == class) == top { rest | e.last().1 } else { rest }
    }
}

/// Total number of threads across the entries.
pub open spec fn thread_total(e: Seq<(u8, u64)>) -> nat
    decreases e.len(),
{
    if e.len() == 0 { 0 } else { thread_total(e.drop_last()) + popcount(e.last().1) }
}

/// The P/E classification of `(EfficiencyClass, mask)` core entries:
/// the highest class is the P-cores, every other class the E-cores.
pub open spec fn classify_spec(e: Seq<(u8, u64)>) -> (u64, u64, u32, u32) {
    if e.len() == 0 {
        (0, 0, 0, 0)
    } else {
        let c = max_class(e);
        (or_masks(e, c, true), or_masks(e, c, false), e.len() as u32, thread_total(e) as u32)
    }
}

proof fn lemma_thread_total_bound(e: Seq<(u8, u64)>)
    ensures
        thread_total(e) <= 64 * e.len(),
    decreases e.len(),
{
    if e.len() > 0 {
        lemma_thread_total_bound(e.drop_last());
        lemma_popcount_bound(e.last().1);
    }
}

proof fn lemma_popcount_bound(x: u64)
    ensures
        popcount(x) <= 64,
{
    lemma_pow2_64();
    lemma_popcount_steps(x, 0);
}

proof fn lemma_popcount_steps(y: u64, steps: nat)
    requires
        steps <= 64,
        (y as int) < pow2_u64((64 - steps) as nat),
    ensures
        popcount(y) <= 64 - steps,
    decreases y,
{
    if y != 0 {
        lemma_halve_below(y, steps as u32);
        lemma_popcount_steps(y / 2, steps + 1);
    }
}

/// Splits `(EfficiencyClass, mask)` core entries into P-core and E-core masks and counts
/// the cores and threads.
pub fn classify_cores(entries: &[(u8, u64)]) -> (r: (u64, u64, u32, u32))
    requires
        entries@.len() <= 0x3FF_FFFF,
    ensures
        r == classify_spec(entries@),
{
    if entries.len() == 0 {
        return (0, 0, 0, 0);
    }
    let mut max_c: u8 = 0;
    let mut i: usize = 0;
    while i < entries.len()
        invariant
            i <= entries.len(),
            max_c == max_class(entries@.take(i as int)),
        decreases entries.len() - i,
    {
        assert(entries@.take(i as int + 1).drop_last() == entries@.take(i as int));
        if entries[i].0 > max_c {
            max_c = entries[i].0;
        }
        i = i + 1;
    }
    assert(entries@.take(entries@.len() as int) == entries@);
    let mut p: u64 = 0;
    let mut e: u64 = 0;
    let mut phys: u32 = 0;
    let mut logical: u32 = 0;
    let mut k: usize = 0;
    while k < entries.len()
        invariant
            entries@.len() <= 0x3FF_FFFF,
            k <= entries.len(),
            max_c == max_class(entries@),
            p == or_masks(entries@.take(k as int), max_c, true),
            e == or_masks(entries@.take(k as int), max_c, false),
            phys == k,
            logical as nat == thread_total(entries@.take(k as int)),
        decreases entries.len() - k,
    {
        assert(entries@.take(k as int + 1).drop_last() == entries@.take(k as int));
        let (class, mask) = entries[k];
        proof {
            lemma_thread_total_bound(entries@.take(k as int));
        }
        phys = phys + 1;
        let ones = count_ones(mask);
        logical = logical + ones;
        if class == max_c {
            p = p | mask;
        } else {
            e = e | mask;
        }
        k = k + 1;
    }
    assert(entries@.take(entries@.len() as int) == entries@);
    (p, e, phys, logical)
}

/// The processor topology built from core entries, if any core was reported;
/// `fallback_logical` is what the OS reports as available parallelism.
pub fn cpu_info_from_cores(entries: &[(u8, u64)], fallback_logical: u32) -> (r: Option<CpuInfo>)
    requires
        entries@.len() <= 0x3FF_FFFF,
    ensures
        entries@.len() == 0 ==> r is None,
        entries@.len() > 0 ==> r == Some(CpuInfo {
            physical_cores: entries@.len() as u32,
            logical_threads: if classify_spec(entries@).3 >= fallback_logical { classify_spec(entries@).3 } else { fallback_logical },
            p_core_mask: classify_spec(entries@).0 as usize,
            e_core_mask: classify_spec(entries@).1 as usize,
            has_hybrid: classify_spec(entries@).1 != 0,
        }),
{
    let (p, e, phys, logical) = classify_cores(entries);
    if phys == 0 {
        return None;
    }
    Some(CpuInfo {
        physical_cores: phys,
        logical_threads: if logical >= fallback_logical { logical } else { fallback_logical },
        p_core_mask: p as usize,
        e_core_mask: e as usize,
        has_hybrid: e != 0,
    })
}

/// The topology when the per-core query is unavailable: half the threads (at least one)
/// count as physical cores unless a core count is known.
pub fn fallback_cpu_info(physical: Option<u32>, fallback_logical: u32) -> (r: CpuInfo)
    ensures
        r.physical_cores == match physical {
            Some(n) => n,
            None => if fallback_logical / 2 >= 1 { fallback_logical / 2 } else { 1 },
        },
        r.logical_threads == fallback_logical,
        r.p_core_mask == 0,
        r.e_core_mask == 0,
        !r.has_hybrid,
{
    let physical_cores = match physical {
        Some(n) => n,
        None => if fallback_logical / 2 >= 1 { fallback_logical / 2 } else { 1 },
    };
    CpuInfo {
        physical_cores,
        logical_threads: fallback_logical,
        p_core_mask: 0,
        e_core_mask: 0,
        has_hybrid: false,
    }
}

// ---------------------------------------------------------------------------
// Finding the game process

/// Failures of changing the game process.
#[derive(Debug, Clone)]
pub enum Error {
    /// The process could not be opened; the text is the system's reason.
    OpenProcess { pid: u32, source: String },
    ImageMismatch(u32),
    SetPriority(String),
    SetAffinity(String),
}

pub open spec fn error_text(e: Error) -> Seq<char> {
    match e {
        Error::OpenProcess { pid, source } => "프로세스 열기 실패 (PID "@ + crate::text::dec(pid as nat) + "): "@ + source@,
        Error::ImageMismatch(pid) => "PID "@ + crate::text::dec(pid as nat) + " 검증 실패. 게임 프로세스가 종료된 것으로 보입니다."@,
        Error::SetPriority(m) => "Priority 설정 실패: "@ + m@,
        Error::SetAffinity(m) => "Affinity 설정 실패: "@ + m@,
    }
}

impl Error {
    pub fn message(&self) -> (r: String)
        ensures
            r@ == error_text(*self),
    {
        match self {
            Error::OpenProcess { pid, source } => {
                let mut s = owned("프로세스 열기 실패 (PID ");
                push_dec(&mut s, *pid as u64);
                push_str(&mut s, "): ");
                push_str(&mut s, source.as_str());
                s
            },
            Error::ImageMismatch(pid) => {
                let mut s = owned("PID ");
                push_dec(&mut s, *pid as u64);
                push_str(&mut s, " 검증 실패. 게임 프로세스가 종료된 것으로 보입니다.");
                s
            },
            Error::SetPriority(m) => {
                let mut s = owned("Priority 설정 실패: ");
                push_str(&mut s, m.as_str());
                s
            },
            Error::SetAffinity(m) => {
                let mut s = owned("Affinity 설정 실패: ");
                push_str(&mut s, m.as_str());
                s
            },
        }
    }
}

/// The executable name of a process-snapshot entry: the units before the first NUL.
pub open spec fn entry_name(raw: Seq<u16>) -> Seq<char> {
    utf16_lossy(raw.take(nul_index(raw, 0)))
}

fn entry_name_of(raw: &[u16]) -> (r: String)
    ensures
        r@ == entry_name(raw@),
{
    let mut end: usize = 0;
    while end < raw.len() && raw[end] != 0
        invariant
            end <= raw.len(),
            nul_index(raw@, 0) == nul_index(raw@, end as int),
        decreases raw.len() - end,
    {
        end = end + 1;
    }
    assert(raw@.subrange(0, end as int) == raw@.take(end as int));
    crate::system_info::decode_utf16(&raw[0..end])
}

/// The file name of a full process image path, as `QueryFullProcessImageNameW` wrote it.
pub open spec fn image_file_name(path: Seq<u16>) -> Option<Seq<char>> {
    file_name(utf16_lossy(path))
}

/// The image at `path` is the executable `exe_name` (ASCII case ignored).
pub open spec fn image_is(path: Option<Vec<u16>>, exe_name: Seq<char>) -> bool {
    path matches Some(p) && (image_file_name(p@) matches Some(n) && eq_ignore_ascii_case(n, exe_name))
}

pub fn image_matches(path: &Option<Vec<u16>>, exe_name: &str) -> (r: bool)
    ensures
        r == image_is(*path, exe_name@),
{
    match path {
        Some(p) => {
            let full = crate::system_info::decode_utf16(p.as_slice());
            match crate::launcher::path_file_name(full.as_str()) {
                Some(n) => {
                    let e = crate::text::chars_of(exe_name);
                    crate::text::chars_eq_ignore_ascii_case(n.as_slice(), e.as_slice())
                },
                None => false,
            }
        },
        None => false,
    }
}

/// The first entry of the snapshot whose executable name is `exe_name` (ASCII case ignored).
pub open spec fn first_named(entries: Seq<(u32, Vec<u16>)>, exe_name: Seq<char>, i: int) -> Option<u32>
    decreases entries.len() - i,
{
    if i < 0 || i >= entries.len() {
        None
    } else if eq_ignore_ascii_case(entry_name(entries[i].1@), exe_name) {
        Some(entries[i].0)
    } else {
        first_named(entries, exe_name, i + 1)
    }
}

/// What looking up `exe_name` gave (`r`) and left remembered (`after`), starting from
/// the remembered id `before`.
pub open spec fn process_lookup<V, S>(before: Option<u32>, after: Option<u32>, exe_name: Seq<char>, image_path: V, snapshot: S, r: Option<u32>) -> bool
    where
        V: FnOnce(u32) -> Option<Vec<u16>>,
        S: FnOnce() -> Vec<(u32, Vec<u16>)>,
{
    match before {
        Some(pid) => exists|img: Option<Vec<u16>>| call_ensures(image_path, (pid,), img) && (
            if image_is(img, exe_name) {
                r == Some(pid) && after == before
            } else {
                exists|entries: Vec<(u32, Vec<u16>)>| call_ensures(snapshot, (), entries)
                    && r == first_named(entries@, exe_name, 0) && after == r
            }),
        None => exists|entries: Vec<(u32, Vec<u16>)>| call_ensures(snapshot, (), entries)
            && r == first_named(entries@, exe_name, 0) && after == r,
    }
}

/// The process id of `exe_name`. The remembered id is reused while `image_path` shows
/// that it still runs that executable; otherwise `snapshot` lists the processes, the
/// first one with that name is taken, and it is remembered (or forgotten when none).
pub fn find_process_id<V, S>(cache: &mut Option<u32>, exe_name: &str, image_path: V, snapshot: S) -> (r: Option<u32>)
    where
        V: FnOnce(u32) -> Option<Vec<u16>>,
        S: FnOnce() -> Vec<(u32, Vec<u16>)>,
    requires
        forall|pid: u32| call_requires(image_path, (pid,)),
        call_requires(snapshot, ()),
    ensures
        process_lookup(*old(cache), *final(cache), exe_name@, image_path, snapshot, r),
{
    match *cache {
        Some(pid) => {
            let img = image_path(pid);
            if image_matches(&img, exe_name) {
                return Some(pid);
            }
        },
        None => {},
    }
    let entries = snapshot();
    let e = crate::text::chars_of(exe_name);
    let mut found: Option<u32> = None;
    let mut i: usize = 0;
    while i < entries.len() && found.is_none()
        invariant
            i <= entries@.len(),
            e@ == exe_name@,
            found is None ==> first_named(entries@, exe_name@, 0) == first_named(entries@, exe_name@, i as int),
            found is Some ==> found == first_named(entries@, exe_name@, 0),
        decreases entries.len() - i,
    {
        let name = entry_name_of(entries[i].1.as_slice());
        let n = crate::text::chars_of(name.as_str());
        if crate::text::chars_eq_ignore_ascii_case(n.as_slice(), e.as_slice()) {
            found = Some(entries[i].0);
        }
        i = i + 1;
    }
    *cache = found;
    found
}

/// The image of the process behind `h`, as `image_path` gave it, is the game's: only
/// then may its priority or affinity be changed.
pub open spec fn game_image_confirmed<H, I: FnOnce(&H) -> Option<Vec<u16>>>(image_path: I, h: &H) -> bool {
    exists|img: Option<Vec<u16>>| call_ensures(image_path, (h,), img) && image_is(img, crate::launcher::GAME_EXE@)
}

/// Setting priority class `priority` on `h` succeeded: only then is the affinity set.
pub open spec fn priority_was_set<H, P: FnOnce(&H, u32) -> Result<(), String>>(set_priority: P, h: &H, priority: u32) -> bool {
    exists|res: Result<(), String>| call_ensures(set_priority, (h, priority), res) && res is Ok
}

/// What applying a priority class and an affinity mask to `pid` came to, given what each
/// step answered: the process could not be opened, its image is not the game, or the
/// outcome of setting the priority and then the affinity.
pub open spec fn applied<H, I, P, A>(
    pid: u32,
    affinity: usize,
    priority: u32,
    h: H,
    image_path: I,
    set_priority: P,
    set_affinity: A,
    r: Result<(), Error>,
) -> bool
    where
        I: FnOnce(&H) -> Option<Vec<u16>>,
        P: FnOnce(&H, u32) -> Result<(), String>,
        A: FnOnce(&H, usize) -> Result<(), String>,
{
    exists|img: Option<Vec<u16>>| call_ensures(image_path, (&h,), img) && if !image_is(img, crate::launcher::GAME_EXE@) {
        r == Err::<(), Error>(Error::ImageMismatch(pid))
    } else {
        exists|sp: Result<(), String>| call_ensures(set_priority, (&h, priority), sp) && match sp {
            Err(m) => r matches Err(Error::SetPriority(x)) && x@ == m@,
            Ok(()) => exists|sa: Result<(), String>| call_ensures(set_affinity, (&h, affinity), sa) && match sa {
                Err(m) => r matches Err(Error::SetAffinity(x)) && x@ == m@,
                Ok(()) => r is Ok,
            },
        }
    }
}

/// Applies a mode to the game process `pid`: the process is opened with `open`, its image
/// (`image_path` gives the full path) must still be `BlackDesert64.exe`, so that a reused
/// process id is never touched; then the priority class and the affinity mask are set, in
/// that order. The first failure ends the attempt.
pub fn apply_optimization<H, O, I, P, A>(
    pid: u32,
    affinity: usize,
    priority: u32,
    open: O,
    image_path: I,
    set_priority: P,
    set_affinity: A,
) -> (r: Result<(), Error>)
    where
        O: FnOnce(u32) -> Result<H, String>,
        I: FnOnce(&H) -> Option<Vec<u16>>,
        P: FnOnce(&H, u32) -> Result<(), String>,
        A: FnOnce(&H, usize) -> Result<(), String>,
    requires
        call_requires(open, (pid,)),
        forall|h: &H| call_requires(image_path, (h,)),
        forall|h: &H, p: u32| game_image_confirmed(image_path, h) ==> call_requires(set_priority, (h, p)),
        forall|h: &H, a: usize| game_image_confirmed(image_path, h) && priority_was_set(set_priority, h, priority)
            ==> call_requires(set_affinity, (h, a)),
    ensures
        exists|opened: Result<H, String>| call_ensures(open, (pid,), opened) && match opened {
            Err(m) => r matches Err(Error::OpenProcess { pid: p, source }) && p == pid && source@ == m@,
            Ok(h) => applied(pid, affinity, priority, h, image_path, set_priority, set_affinity, r),
        },
{
    let opened = open(pid);
    let h = match opened {
        Ok(h) => h,
        Err(m) => return Err(Error::OpenProcess { pid, source: m }),
    };
    let img = image_path(&h);
    let r = if !image_matches(&img, crate::launcher::GAME_EXE) {
        Err(Error::ImageMismatch(pid))
    } else {
        assert(game_image_confirmed(image_path, &h));
        let sp = set_priority(&h, priority);
        match sp {
            Err(m) => Err(Error::SetPriority(m)),
            Ok(()) => {
                assert(priority_was_set(set_priority, &h, priority));
                let sa = set_affinity(&h, affinity);
                match sa {
                    Err(m) => Err(Error::SetAffinity(m)),
                    Ok(()) => Ok(()),
                }
            },
        }
    };
    assert(applied(pid, affinity, priority, h, image_path, set_priority, set_affinity, r));
    r
}

} // verus!
