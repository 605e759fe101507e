//! The decisions of a working-set sweep experiment: which measurement mode
//! it runs, which sizes it covers, how a size is written and parsed, and
//! which level of the cache hierarchy a working set falls in; and the
//! preparation and timing of one measurement in both execution modes.
use crate::engine::memory_engine::{
    lemma_resolve_one, operation_defined, operation_output, resolve, seq_chase, seq_random,
    seq_scan, ExecutionMode, ExecutionResult, MemoryEngine,
};
use crate::engine::operations::{operation_name, Operation};
use crate::runtime::execution_policy::dataset;
use crate::timing;
use crate::workloads::dataset_scan::fill_dataset_pattern;
use vstd::prelude::*;

verus! {

/// The characters of `s`, in order.
pub fn chars_of(s: &str) -> (v: Vec<char>)
    ensures
        v@ == s@,
{
    broadcast use vstd::string::axiom_spec_iter;

    let mut v: Vec<char> = Vec::new();
    for c in it: s.chars()
        invariant
            v@ == it.seq().take(it.index()),
            it.seq() == s@,
    {
        v.push(c);
        assert(it.seq().take(it.index() + 1) =~= it.seq().take(it.index()).push(c));
    }
    assert(v@ =~= s@);
    v
}

fn same_chars(a: &Vec<char>, b: &Vec<char>) -> (same: bool)
    ensures
        same == (a@ == b@),
{
    if a.len() != b.len() {
        return false;
    }
    let n = a.len();
    for i in 0..n
        invariant
            n == a@.len(),
            n == b@.len(),
            forall|k: int| 0 <= k < i ==> a@[k] == b@[k],
    {
        if a[i] != b[i] {
            return false;
        }
    }
    assert(a@ =~= b@);
    true
}

// ---------------------------------------------------------------------------
// Measurement modes.

/// How a working-set sweep measures latency.
#[derive(Debug, Clone, Copy, PartialEq, Eq, Structural)]
pub enum SweepMode {
    /// Dependent pointer chasing over a shuffled chain.
    Pointer,
    /// A sequential scan, which the prefetcher helps.
    Sequential,
    /// Independent reads at shuffled positions.
    Random,
}

/// The mode that `name` selects: `pointer`, `sequential` or `random`.
pub open spec fn sweep_mode_named(name: Seq<char>) -> Option<SweepMode> {
    if name == "pointer"@ {
        Some(SweepMode::Pointer)
    } else if name == "sequential"@ {
        Some(SweepMode::Sequential)
    } else if name == "random"@ {
        Some(SweepMode::Random)
    } else {
        None
    }
}

impl SweepMode {
    /// The mode that `mode` names, or `None` for any other name.
    pub fn from_name(mode: &str) -> (m: Option<SweepMode>)
        ensures
            m == sweep_mode_named(mode@),
    {
        let given = chars_of(mode);
        if same_chars(&given, &chars_of("pointer")) {
            Some(SweepMode::Pointer)
        } else if same_chars(&given, &chars_of("sequential")) {
            Some(SweepMode::Sequential)
        } else if same_chars(&given, &chars_of("random")) {
            Some(SweepMode::Random)
        } else {
            None
        }
    }

    /// The title of a sweep in this mode.
    pub fn title(&self) -> (t: &'static str)
        ensures
            t@ == (match *self {
                SweepMode::Pointer => "Working Set Sweep Experiment (Pointer Chasing)"@,
                SweepMode::Random => "Working Set Sweep Experiment (Independent Random Access)"@,
                SweepMode::Sequential => "Working Set Sweep Experiment (Sequential Scan)"@,
            }),
    {
        match self {
            SweepMode::Pointer => "Working Set Sweep Experiment (Pointer Chasing)",
            SweepMode::Random => "Working Set Sweep Experiment (Independent Random Access)",
            SweepMode::Sequential => "Working Set Sweep Experiment (Sequential Scan)",
        }
    }

    /// The file the results of a sweep in this mode are appended to.
    pub fn export_file(&self) -> (f: &'static str)
        ensures
            f@ == (match *self {
                SweepMode::Pointer => "results/rpi-results/working_set_sweep_pointer.jsonl"@,
                SweepMode::Random => "results/rpi-results/working_set_sweep_random.jsonl"@,
                SweepMode::Sequential => "results/rpi-results/working_set_sweep_sequential.jsonl"@,
            }),
    {
        match self {
            SweepMode::Pointer => "results/rpi-results/working_set_sweep_pointer.jsonl",
            SweepMode::Random => "results/rpi-results/working_set_sweep_random.jsonl",
            SweepMode::Sequential => "results/rpi-results/working_set_sweep_sequential.jsonl",
        }
    }
}

/// The warmup iterations run before a measurement of `iterations`: a tenth.
pub fn warmup_iterations(iterations: usize) -> (w: usize)
    ensures
        w == iterations / 10,
{
    iterations / 10
}


// ---------------------------------------------------------------------------
// One measurement.

/// The operation a sweep in `mode` measures.
pub open spec fn sweep_operation(mode: SweepMode) -> Operation {
    match mode {
        SweepMode::Pointer => Operation::MemPointerChase,
        SweepMode::Random => Operation::MemRandomAccess,
        SweepMode::Sequential => Operation::MemScan,
    }
}

/// Each mode measures what it is named for. On a buffer `a`, the timed run
/// of pointer mode follows `iterations` pointers through `a`; that of random
/// mode makes `iterations` independent reads, each at the position that `a`
/// holds at the read's index; that of sequential mode scans `a` for the
/// values above 500 (the iteration count taken modulo 2^32). The operations
/// are those whose wire names are `MEM_POINTER_CHASE`, `MEM_RANDOM_ACCESS`
/// and `MEM_SCAN`.
pub proof fn law_sweep_modes_measure_what_they_name(mode: SweepMode, a: Seq<u32>, iterations: usize)
    ensures
        operation_output(sweep_operation(mode), seq![a], sweep_params(mode, iterations, false))
            == (match mode {
            SweepMode::Pointer => seq_chase(a, (iterations as u32) as nat),
            SweepMode::Random => seq_random(a, (iterations as u32) as nat),
            SweepMode::Sequential => seq_scan(a, 500),
        }),
        operation_name(sweep_operation(mode)) == (match mode {
            SweepMode::Pointer => "MEM_POINTER_CHASE"@,
            SweepMode::Random => "MEM_RANDOM_ACCESS"@,
            SweepMode::Sequential => "MEM_SCAN"@,
        }),
{
}

/// Different modes measure different operations.
pub proof fn law_sweep_modes_distinct(m1: SweepMode, m2: SweepMode)
    ensures
        m1 != m2 ==> sweep_operation(m1) != sweep_operation(m2),
{
}

/// The parameters of a run of a sweep in `mode` at `iterations`: a scan
/// above 500 in sequential mode; otherwise the iteration count (a tenth of
/// it for the warmup run), modulo 2^32.
pub open spec fn sweep_params(mode: SweepMode, iterations: usize, warmup: bool) -> Seq<u32> {
    match mode {
        SweepMode::Sequential => seq![500u32],
        _ => seq![
            (if warmup {
                (iterations / 10) as int
            } else {
                iterations as int
            }) as u32,
        ],
    }
}

/// The buffer a sweep in `mode` runs over: the scan dataset in sequential
/// mode; otherwise `chain`, then zeros up to `buf_size` elements.
pub open spec fn sweep_buffer(mode: SweepMode, buf_size: nat, chain: Seq<u32>) -> Seq<u32> {
    match mode {
        SweepMode::Sequential => dataset(buf_size),
        _ => Seq::new(buf_size, |i: int| if i < chain.len() { chain[i] } else { 0 }),
    }
}

/// Whether both runs of a sweep in `mode` run to their end on the buffer at
/// `buf`.
pub open spec fn sweep_runs(mode: SweepMode, engine: Seq<Seq<u32>>, buf: usize, iterations: usize) -> bool {
    &&& operation_defined(sweep_operation(mode), resolve(engine, seq![buf]), sweep_params(mode, iterations, true))
    &&& operation_defined(sweep_operation(mode), resolve(engine, seq![buf]), sweep_params(mode, iterations, false))
}

/// The results of one measurement in both execution modes, and the
/// nanoseconds that each measured run took.
pub struct SweepMeasurement {
    pub cpu_result: ExecutionResult,
    pub cpu_nanos: u128,
    pub mem_result: ExecutionResult,
    pub mem_nanos: u128,
}

impl SweepMode {
    /// The operation this mode measures.
    pub fn operation(&self) -> (op: Operation)
        ensures
            op == sweep_operation(*self),
    {
        match self {
            SweepMode::Pointer => Operation::MemPointerChase,
            SweepMode::Random => Operation::MemRandomAccess,
            SweepMode::Sequential => Operation::MemScan,
        }
    }

    fn params(&self, iterations: usize, warmup: bool) -> (p: [u32; 1])
        ensures
            p@ == sweep_params(*self, iterations, warmup),
    {
        let value: u32 = match self {
            SweepMode::Sequential => 500,
            _ => if warmup {
                warmup_iterations(iterations) as u32
            } else {
                iterations as u32
            },
        };
        let p = [value];
        assert(p@ =~= sweep_params(*self, iterations, warmup));
        p
    }

    /// A fresh engine holding one buffer of `buf_size` elements, filled for
    /// this mode (see [`sweep_buffer`]), and that buffer's index.
    pub fn prepare_engine(&self, buf_size: usize, chain: &[u32]) -> (res: (MemoryEngine, usize))
        requires
            4 * buf_size <= isize::MAX,
            *self != SweepMode::Sequential ==> chain@.len() <= buf_size,
        ensures
            res.1 == 0,
            res.0@ == seq![sweep_buffer(*self, buf_size as nat, chain@)],
    {
        let mut engine = MemoryEngine::new();
        let buf = engine.allocate_buffer(buf_size, 0);
        match engine.get_buffer_mut(buf) {
            Some(buf_data) => {
                match self {
                    SweepMode::Sequential => fill_dataset_pattern(buf_data),
                    _ => {
                        let n = chain.len();
                        for i in 0..n
                            invariant
                                n == chain@.len() <= buf_data@.len() == buf_size,
                                forall|k: int| 0 <= k < i ==> buf_data@[k] == chain@[k],
                                forall|k: int| n <= k < buf_size ==> buf_data@[k] == 0,
                        {
                            buf_data[i] = chain[i];
                        }
                        assert(buf_data@ =~= sweep_buffer(*self, buf_size as nat, chain@));
                    },
                }
            },
            None => {},
        }
        assert(engine@ =~= seq![sweep_buffer(*self, buf_size as nat, chain@)]);
        (engine, buf)
    }

    /// Whether both runs of this mode run to their end on the buffer at
    /// `buf`: tests [`sweep_runs`].
    pub fn can_run(&self, engine: &MemoryEngine, buf: usize, iterations: usize) -> (ok: bool)
        ensures
            ok == sweep_runs(*self, engine@, buf, iterations),
    {
        let idx = [buf];
        assert(idx@ =~= seq![buf]);
        let warm = self.params(iterations, true);
        let run = self.params(iterations, false);
        let op = self.operation();
        engine.can_execute(op, &idx, &warm) && engine.can_execute(op, &idx, &run)
    }

    /// Measures this mode on the buffer at `buf`: a warmup run and a timed
    /// run on the CPU over `engine_cpu`, then the same at the memory engine
    /// over `engine_mem`. The data and byte counts are those of the timed
    /// runs; the nanoseconds are what the clock gives.
    pub fn measure(
        &self,
        engine_cpu: &MemoryEngine,
        engine_mem: &MemoryEngine,
        buf: usize,
        iterations: usize,
    ) -> (m: SweepMeasurement)
        requires
            sweep_runs(*self, engine_cpu@, buf, iterations),
            sweep_runs(*self, engine_mem@, buf, iterations),
        ensures
            m.cpu_result.data@ == operation_output(
                sweep_operation(*self),
                resolve(engine_cpu@, seq![buf]),
                sweep_params(*self, iterations, false),
            ),
            m.cpu_result.stats.memory_access == 4 * (if buf < engine_cpu@.len() {
                engine_cpu@[buf as int].len()
            } else {
                0
            }),
            m.cpu_result.stats.data_moved == 4 * m.cpu_result.data@.len(),
            m.cpu_result.execution_mode == ExecutionMode::CPU,
            m.mem_result.data@ == operation_output(
                sweep_operation(*self),
                resolve(engine_mem@, seq![buf]),
                sweep_params(*self, iterations, false),
            ),
            m.mem_result.stats.memory_access == 4 * (if buf < engine_mem@.len() {
                engine_mem@[buf as int].len()
            } else {
                0
            }),
            m.mem_result.stats.data_moved == 4 * m.mem_result.data@.len(),
            m.mem_result.execution_mode == ExecutionMode::MemoryEngine,
    {
        proof {
            lemma_resolve_one(engine_cpu@, buf);
            lemma_resolve_one(engine_mem@, buf);
        }
        let idx = [buf];
        assert(idx@ =~= seq![buf]);
        let warm = self.params(iterations, true);
        let run = self.params(iterations, false);
        let op = self.operation();

        let _warmup = engine_cpu.execute_cpu(op, &idx, &warm);
        let start = timing::instant_now();
        let cpu_result = engine_cpu.execute_cpu(op, &idx, &run);
        let cpu_nanos = timing::nanos_since(&start);

        let _warmup = engine_mem.execute_memory_engine(op, &idx, &warm);
        let start = timing::instant_now();
        let mem_result = engine_mem.execute_memory_engine(op, &idx, &run);
        let mem_nanos = timing::nanos_since(&start);

        SweepMeasurement { cpu_result, cpu_nanos, mem_result, mem_nanos }
    }
}

// ---------------------------------------------------------------------------
// Cache levels and size labels.

/// The level of a typical cache hierarchy (L1 32 KiB, L2 256 KiB, L3 8 MiB)
/// that a working set fits in.
#[derive(Debug, Clone, Copy, PartialEq, Eq, Structural)]
pub enum CacheLevel {
    L1,
    L2,
    L3,
    Dram,
}

/// The smallest level that holds `bytes`.
pub open spec fn cache_level_of(bytes: usize) -> CacheLevel {
    if bytes <= 32 * 1024 {
        CacheLevel::L1
    } else if bytes <= 256 * 1024 {
        CacheLevel::L2
    } else if bytes <= 8 * 1024 * 1024 {
        CacheLevel::L3
    } else {
        CacheLevel::Dram
    }
}

impl CacheLevel {
    /// The level a working set of `bytes` falls in.
    pub fn of_working_set(bytes: usize) -> (level: CacheLevel)
        ensures
            level == cache_level_of(bytes),
    {
        if bytes <= 32 * 1024 {
            CacheLevel::L1
        } else if bytes <= 256 * 1024 {
            CacheLevel::L2
        } else if bytes <= 8 * 1024 * 1024 {
            CacheLevel::L3
        } else {
            CacheLevel::Dram
        }
    }

    /// The marker printed beside a working set of this level.
    pub fn marker(&self) -> (m: &'static str)
        ensures
            m@ == (match *self {
                CacheLevel::L1 => "→ L1"@,
                CacheLevel::L2 => "→ L2"@,
                CacheLevel::L3 => "→ L3"@,
                CacheLevel::Dram => "→ DRAM"@,
            }),
    {
        match self {
            CacheLevel::L1 => "→ L1",
            CacheLevel::L2 => "→ L2",
            CacheLevel::L3 => "→ L3",
            CacheLevel::Dram => "→ DRAM",
        }
    }
}

/// A working set falls in the first level large enough to hold it: L1 up
/// to 32 KiB, L2 above that up to 256 KiB, L3 above that up to 8 MiB, and
/// DRAM beyond.
pub proof fn law_cache_level_bounds(bytes: usize)
    ensures
        (cache_level_of(bytes) == CacheLevel::L1) <==> bytes <= 32768,
        (cache_level_of(bytes) == CacheLevel::L2) <==> 32768 < bytes <= 262144,
        (cache_level_of(bytes) == CacheLevel::L3) <==> 262144 < bytes <= 8388608,
        (cache_level_of(bytes) == CacheLevel::Dram) <==> 8388608 < bytes,
{
}

/// A larger working set never falls in a smaller level.
pub proof fn law_cache_level_monotone(small: usize, large: usize)
    requires
        small <= large,
    ensures
        cache_level_rank(cache_level_of(small)) <= cache_level_rank(cache_level_of(large)),
{
}

/// The position of a level in the hierarchy, from 0 for L1.
pub open spec fn cache_level_rank(level: CacheLevel) -> int {
    match level {
        CacheLevel::L1 => 0,
        CacheLevel::L2 => 1,
        CacheLevel::L3 => 2,
        CacheLevel::Dram => 3,
    }
}

/// The unit a size is written in.
#[derive(Debug, Clone, Copy, PartialEq, Eq, Structural)]
pub enum SizeUnit {
    KB,
    MB,
}

/// How a working set of `bytes` is written: whole MiB when there is at least
/// one, whole KiB otherwise.
pub open spec fn size_label_of(bytes: usize) -> (usize, SizeUnit) {
    if bytes / 1048576usize > 0 {
        (bytes / 1048576usize, SizeUnit::MB)
    } else {
        (bytes / 1024usize, SizeUnit::KB)
    }
}

/// A size is written in the largest unit that it holds at least once, as the
/// whole count of that unit it holds: in MiB from 1 MiB up, in KiB below.
pub proof fn law_size_label_rounds_down(bytes: usize)
    ensures
        size_label_of(bytes).1 == SizeUnit::MB <==> bytes >= 1048576,
        size_label_of(bytes).1 == SizeUnit::MB ==> size_label_of(bytes).0 * 1048576 <= bytes
            < (size_label_of(bytes).0 + 1) * 1048576,
        size_label_of(bytes).1 == SizeUnit::KB ==> size_label_of(bytes).0 * 1024 <= bytes < (
        size_label_of(bytes).0 + 1) * 1024,
{
}

/// The number and unit a working set of `bytes` is written with.
pub fn size_label(bytes: usize) -> (label: (usize, SizeUnit))
    ensures
        label == size_label_of(bytes),
{
    let size_kb = bytes / 1024;
    let size_mb = bytes / (1024 * 1024);
    if size_mb > 0 {
        (size_mb, SizeUnit::MB)
    } else {
        (size_kb, SizeUnit::KB)
    }
}

// ---------------------------------------------------------------------------
// Parsing a working-set size such as `64KB` or `16MB`.

/// Why a working-set size did not parse. The first three are those of
/// parsing the number; the last is a missing `KB` or `MB` unit.
#[derive(Debug, Clone, Copy, PartialEq, Eq, Structural)]
pub enum SizeParseError {
    /// The number has no characters.
    EmptyNumber,
    /// The number holds a character that is not a decimal digit.
    InvalidDigit,
    /// The number does not fit in a `usize`.
    NumberTooLarge,
    /// The size ends in neither `KB` nor `MB` (in either case).
    UnknownUnit,
}

/// Unicode white space (the `White_Space` property), which `str::trim`
/// removes.
pub open spec fn is_unicode_whitespace(c: char) -> bool {
    ('\u{9}' <= c && c <= '\u{d}') || c == ' ' || c == '\u{85}' || c == '\u{a0}' || c
        == '\u{1680}' || ('\u{2000}' <= c && c <= '\u{200a}') || c == '\u{2028}' || c
        == '\u{2029}' || c == '\u{202f}' || c == '\u{205f}' || c == '\u{3000}'
}

/// The number of white-space characters `s` starts with.
pub open spec fn leading_whitespace(s: Seq<char>) -> nat
    decreases s.len(),
{
    if s.len() > 0 && is_unicode_whitespace(s[0]) {
        1 + leading_whitespace(s.drop_first())
    } else {
        0
    }
}

/// The number of white-space characters `s` ends with.
pub open spec fn trailing_whitespace(s: Seq<char>) -> nat
    decreases s.len(),
{
    if s.len() > 0 && is_unicode_whitespace(s.last()) {
        1 + trailing_whitespace(s.drop_last())
    } else {
        0
    }
}

/// `s` without its leading and trailing white space.
pub open spec fn trim(s: Seq<char>) -> Seq<char> {
    let t = s.skip(leading_whitespace(s) as int);
    t.take(t.len() - trailing_whitespace(t))
}

pub open spec fn is_ascii_digit(c: char) -> bool {
    '0' <= c && c <= '9'
}

pub open spec fn digit_value(c: char) -> nat {
    ((c as int) - ('0' as int)) as nat
}

/// Reads the decimal digits `d` after the value `acc` read so far, left to
/// right: the first non-digit is an invalid digit, and a value beyond
/// `usize` is too large, whichever comes first.
pub open spec fn accumulate_digits(d: Seq<char>, acc: nat) -> Result<nat, SizeParseError>
    decreases d.len(),
{
    if d.len() == 0 {
        Ok(acc)
    } else if !is_ascii_digit(d[0]) {
        Err(SizeParseError::InvalidDigit)
    } else if acc * 10 + digit_value(d[0]) > usize::MAX {
        Err(SizeParseError::NumberTooLarge)
    } else {
        accumulate_digits(d.drop_first(), acc * 10 + digit_value(d[0]))
    }
}

/// How `str::parse::<usize>` reads `d`: an optional leading `+`, then at
/// least one decimal digit.
pub open spec fn parse_decimal(d: Seq<char>) -> Result<nat, SizeParseError> {
    if d.len() == 0 {
        Err(SizeParseError::EmptyNumber)
    } else if d.len() == 1 && (d[0] == '+' || d[0] == '-') {
        Err(SizeParseError::InvalidDigit)
    } else if d[0] == '+' {
        accumulate_digits(d.drop_first(), 0)
    } else {
        accumulate_digits(d, 0)
    }
}

/// The bytes per unit that `t` ends with: `KB` or `MB`, in either case.
pub open spec fn unit_suffix(t: Seq<char>) -> Option<nat> {
    if t.len() >= 2 && (t[t.len() - 1] == 'b' || t[t.len() - 1] == 'B') {
        if t[t.len() - 2] == 'k' || t[t.len() - 2] == 'K' {
            Some(1024)
        } else if t[t.len() - 2] == 'm' || t[t.len() - 2] == 'M' {
            Some(1024 * 1024)
        } else {
            None
        }
    } else {
        None
    }
}

/// The bytes that the size `s` denotes: trimmed, a decimal number followed by
/// `KB` or `MB` in either case.
pub open spec fn working_set_size(s: Seq<char>) -> Result<nat, SizeParseError> {
    let t = trim(s);
    match unit_suffix(t) {
        None => Err(SizeParseError::UnknownUnit),
        Some(unit) => match parse_decimal(t.take(t.len() - 2)) {
            Ok(n) => Ok(n * unit),
            Err(e) => Err(e),
        },
    }
}

fn is_whitespace_char(c: char) -> (w: bool)
    ensures
        w == is_unicode_whitespace(c),
{
    ('\u{9}' <= c && c <= '\u{d}') || c == ' ' || c == '\u{85}' || c == '\u{a0}' || c
        == '\u{1680}' || ('\u{2000}' <= c && c <= '\u{200a}') || c == '\u{2028}' || c
        == '\u{2029}' || c == '\u{202f}' || c == '\u{205f}' || c == '\u{3000}'
}

proof fn lemma_leading_whitespace(s: Seq<char>, k: int)
    requires
        0 <= k <= s.len(),
        forall|i: int| 0 <= i < k ==> is_unicode_whitespace(#[trigger] s[i]),
        k == s.len() || !is_unicode_whitespace(s[k]),
    ensures
        leading_whitespace(s) == k,
    decreases k,
{
    if k > 0 {
        let r = s.drop_first();
        assert forall|i: int| 0 <= i < k - 1 implies is_unicode_whitespace(#[trigger] r[i]) by {
            assert(r[i] == s[i + 1]);
        }
        lemma_leading_whitespace(r, k - 1);
    }
}

proof fn lemma_trailing_whitespace(s: Seq<char>, k: int)
    requires
        0 <= k <= s.len(),
        forall|i: int| s.len() - k <= i < s.len() ==> is_unicode_whitespace(#[trigger] s[i]),
        k == s.len() || !is_unicode_whitespace(s[s.len() - 1 - k]),
    ensures
        trailing_whitespace(s) == k,
    decreases k,
{
    if k > 0 {
        let r = s.drop_last();
        assert(is_unicode_whitespace(s[s.len() - 1]));
        assert forall|i: int| r.len() - (k - 1) <= i < r.len() implies is_unicode_whitespace(
            #[trigger] r[i],
        ) by {
            assert(r[i] == s[i]);
        }
        lemma_trailing_whitespace(r, k - 1);
    }
}

/// When `x` and `y` start with a character that is not white space, `d + x`
/// and `d + y` start with the same white space, all of it within `d`.
proof fn lemma_leading_whitespace_within(d: Seq<char>, x: Seq<char>, y: Seq<char>)
    requires
        x.len() >= 1,
        y.len() >= 1,
        !is_unicode_whitespace(x[0]),
        !is_unicode_whitespace(y[0]),
    ensures
        leading_whitespace(d + x) == leading_whitespace(d + y),
        leading_whitespace(d + x) <= d.len(),
    decreases d.len(),
{
    if d.len() == 0 {
        assert(d + x =~= x);
        assert(d + y =~= y);
    } else {
        assert((d + x)[0] == d[0]);
        assert((d + y)[0] == d[0]);
        assert((d + x).drop_first() =~= d.drop_first() + x);
        assert((d + y).drop_first() =~= d.drop_first() + y);
        lemma_leading_whitespace_within(d.drop_first(), x, y);
    }
}

/// A size `d` followed by a two-character unit `u` with no white space:
/// the number is `d` without its leading white space, the unit is `u`'s.
proof fn lemma_size_with_unit(d: Seq<char>, u: Seq<char>)
    requires
        u.len() == 2,
        !is_unicode_whitespace(u[0]),
        !is_unicode_whitespace(u[1]),
    ensures
        leading_whitespace(d + u) <= d.len(),
        working_set_size(d + u) == (match unit_suffix(u) {
            None => Err(SizeParseError::UnknownUnit),
            Some(unit) => match parse_decimal(d.skip(leading_whitespace(d + u) as int)) {
                Ok(n) => Ok(n * unit),
                Err(e) => Err(e),
            },
        }),
{
    lemma_leading_whitespace_within(d, u, u);
    let l = leading_whitespace(d + u) as int;
    let t = (d + u).skip(l);
    assert(t =~= d.skip(l) + u);
    assert(t.last() == u[1]);
    assert(trailing_whitespace(t) == 0);
    assert(t.take(t.len() as int) =~= t);
    assert(trim(d + u) == t);
    assert(t[t.len() - 1] == u[1]);
    assert(t[t.len() - 2] == u[0]);
    assert(unit_suffix(t) == unit_suffix(u));
    assert(t.take(t.len() - 2) =~= d.skip(l));
}

/// The unit of a size may be written in either case, and a size in MB is
/// 1024 times the same number in KB: for any number `d`, `d` followed by `KB`
/// or by `kb` parses alike, and so do `MB` and `mb`; when `d` followed by
/// `KB` parses to `x` bytes, `x` is a whole number of KiB and `d` followed by
/// `MB` parses to `1024 * x`; when it fails, `MB` fails with the same error.
pub proof fn law_size_units(d: Seq<char>)
    ensures
        working_set_size(d + "KB"@) == working_set_size(d + "kb"@),
        working_set_size(d + "MB"@) == working_set_size(d + "mb"@),
        working_set_size(d + "KB"@) matches Ok(x) ==> x % 1024 == 0 && working_set_size(
            d + "MB"@,
        ) == Ok::<nat, SizeParseError>(1024 * x),
        working_set_size(d + "KB"@) matches Err(e) ==> working_set_size(d + "MB"@) == Err::<
            nat,
            SizeParseError,
        >(e),
{
    reveal_strlit("KB");
    reveal_strlit("kb");
    reveal_strlit("MB");
    reveal_strlit("mb");
    lemma_size_with_unit(d, "KB"@);
    lemma_size_with_unit(d, "kb"@);
    lemma_size_with_unit(d, "MB"@);
    lemma_size_with_unit(d, "mb"@);
    lemma_leading_whitespace_within(d, "KB"@, "kb"@);
    lemma_leading_whitespace_within(d, "KB"@, "MB"@);
    lemma_leading_whitespace_within(d, "MB"@, "mb"@);
    assert(unit_suffix("KB"@) == Some(1024nat));
    assert(unit_suffix("MB"@) == Some(1048576nat));
    if let Ok(n) = parse_decimal(d.skip(leading_whitespace(d + "KB"@) as int)) {
        vstd::arithmetic::div_mod::lemma_mod_multiples_basic(n as int, 1024);
        assert(working_set_size(d + "KB"@) == Ok::<nat, SizeParseError>(n * 1024));
        assert(working_set_size(d + "MB"@) == Ok::<nat, SizeParseError>(n * 1048576));
        assert(1024 * (n * 1024) == n * 1048576) by (nonlinear_arith);
    }
}

/// Reads the number written in `chars[start..end]` as `str::parse::<usize>`
/// does; see [`parse_decimal`].
fn parse_decimal_chars(chars: &Vec<char>, start: usize, end: usize) -> (r: Result<
    usize,
    SizeParseError,
>)
    requires
        start <= end <= chars@.len(),
    ensures
        match r {
            Ok(v) => parse_decimal(chars@.subrange(start as int, end as int)) == Ok::<
                nat,
                SizeParseError,
            >(v as nat),
            Err(e) => parse_decimal(chars@.subrange(start as int, end as int)) == Err::<
                nat,
                SizeParseError,
            >(e),
        },
{
    let ghost d = chars@.subrange(start as int, end as int);
    if start == end {
        return Err(SizeParseError::EmptyNumber);
    }
    if end - start == 1 && (chars[start] == '+' || chars[start] == '-') {
        return Err(SizeParseError::InvalidDigit);
    }
    let mut i = start;
    if chars[start] == '+' {
        i = start + 1;
        assert(d.drop_first() =~= chars@.subrange(i as int, end as int));
    } else {
        assert(d =~= chars@.subrange(i as int, end as int));
    }
    let ghost digits = chars@.subrange(i as int, end as int);
    let mut acc: usize = 0;
    while i < end
        invariant
            start <= i <= end <= chars@.len(),
            d == chars@.subrange(start as int, end as int),
            parse_decimal(d) == accumulate_digits(chars@.subrange(i as int, end as int), acc as nat),
        decreases end - i,
    {
        let c = chars[i];
        let ghost rest = chars@.subrange(i as int, end as int);
        assert(rest[0] == c);
        assert(rest.drop_first() =~= chars@.subrange(i + 1, end as int));
        if !('0' <= c && c <= '9') {
            return Err(SizeParseError::InvalidDigit);
        }
        let digit = (c as u32 - '0' as u32) as usize;
        assert(digit == digit_value(c));
        if acc > (usize::MAX - digit) / 10 {
            assert(acc * 10 + digit > usize::MAX) by (nonlinear_arith)
                requires
                    acc > (usize::MAX - digit) / 10,
                    digit <= 9,
            ;
            return Err(SizeParseError::NumberTooLarge);
        }
        assert(acc * 10 + digit <= usize::MAX) by (nonlinear_arith)
            requires
                acc <= (usize::MAX - digit) / 10,
                digit <= 9,
        ;
        acc = acc * 10 + digit;
        i = i + 1;
    }
    assert(chars@.subrange(i as int, end as int) =~= Seq::<char>::empty());
    Ok(acc)
}

/// The inputs on which [`parse_working_set_size`] returns: a size that parses
/// denotes a byte count that fits in a `usize`.
pub open spec fn working_set_size_fits(s: Seq<char>) -> bool {
    working_set_size(s) matches Ok(bytes) ==> bytes <= usize::MAX
}

/// The number and the unit of a size, before they are multiplied.
fn parse_size_parts(size: &str) -> (r: Result<(usize, usize), SizeParseError>)
    ensures
        match r {
            Ok((value, unit)) => working_set_size(size@) == Ok::<nat, SizeParseError>(
                value as nat * unit as nat,
            ),
            Err(e) => working_set_size(size@) == Err::<nat, SizeParseError>(e),
        },
{
    let chars = chars_of(size);
    let n = chars.len();
    let mut lo: usize = 0;
    while lo < n && is_whitespace_char(chars[lo])
        invariant
            lo <= n == chars@.len(),
            forall|i: int| 0 <= i < lo ==> is_unicode_whitespace(#[trigger] chars@[i]),
        decreases n - lo,
    {
        lo = lo + 1;
    }
    proof {
        lemma_leading_whitespace(chars@, lo as int);
    }
    let mut hi: usize = n;
    while hi > lo && is_whitespace_char(chars[hi - 1])
        invariant
            lo <= hi <= n == chars@.len(),
            forall|i: int| hi <= i < n ==> is_unicode_whitespace(#[trigger] chars@[i]),
        decreases hi - lo,
    {
        hi = hi - 1;
    }
    let ghost t = chars@.skip(lo as int);
    proof {
        assert forall|i: int| t.len() - (n - hi) <= i < t.len() implies is_unicode_whitespace(
            #[trigger] t[i],
        ) by {
            assert(t[i] == chars@[lo + i]);
        }
        if hi > lo {
            assert(t[t.len() - 1 - (n - hi)] == chars@[hi - 1]);
        }
        lemma_trailing_whitespace(t, (n - hi) as int);
        assert(trim(size@) =~= chars@.subrange(lo as int, hi as int));
    }
    let ghost trimmed = chars@.subrange(lo as int, hi as int);
    if hi - lo < 2 {
        return Err(SizeParseError::UnknownUnit);
    }
    let last = chars[hi - 1];
    let before = chars[hi - 2];
    assert(trimmed[trimmed.len() - 1] == last);
    assert(trimmed[trimmed.len() - 2] == before);
    let unit: usize = if last == 'b' || last == 'B' {
        if before == 'k' || before == 'K' {
            1024
        } else if before == 'm' || before == 'M' {
            1024 * 1024
        } else {
            return Err(SizeParseError::UnknownUnit);
        }
    } else {
        return Err(SizeParseError::UnknownUnit);
    };
    assert(trimmed.take(trimmed.len() - 2) =~= chars@.subrange(lo as int, hi - 2));
    assert(unit_suffix(trimmed) == Some(unit as nat));
    assert(trim(size@) == trimmed);
    match parse_decimal_chars(&chars, lo, hi - 2) {
        Ok(value) => Ok((value, unit)),
        Err(e) => Err(e),
    }
}


/// Whether the size `size` is one that [`parse_working_set_size`] takes: it
/// does not parse, or the bytes it denotes fit in a `usize`.
pub fn working_set_size_in_range(size: &str) -> (fits: bool)
    ensures
        fits == working_set_size_fits(size@),
{
    match parse_size_parts(size) {
        Ok((value, unit)) => value.checked_mul(unit).is_some(),
        Err(_) => true,
    }
}

/// Parses a working-set size such as `64KB` or `16mb` (surrounding white
/// space ignored) into bytes; see [`working_set_size`].
pub fn parse_working_set_size(size: &str) -> (r: Result<usize, SizeParseError>)
    requires
        working_set_size_fits(size@),
    ensures
        match working_set_size(size@) {
            Ok(bytes) => r == Ok::<usize, SizeParseError>(bytes as usize),
            Err(e) => r == Err::<usize, SizeParseError>(e),
        },
{
    match parse_size_parts(size) {
        Ok((value, unit)) => Ok(value * unit),
        Err(e) => Err(e),
    }
}

} // verus!
