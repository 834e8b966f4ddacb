//! The integer side of a CPU reading: time counters, processor topology and uptime text.
use vstd::prelude::*;
use vstd::string::*;

verus! {

/// `a - b`, or 0 when `b` exceeds `a`.
pub open spec fn sat_diff(a: int, b: int) -> int {
    if a >= b {
        a - b
    } else {
        0
    }
}

/// Joins the two halves of a Windows `FILETIME` into one 64-bit count of 100-ns ticks.
pub fn filetime_to_u64(high: u32, low: u32) -> (ticks: u64)
    ensures
        ticks == high * 0x1_0000_0000 + low,
{
    let h = high as u64;
    let l = low as u64;
    assert((h << 32u64) | l == h * 0x1_0000_0000 + l) by (bit_vector)
        requires
            h <= 0xffff_ffff,
            l <= 0xffff_ffff,
    ;
    (h << 32) | l
}

/// Busy and total ticks between two CPU-time samples.
#[derive(Debug, Clone, Copy, PartialEq, Eq, Structural)]
pub struct CpuBusy {
    /// Ticks spent not idle.
    pub busy: u64,
    /// Kernel plus user ticks (kernel time includes idle time).
    pub total: u64,
}

/// The previous system-time sample, against which the next one is measured.
#[derive(Debug, Clone, Copy, PartialEq, Eq, Structural)]
pub struct CpuCounters {
    pub last_idle: u64,
    pub last_kernel: u64,
    pub last_user: u64,
}

impl CpuCounters {
    /// Counters before any sample: all zero.
    pub fn new() -> (c: CpuCounters)
        ensures
            c == (CpuCounters { last_idle: 0, last_kernel: 0, last_user: 0 }),
    {
        CpuCounters { last_idle: 0, last_kernel: 0, last_user: 0 }
    }

    /// Kernel plus user ticks since the previous sample (each difference floored at 0).
    pub open spec fn spec_total(self, kernel: u64, user: u64) -> int {
        sat_diff(kernel as int, self.last_kernel as int) + sat_diff(user as int, self.last_user as int)
    }

    /// What a sample of `idle`, `kernel` and `user` ticks shows against these counters:
    /// `None` when no time has passed.
    pub open spec fn spec_busy(self, idle: u64, kernel: u64, user: u64) -> Option<CpuBusy> {
        let total = self.spec_total(kernel, user);
        if total > 0 {
            Some(
                CpuBusy {
                    busy: sat_diff(total, sat_diff(idle as int, self.last_idle as int)) as u64,
                    total: total as u64,
                },
            )
        } else {
            None
        }
    }

    /// Whether the total of a sample fits in 64 bits, as [`CpuCounters::advance`] needs.
    pub fn total_fits(&self, kernel: u64, user: u64) -> (fits: bool)
        ensures
            fits == (self.spec_total(kernel, user) <= u64::MAX),
    {
        kernel.saturating_sub(self.last_kernel).checked_add(user.saturating_sub(self.last_user)).is_some()
    }

    /// Measures a new sample against the previous one and keeps it as the new reference.
    pub fn advance(&mut self, idle: u64, kernel: u64, user: u64) -> (busy: Option<CpuBusy>)
        requires
            old(self).spec_total(kernel, user) <= u64::MAX,
        ensures
            busy == old(self).spec_busy(idle, kernel, user),
            *final(self) == (CpuCounters { last_idle: idle, last_kernel: kernel, last_user: user }),
    {
        let idle_diff = idle.saturating_sub(self.last_idle);
        let kernel_diff = kernel.saturating_sub(self.last_kernel);
        let user_diff = user.saturating_sub(self.last_user);
        let total_diff = kernel_diff + user_diff;
        let result = if total_diff > 0 {
            Some(CpuBusy { busy: total_diff.saturating_sub(idle_diff), total: total_diff })
        } else {
            None
        };
        self.last_idle = idle;
        self.last_kernel = kernel;
        self.last_user = user;
        result
    }
}

/// Measuring a sample against itself shows no elapsed time, and busy time never
/// exceeds total time.
pub proof fn law_cpu_counters(c: CpuCounters, idle: u64, kernel: u64, user: u64)
    requires
        c.spec_total(kernel, user) <= u64::MAX,
    ensures
        (CpuCounters { last_idle: idle, last_kernel: kernel, last_user: user }).spec_busy(
            idle,
            kernel,
            user,
        ) is None,
        c.spec_busy(idle, kernel, user) matches Some(b) ==> b.busy <= b.total,
{
}

/// Whether an entry is a cache of `level`.
pub open spec fn is_cache_of(level: u8) -> spec_fn(ProcessorRelation) -> bool {
    |r: ProcessorRelation| r matches ProcessorRelation::Cache { level: l, .. } && l == level
}

/// The size of an entry that is a cache of `level`.
pub open spec fn cache_size_of(level: u8) -> spec_fn(ProcessorRelation) -> Option<u32> {
    |r: ProcessorRelation|
        match r {
            ProcessorRelation::Cache { level: l, size } => if l == level {
                Some(size)
            } else {
                None
            },
            _ => None,
        }
}

/// Every cache entry of a level is kept, in entry order: the sizes of the caches of
/// `level` are the sizes of exactly those entries that are caches of `level`, and
/// there are as many as there are such entries.
pub proof fn law_cache_sizes_keep_every_entry(s: Seq<ProcessorRelation>, level: u8)
    ensures
        cache_sizes(s, level) == s.filter_map(cache_size_of(level)),
        cache_sizes(s, level).len() == s.filter(is_cache_of(level)).len(),
    decreases s.len(),
{
    reveal_with_fuel(Seq::<_>::filter, 1);
    if s.len() > 0 {
        law_cache_sizes_keep_every_entry(s.drop_last(), level);
    }
}

/// Sockets and cores are the numbers of package and core entries.
pub proof fn law_counts_are_entry_counts(s: Seq<ProcessorRelation>)
    ensures
        count_packages(s) == s.filter(|r: ProcessorRelation| r is ProcessorPackage).len(),
        count_cores(s) == s.filter(|r: ProcessorRelation| r is ProcessorCore).len(),
    decreases s.len(),
{
    reveal_with_fuel(Seq::<_>::filter, 1);
    if s.len() > 0 {
        law_counts_are_entry_counts(s.drop_last());
    }
}

/// Tallying two runs of entries one after the other is tallying each and joining
/// the results: counts add up and cache sizes are concatenated.
pub proof fn law_topology_of_concatenation(a: Seq<ProcessorRelation>, b: Seq<ProcessorRelation>, level: u8)
    ensures
        count_packages(a + b) == count_packages(a) + count_packages(b),
        count_cores(a + b) == count_cores(a) + count_cores(b),
        cache_sizes(a + b, level) == cache_sizes(a, level) + cache_sizes(b, level),
    decreases b.len(),
{
    if b.len() == 0 {
        assert(a + b =~= a);
        assert(cache_sizes(a, level) + cache_sizes(b, level) =~= cache_sizes(a, level));
    } else {
        law_topology_of_concatenation(a, b.drop_last(), level);
        assert((a + b).drop_last() =~= a + b.drop_last());
        assert((a + b).last() == b.last());
        assert(cache_sizes(a, level) + cache_sizes(b.drop_last(), level).push(b.last()->size)
            =~= (cache_sizes(a, level) + cache_sizes(b.drop_last(), level)).push(b.last()->size));
    }
}

/// Adding a cache entry of `level` adds its size at the end of that level's sizes.
pub proof fn law_cache_entry_is_added(s: Seq<ProcessorRelation>, level: u8, size: u32)
    ensures
        cache_sizes(s.push(ProcessorRelation::Cache { level, size }), level) == cache_sizes(s, level).push(
            size,
        ),
{
    assert(s.push(ProcessorRelation::Cache { level, size }).drop_last() =~= s);
}

/// For counters that only grow, the total is the kernel ticks plus the user ticks
/// since the previous sample, and the busy ticks are that total less the idle ticks
/// (kernel time includes idle time), or 0 when idle exceeds it.
pub proof fn law_cpu_busy_is_total_minus_idle(c: CpuCounters, idle: u64, kernel: u64, user: u64)
    requires
        idle >= c.last_idle,
        kernel >= c.last_kernel,
        user >= c.last_user,
        c.spec_total(kernel, user) <= u64::MAX,
    ensures
        c.spec_total(kernel, user) == (kernel - c.last_kernel) + (user - c.last_user),
        (kernel - c.last_kernel) + (user - c.last_user) > 0 ==> (c.spec_busy(idle, kernel, user)
            matches Some(b) && b.total == (kernel - c.last_kernel) + (user - c.last_user) && (if idle
            - c.last_idle <= b.total {
            b.busy + (idle - c.last_idle) == b.total
        } else {
            b.busy == 0
        })),
        (kernel - c.last_kernel) + (user - c.last_user) == 0 ==> c.spec_busy(idle, kernel, user) is None,
{
}

/// Totals add up: for counters that only grow, the total from `a` to `b` plus that
/// from `b` to `c` is the total from `a` to `c`.
pub proof fn law_cpu_totals_add_up(a: CpuCounters, b: CpuCounters, c: CpuCounters)
    requires
        a.last_kernel <= b.last_kernel <= c.last_kernel,
        a.last_user <= b.last_user <= c.last_user,
    ensures
        a.spec_total(b.last_kernel, b.last_user) + b.spec_total(c.last_kernel, c.last_user)
            == a.spec_total(c.last_kernel, c.last_user),
{
}

/// How many processor-power entries to ask for: one per logical processor, at least one.
pub fn power_query_count(logical_processors: u8) -> (count: usize)
    ensures
        count == (if logical_processors == 0 { 1 } else { logical_processors as int }),
{
    if logical_processors == 0 {
        1
    } else {
        logical_processors as usize
    }
}

/// One entry of the logical-processor information the OS reports.
#[derive(Debug, Clone, Copy, PartialEq, Eq, Structural)]
pub enum ProcessorRelation {
    /// A physical package (socket).
    ProcessorPackage,
    /// A physical core.
    ProcessorCore,
    /// A cache of the given level and size in bytes.
    Cache { level: u8, size: u32 },
    /// Any other relationship.
    Other,
}

/// Number of package entries.
pub open spec fn count_packages(s: Seq<ProcessorRelation>) -> nat
    decreases s.len(),
{
    if s.len() == 0 {
        0
    } else {
        count_packages(s.drop_last()) + if s.last() is ProcessorPackage {
            1nat
        } else {
            0nat
        }
    }
}

/// Number of core entries.
pub open spec fn count_cores(s: Seq<ProcessorRelation>) -> nat
    decreases s.len(),
{
    if s.len() == 0 {
        0
    } else {
        count_cores(s.drop_last()) + if s.last() is ProcessorCore {
            1nat
        } else {
            0nat
        }
    }
}

/// Sizes of the caches of `level`, in entry order.
pub open spec fn cache_sizes(s: Seq<ProcessorRelation>, level: u8) -> Seq<u32>
    decreases s.len(),
{
    if s.len() == 0 {
        Seq::empty()
    } else {
        match s.last() {
            ProcessorRelation::Cache { level: l, size } => if l == level {
                cache_sizes(s.drop_last(), level).push(size)
            } else {
                cache_sizes(s.drop_last(), level)
            },
            _ => cache_sizes(s.drop_last(), level),
        }
    }
}

/// Sockets, cores and cache sizes counted from the logical-processor information.
#[derive(Debug, Clone, PartialEq, Eq)]
pub struct ProcessorTopology {
    pub sockets: u8,
    pub cores: u16,
    /// Sizes in bytes of the level-1 caches.
    pub l1_sizes: Vec<u32>,
    /// Sizes in bytes of the level-2 caches.
    pub l2_sizes: Vec<u32>,
    /// Sizes in bytes of the level-3 caches.
    pub l3_sizes: Vec<u32>,
}

/// Counts sockets and cores and collects cache sizes by level (caches of other
/// levels are left out). Returns `None` exactly when there are more than 255
/// packages or more than 65535 cores, which the 8- and 16-bit counts cannot hold.
pub fn tally_processor_topology(entries: &[ProcessorRelation]) -> (topology: Option<ProcessorTopology>)
    ensures
        topology is None <==> (count_packages(entries@) > u8::MAX || count_cores(entries@) > u16::MAX),
        topology matches Some(t) ==> {
            &&& t.sockets == count_packages(entries@)
            &&& t.cores == count_cores(entries@)
            &&& t.l1_sizes@ == cache_sizes(entries@, 1)
            &&& t.l2_sizes@ == cache_sizes(entries@, 2)
            &&& t.l3_sizes@ == cache_sizes(entries@, 3)
        },
{
    let mut sockets: u8 = 0;
    let mut cores: u16 = 0;
    let mut l1: Vec<u32> = Vec::new();
    let mut l2: Vec<u32> = Vec::new();
    let mut l3: Vec<u32> = Vec::new();
    let mut i: usize = 0;
    let mut overflow = false;
    while i < entries.len()
        invariant
            i <= entries@.len(),
            !overflow ==> sockets == count_packages(entries@.subrange(0, i as int)),
            !overflow ==> cores == count_cores(entries@.subrange(0, i as int)),
            l1@ == cache_sizes(entries@.subrange(0, i as int), 1),
            l2@ == cache_sizes(entries@.subrange(0, i as int), 2),
            l3@ == cache_sizes(entries@.subrange(0, i as int), 3),
            overflow ==> (count_packages(entries@.subrange(0, i as int)) > u8::MAX || count_cores(
                entries@.subrange(0, i as int),
            ) > u16::MAX),
        decreases entries@.len() - i,
    {
        let ghost prev = entries@.subrange(0, i as int);
        let ghost next = entries@.subrange(0, i + 1);
        assert(next.drop_last() =~= prev);
        assert(next.last() == entries@[i as int]);
        match entries[i] {
            ProcessorRelation::ProcessorPackage => {
                if !overflow {
                    if sockets == u8::MAX {
                        overflow = true;
                    } else {
                        sockets = sockets + 1;
                    }
                }
            },
            ProcessorRelation::ProcessorCore => {
                if !overflow {
                    if cores == u16::MAX {
                        overflow = true;
                    } else {
                        cores = cores + 1;
                    }
                }
            },
            ProcessorRelation::Cache { level, size } => {
                if level == 1 {
                    l1.push(size);
                } else if level == 2 {
                    l2.push(size);
                } else if level == 3 {
                    l3.push(size);
                }
            },
            ProcessorRelation::Other => {},
        }
        proof {
            lemma_counts_grow(entries@, i as int);
        }
        i = i + 1;
    }
    assert(entries@.subrange(0, entries@.len() as int) =~= entries@);
    if overflow {
        None
    } else {
        Some(ProcessorTopology { sockets, cores, l1_sizes: l1, l2_sizes: l2, l3_sizes: l3 })
    }
}

proof fn lemma_counts_grow(s: Seq<ProcessorRelation>, i: int)
    requires
        0 <= i < s.len(),
    ensures
        count_packages(s.subrange(0, i)) <= count_packages(s.subrange(0, i + 1)),
        count_cores(s.subrange(0, i)) <= count_cores(s.subrange(0, i + 1)),
{
    assert(s.subrange(0, i + 1).drop_last() =~= s.subrange(0, i));
}

/// The character for a decimal digit.
pub open spec fn digit_char(d: nat) -> char {
    if d == 0 {
        '0'
    } else if d == 1 {
        '1'
    } else if d == 2 {
        '2'
    } else if d == 3 {
        '3'
    } else if d == 4 {
        '4'
    } else if d == 5 {
        '5'
    } else if d == 6 {
        '6'
    } else if d == 7 {
        '7'
    } else if d == 8 {
        '8'
    } else {
        '9'
    }
}

/// Decimal digits of `n`, without leading zeros.
pub open spec fn decimal(n: nat) -> Seq<char>
    decreases n,
{
    if n < 10 {
        seq![digit_char(n)]
    } else {
        decimal(n / 10).push(digit_char(n % 10))
    }
}

/// Decimal digits of `n`, padded with a leading zero to at least two.
pub open spec fn two_digits(n: nat) -> Seq<char> {
    if n < 10 {
        seq!['0', digit_char(n)]
    } else {
        decimal(n)
    }
}

/// `HH:MM:SS` for a time given in milliseconds (whole seconds; hours may exceed 99).
pub open spec fn spec_uptime_text(ms: nat) -> Seq<char> {
    let secs = ms / 1000;
    two_digits(secs / 3600) + seq![':'] + two_digits((secs % 3600) / 60) + seq![':'] + two_digits(
        secs % 60,
    )
}

fn digit_str(d: u64) -> (text: &'static str)
    requires
        d < 10,
    ensures
        text@ == seq![digit_char(d as nat)],
{
    proof {
        reveal_strlit("0");
        reveal_strlit("1");
        reveal_strlit("2");
        reveal_strlit("3");
        reveal_strlit("4");
        reveal_strlit("5");
        reveal_strlit("6");
        reveal_strlit("7");
        reveal_strlit("8");
        reveal_strlit("9");
    }
    if d == 0 {
        assert("0"@ =~= seq!['0']);
        "0"
    } else if d == 1 {
        assert("1"@ =~= seq!['1']);
        "1"
    } else if d == 2 {
        assert("2"@ =~= seq!['2']);
        "2"
    } else if d == 3 {
        assert("3"@ =~= seq!['3']);
        "3"
    } else if d == 4 {
        assert("4"@ =~= seq!['4']);
        "4"
    } else if d == 5 {
        assert("5"@ =~= seq!['5']);
        "5"
    } else if d == 6 {
        assert("6"@ =~= seq!['6']);
        "6"
    } else if d == 7 {
        assert("7"@ =~= seq!['7']);
        "7"
    } else if d == 8 {
        assert("8"@ =~= seq!['8']);
        "8"
    } else {
        assert("9"@ =~= seq!['9']);
        "9"
    }
}

fn append_decimal(text: &mut String, n: u64)
    ensures
        final(text)@ == old(text)@ + decimal(n as nat),
    decreases n,
{
    if n >= 10 {
        append_decimal(text, n / 10);
    }
    let ghost mid = text@;
    text.append(digit_str(n % 10));
    proof {
        if n >= 10 {
            assert(old(text)@ + decimal((n / 10) as nat) == mid);
            assert(mid + seq![digit_char((n % 10) as nat)] =~= old(text)@ + decimal(n as nat));
        } else {
            assert(text@ =~= old(text)@ + decimal(n as nat));
        }
    }
}

fn append_two_digits(text: &mut String, n: u64)
    ensures
        final(text)@ == old(text)@ + two_digits(n as nat),
{
    if n < 10 {
        proof {
            reveal_strlit("0");
        }
        text.append("0");
        append_decimal(text, n);
        assert(text@ =~= old(text)@ + two_digits(n as nat));
    } else {
        append_decimal(text, n);
    }
}

/// Renders the time since boot as `HH:MM:SS`, each part at least two digits.
pub fn format_uptime(uptime_ms: u64) -> (text: String)
    ensures
        text@ == spec_uptime_text(uptime_ms as nat),
{
    let total_secs = uptime_ms / 1000;
    let h = total_secs / 3600;
    let m = (total_secs % 3600) / 60;
    let s = total_secs % 60;
    let mut text = String::new();
    proof {
        reveal_strlit(":");
    }
    append_two_digits(&mut text, h);
    text.append(":");
    append_two_digits(&mut text, m);
    text.append(":");
    append_two_digits(&mut text, s);
    assert(text@ =~= spec_uptime_text(uptime_ms as nat));
    text
}

/// Value of a decimal digit character (0 for any other character).
pub open spec fn digit_value(c: char) -> int {
    if '0' <= c <= '9' {
        (c as int) - ('0' as int)
    } else {
        0
    }
}

/// The characters are all decimal digits.
pub open spec fn all_digits(s: Seq<char>) -> bool {
    forall|i: int| 0 <= i < s.len() ==> '0' <= #[trigger] s[i] <= '9'
}

/// The number a string of decimal digits spells.
pub open spec fn digits_value(s: Seq<char>) -> int
    decreases s.len(),
{
    if s.len() == 0 {
        0
    } else {
        digits_value(s.drop_last()) * 10 + digit_value(s.last())
    }
}

proof fn lemma_digit_char(d: nat)
    requires
        d < 10,
    ensures
        '0' <= digit_char(d) <= '9',
        digit_value(digit_char(d)) == d,
{
}

/// Decimal digits read back: `decimal(n)` is a non-empty string of digits that spells
/// `n`, with no leading zero unless `n` is 0.
pub proof fn law_decimal_spells_the_number(n: nat)
    ensures
        all_digits(decimal(n)),
        digits_value(decimal(n)) == n,
        decimal(n).len() >= 1,
        n > 0 ==> decimal(n)[0] != '0',
        n < 10 <==> decimal(n).len() == 1,
        10 <= n < 100 ==> decimal(n).len() == 2,
    decreases n,
{
    lemma_digit_char(n % 10);
    if n < 10 {
        assert(decimal(n).drop_last() =~= Seq::<char>::empty());
        assert(digits_value(decimal(n)) == digits_value(Seq::<char>::empty()) * 10 + digit_value(
            digit_char(n),
        ));
    }
    if n >= 10 {
        law_decimal_spells_the_number(n / 10);
        let d = decimal(n / 10);
        assert(decimal(n).drop_last() =~= d);
        assert(decimal(n).last() == digit_char(n % 10));
        assert(digits_value(decimal(n)) == digits_value(d) * 10 + digit_value(digit_char(n % 10)));
        assert forall|i: int| 0 <= i < decimal(n).len() implies '0' <= #[trigger] decimal(n)[i] <= '9' by {
            if i < d.len() {
                assert(decimal(n)[i] == d[i]);
            }
        }
        if n / 10 < 10 {
            assert(decimal(n).len() == 2);
        }
    }
}

/// Each part of the uptime text is at least two digits and spells its number.
pub proof fn law_two_digits_spell_the_number(n: nat)
    ensures
        all_digits(two_digits(n)),
        digits_value(two_digits(n)) == n,
        n < 100 ==> two_digits(n).len() == 2,
        two_digits(n).len() >= 2,
{
    law_decimal_spells_the_number(n);
    if n < 10 {
        lemma_digit_char(n);
        let s = seq!['0', digit_char(n)];
        assert(s.drop_last() =~= seq!['0']);
        assert(seq!['0'].drop_last() =~= Seq::<char>::empty());
        assert(digits_value(seq!['0']) == digits_value(Seq::<char>::empty()) * 10 + digit_value('0'));
        assert(digits_value(s) == digits_value(seq!['0']) * 10 + digit_value(digit_char(n)));
    }
}

/// The uptime text reads back as the time it shows: hours, minutes and seconds
/// separated by colons, minutes and seconds exactly two digits below 60, and
/// `hours * 3600 + minutes * 60 + seconds` the whole seconds in `ms`.
pub proof fn law_uptime_text_reads_back(ms: nat)
    ensures
        exists|h: Seq<char>, m: Seq<char>, sec: Seq<char>|
            #![trigger all_digits(h), all_digits(m), all_digits(sec)]
            {
                &&& spec_uptime_text(ms) == h + seq![':'] + m + seq![':'] + sec
                &&& all_digits(h) && all_digits(m) && all_digits(sec)
                &&& h.len() >= 2 && m.len() == 2 && sec.len() == 2
                &&& digits_value(m) < 60 && digits_value(sec) < 60
                &&& digits_value(h) * 3600 + digits_value(m) * 60 + digits_value(sec) == ms
                    / 1000
            },
{
    let secs = ms / 1000;
    let h = two_digits(secs / 3600);
    let m = two_digits((secs % 3600) / 60);
    let sec = two_digits(secs % 60);
    law_two_digits_spell_the_number(secs / 3600);
    law_two_digits_spell_the_number((secs % 3600) / 60);
    law_two_digits_spell_the_number(secs % 60);
    assert((secs / 3600) * 3600 + ((secs % 3600) / 60) * 60 + secs % 60 == secs) by (nonlinear_arith);
    assert(digits_value(h) * 3600 + digits_value(m) * 60 + digits_value(sec) == ms / 1000);
    assert(all_digits(h) && all_digits(m) && all_digits(sec));
    assert(spec_uptime_text(ms) == h + seq![':'] + m + seq![':'] + sec);
}

} // verus!
