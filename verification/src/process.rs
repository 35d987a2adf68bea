//! Process records, trust tiers, the classifier, and snapshot construction:
//! classifying a sampled process list, sorting it by CPU usage, and folding
//! per-core readings into aggregate statistics.
//!
//! The classifier is a best-effort heuristic over the process name, its pid
//! and its executable path; it is not a security boundary and must never be
//! relied on for sandboxing.

use vstd::prelude::*;
use vstd::string::*;
use crate::text::{
    find_substring, has_substring, lower_seq, to_lower_chars, to_lower_string, chars_of,
};

verus! {

/// Trust tier of a process, in increasing order of permissiveness: a System
/// process is never actionable, a Service process would need confirmation,
/// a User process may be terminated directly.
#[derive(Debug, Clone, Copy, PartialEq, Eq, Structural)]
pub enum ProcessCategory {
    System,
    Service,
    User,
}

/// The display name of a tier.
pub open spec fn spec_category_name(c: ProcessCategory) -> Seq<char> {
    match c {
        ProcessCategory::System => "System"@,
        ProcessCategory::Service => "Service"@,
        ProcessCategory::User => "User"@,
    }
}

/// The ANSI colour index used for a tier: red for System, yellow for
/// Service, green for User.
pub open spec fn spec_category_color(c: ProcessCategory) -> u8 {
    match c {
        ProcessCategory::System => 1,
        ProcessCategory::Service => 3,
        ProcessCategory::User => 2,
    }
}

impl ProcessCategory {
    pub fn as_str(&self) -> (r: &str)
        ensures
            r@ == spec_category_name(*self),
    {
        match self {
            ProcessCategory::System => "System",
            ProcessCategory::Service => "Service",
            ProcessCategory::User => "User",
        }
    }

    pub fn color_code(&self) -> (r: u8)
        ensures
            r == spec_category_color(*self),
    {
        match self {
            ProcessCategory::System => 1,
            ProcessCategory::Service => 3,
            ProcessCategory::User => 2,
        }
    }
}

/// The static denylist of critical process names, already lower-cased.
/// A process whose lower-cased name is listed here is always System tier.
/// Service hosts (svchost) are deliberately not listed: running from the
/// system binaries directory, they fall to the path rule and Service tier.
pub open spec fn spec_denylist() -> Seq<Seq<char>> {
    seq![
        "system"@,
        "registry"@,
        "smss.exe"@,
        "csrss.exe"@,
        "wininit.exe"@,
        "services.exe"@,
        "lsass.exe"@,
        "fontdrvhost.exe"@,
        "memory compression"@,
        "spoolsv.exe"@,
        "winlogon.exe"@,
        "dwm.exe"@,
    ]
}

/// Executable paths under this directory mark a process as Service tier.
pub open spec fn spec_system_dir_marker() -> Seq<char> {
    "\\windows\\system32\\"@
}

/// `classify` as a pure function of the process name, pid and executable
/// path; first matching rule wins.
pub open spec fn spec_categorize(name: Seq<char>, pid: u32, exe: Option<Seq<char>>) -> ProcessCategory {
    if spec_denylist().contains(lower_seq(name)) {
        ProcessCategory::System
    } else if pid <= 4 {
        ProcessCategory::System
    } else if exe matches Some(p) && has_substring(lower_seq(p), spec_system_dir_marker()) {
        ProcessCategory::Service
    } else {
        ProcessCategory::User
    }
}

/// Classifies processes into trust tiers from their name, pid and
/// executable path alone; the rules are fixed at construction.
pub struct Categorizer {
    denylist: Vec<String>,
}

impl Categorizer {
    /// The stored rules are exactly the static ones.
    pub closed spec fn wf(&self) -> bool {
        self.denylist@.map_values(|s: String| s@) == spec_denylist()
    }

    pub fn new() -> (r: Categorizer)
        ensures
            r.wf(),
    {
        let mut denylist: Vec<String> = Vec::new();
        denylist.push(String::from_str("system"));
        denylist.push(String::from_str("registry"));
        denylist.push(String::from_str("smss.exe"));
        denylist.push(String::from_str("csrss.exe"));
        denylist.push(String::from_str("wininit.exe"));
        denylist.push(String::from_str("services.exe"));
        denylist.push(String::from_str("lsass.exe"));
        denylist.push(String::from_str("fontdrvhost.exe"));
        denylist.push(String::from_str("memory compression"));
        denylist.push(String::from_str("spoolsv.exe"));
        denylist.push(String::from_str("winlogon.exe"));
        denylist.push(String::from_str("dwm.exe"));
        let r = Categorizer { denylist };
        proof {
            assert(r.denylist@.map_values(|s: String| s@) =~= spec_denylist());
        }
        r
    }

    /// Whether the lower-cased name is one of the denylisted names.
    fn is_denylisted(&self, name_lower: &String) -> (r: bool)
        requires
            self.wf(),
        ensures
            r == spec_denylist().contains(name_lower@),
    {
        let n: usize = self.denylist.len();
        let mut i: usize = 0;
        while i < n
            invariant
                self.wf(),
                n == self.denylist@.len(),
                i <= n,
                forall|k: int| 0 <= k < i ==> self.denylist@[k]@ != name_lower@,
            decreases n - i,
        {
            if self.denylist[i].eq(name_lower) {
                proof {
                    assert(spec_denylist()[i as int] == name_lower@);
                }
                return true;
            }
            i = i + 1;
        }
        proof {
            assert forall|k: int| 0 <= k < spec_denylist().len()
                implies #[trigger] spec_denylist()[k] != name_lower@ by {
                assert(spec_denylist()[k] == self.denylist@[k]@);
            }
        }
        false
    }

    /// Assigns a trust tier from the process name, pid and executable path.
    /// Total and deterministic: the result is a pure function of the three
    /// arguments, stated by `spec_categorize`.
    pub fn categorize(&self, name: &str, pid: u32, exe_path: Option<&str>) -> (c: ProcessCategory)
        requires
            self.wf(),
        ensures
            c == spec_categorize(
                name@,
                pid,
                match exe_path {
                    Some(p) => Some(p@),
                    None => None,
                },
            ),
    {
        let name_lower = to_lower_string(name);
        if self.is_denylisted(&name_lower) {
            return ProcessCategory::System;
        }
        if pid <= 4 {
            return ProcessCategory::System;
        }
        if let Some(p) = exe_path {
            let path_lower = to_lower_chars(p);
            let marker = chars_of("\\windows\\system32\\");
            if find_substring(&path_lower, &marker) {
                return ProcessCategory::Service;
            }
        }
        ProcessCategory::User
    }
}

/// Classification ignores the name and path once the pid is in the range
/// reserved for the kernel and idle processes: any pid of at most 4 is
/// System tier, whatever the other fields hold.
pub proof fn lemma_low_pid_is_system(name: Seq<char>, pid: u32, exe: Option<Seq<char>>)
    requires
        pid <= 4,
    ensures
        spec_categorize(name, pid, exe) == ProcessCategory::System,
{
}

/// One process as shown to the operator. `cpu_usage` is in hundredths of a
/// percent of one core's capacity; `memory` is in bytes.
pub struct ProcessData {
    pub pid: u32,
    pub name: String,
    pub memory: u64,
    pub cpu_usage: u64,
    pub category: ProcessCategory,
}

/// Aggregate system statistics for one sampling cycle. `cpu_usage` is the
/// mean per-core utilisation in hundredths of a percent; memory is in bytes,
/// uptime in seconds.
#[derive(Debug, Clone)]
pub struct GlobalStats {
    pub total_memory: u64,
    pub used_memory: u64,
    pub cpu_usage: u64,
    pub uptime: u64,
}

/// One raw process record as the OS enumeration hands it over: not yet
/// classified, in enumeration order. `cpu_usage` is in hundredths of a
/// percent.
pub struct ProcessSample {
    pub pid: u32,
    pub name: String,
    pub memory: u64,
    pub cpu_usage: u64,
    pub exe_path: Option<String>,
}

/// The list is ordered by CPU usage, highest first.
pub open spec fn sorted_desc(s: Seq<ProcessData>) -> bool {
    forall|i: int, j: int| 0 <= i < j < s.len() ==> s[i].cpu_usage >= s[j].cpu_usage
}

/// Stable descending insertion: `x` goes after every element with CPU usage
/// at least its own, so elements with equal usage keep their previous order.
pub open spec fn spec_insert_desc(s: Seq<ProcessData>, x: ProcessData) -> Seq<ProcessData>
    decreases s.len(),
{
    if s.len() == 0 {
        seq![x]
    } else if s[0].cpu_usage >= x.cpu_usage {
        seq![s[0]] + spec_insert_desc(s.drop_first(), x)
    } else {
        seq![x] + s
    }
}

/// Stable insertion sort by CPU usage, highest first: elements are inserted
/// in their original order, so equal usages keep the enumeration order.
pub open spec fn spec_sort_desc(s: Seq<ProcessData>) -> Seq<ProcessData>
    decreases s.len(),
{
    if s.len() == 0 {
        Seq::empty()
    } else {
        spec_insert_desc(spec_sort_desc(s.drop_last()), s.last())
    }
}

/// The position at which `spec_insert_desc` places `x`: the first index
/// whose element has CPU usage below that of `x`.
pub open spec fn spec_insert_point(s: Seq<ProcessData>, x: ProcessData) -> int
    decreases s.len(),
{
    if s.len() == 0 {
        0
    } else if s[0].cpu_usage >= x.cpu_usage {
        1 + spec_insert_point(s.drop_first(), x)
    } else {
        0
    }
}

/// Where the new element lands: after every element with CPU usage at least
/// its own and before the rest. This pins the treatment of equal usages:
/// the element inserted later stands after the ones already present.
pub proof fn lemma_insert_desc_at_point(s: Seq<ProcessData>, x: ProcessData)
    ensures
        0 <= spec_insert_point(s, x) <= s.len(),
        forall|k: int|
            0 <= k < spec_insert_point(s, x) ==> s[k].cpu_usage >= x.cpu_usage,
        spec_insert_point(s, x) < s.len() ==> s[spec_insert_point(s, x)].cpu_usage
            < x.cpu_usage,
        spec_insert_desc(s, x) == s.insert(spec_insert_point(s, x), x),
    decreases s.len(),
{
    let p = spec_insert_point(s, x);
    if s.len() == 0 {
        assert(spec_insert_desc(s, x) =~= s.insert(0, x));
    } else if s[0].cpu_usage >= x.cpu_usage {
        lemma_insert_desc_at_point(s.drop_first(), x);
        assert forall|k: int| 0 <= k < p implies s[k].cpu_usage >= x.cpu_usage by {
            if k > 0 {
                assert(s.drop_first()[k - 1] == s[k]);
            }
        }
        assert(spec_insert_desc(s, x) =~= s.insert(p, x));
    } else {
        assert(spec_insert_desc(s, x) =~= s.insert(0, x));
    }
}

/// The sorted list is ordered by CPU usage, highest first.
pub proof fn lemma_sort_desc_sorted(s: Seq<ProcessData>)
    ensures
        sorted_desc(spec_sort_desc(s)),
    decreases s.len(),
{
    if s.len() > 0 {
        lemma_sort_desc_sorted(s.drop_last());
        let t = spec_sort_desc(s.drop_last());
        let x = s.last();
        let p = spec_insert_point(t, x);
        lemma_insert_desc_at_point(t, x);
        t.insert_ensures(p, x);
        let r = spec_sort_desc(s);
        assert forall|i: int, j: int| 0 <= i < j < r.len() implies r[i].cpu_usage
            >= r[j].cpu_usage by {
            if j < p {
                assert(r[i] == t[i] && r[j] == t[j]);
            } else if i < p && j == p {
                assert(r[i] == t[i] && r[j] == x);
            } else if i < p && j > p {
                assert(r[i] == t[i] && r[j] == t[j - 1]);
            } else if i == p && j > p {
                assert(r[i] == x && r[j] == t[j - 1]);
            } else {
                assert(r[i] == t[i - 1] && r[j] == t[j - 1]);
            }
        }
    }
}

/// Sorting does not change the number of records.
pub proof fn lemma_sort_desc_len(s: Seq<ProcessData>)
    ensures
        spec_sort_desc(s).len() == s.len(),
    decreases s.len(),
{
    if s.len() > 0 {
        lemma_sort_desc_len(s.drop_last());
        lemma_insert_desc_at_point(spec_sort_desc(s.drop_last()), s.last());
    }
}

/// The sorted list holds exactly the given records: sorting permutes and
/// neither drops nor invents an entry.
pub proof fn lemma_sort_desc_permutation(s: Seq<ProcessData>)
    ensures
        spec_sort_desc(s).to_multiset() == s.to_multiset(),
    decreases s.len(),
{
    broadcast use vstd::seq_lib::group_to_multiset_ensures;

    if s.len() == 0 {
        assert(spec_sort_desc(s).to_multiset() =~= s.to_multiset());
    } else {
        lemma_sort_desc_permutation(s.drop_last());
        let t = spec_sort_desc(s.drop_last());
        let x = s.last();
        let p = spec_insert_point(t, x);
        lemma_insert_desc_at_point(t, x);
        let r = spec_sort_desc(s);
        assert(r == t.subrange(0, p).push(x) + t.subrange(p, t.len() as int));
        vstd::seq_lib::lemma_multiset_commutative(
            t.subrange(0, p).push(x),
            t.subrange(p, t.len() as int),
        );
        vstd::seq_lib::lemma_multiset_commutative(t.subrange(0, p), t.subrange(p, t.len() as int));
        assert(t.subrange(0, p) + t.subrange(p, t.len() as int) =~= t);
        assert(t.subrange(0, p).push(x).to_multiset() =~= t.subrange(0, p).to_multiset().insert(
            x,
        ));
        assert(r.to_multiset() =~= t.to_multiset().insert(x));
        assert(s.drop_last().push(x) =~= s);
        assert(s.to_multiset() =~= s.drop_last().to_multiset().insert(x));
    }
}

/// The predicate selecting records with exactly this CPU usage.
pub open spec fn cpu_is(c: u64) -> spec_fn(ProcessData) -> bool {
    |p: ProcessData| p.cpu_usage == c
}

proof fn lemma_filter_push(q: Seq<ProcessData>, x: ProcessData, pred: spec_fn(ProcessData) -> bool)
    ensures
        q.push(x).filter(pred) == if pred(x) {
            q.filter(pred).push(x)
        } else {
            q.filter(pred)
        },
{
    reveal(Seq::filter);
    assert(q.push(x).drop_last() =~= q);
    assert(q.push(x).last() == x);
}

proof fn lemma_filter_none(q: Seq<ProcessData>, pred: spec_fn(ProcessData) -> bool)
    requires
        forall|i: int| 0 <= i < q.len() ==> !pred(q[i]),
    ensures
        q.filter(pred) == Seq::<ProcessData>::empty(),
    decreases q.len(),
{
    reveal(Seq::filter);
    if q.len() > 0 {
        lemma_filter_none(q.drop_last(), pred);
    }
}

/// Sorting is stable: for every usage value, the records carrying exactly
/// that usage come out in the same order they went in.
pub proof fn lemma_sort_desc_stable(s: Seq<ProcessData>, c: u64)
    ensures
        spec_sort_desc(s).filter(cpu_is(c)) == s.filter(cpu_is(c)),
    decreases s.len(),
{
    broadcast use vstd::prelude::Seq::filter_distributes_over_add;

    let pred = cpu_is(c);
    if s.len() == 0 {
    } else {
        let dl = s.drop_last();
        let x = s.last();
        lemma_sort_desc_stable(dl, c);
        lemma_sort_desc_sorted(dl);
        let t = spec_sort_desc(dl);
        let p = spec_insert_point(t, x);
        lemma_insert_desc_at_point(t, x);
        let front = t.subrange(0, p);
        let back = t.subrange(p, t.len() as int);
        let r = spec_sort_desc(s);
        assert(r == front.push(x) + back);
        assert(t =~= front + back);
        lemma_filter_push(front, x, pred);
        assert(s =~= dl.push(x));
        lemma_filter_push(dl, x, pred);
        assert((front.push(x) + back).filter(pred) == front.push(x).filter(pred) + back.filter(
            pred,
        ));
        assert((front + back).filter(pred) == front.filter(pred) + back.filter(pred));
        if pred(x) {
            assert forall|k: int| 0 <= k < back.len() implies !pred(back[k]) by {
                if p < t.len() {
                    assert(back[k] == t[p + k]);
                    assert(t[p + k].cpu_usage <= t[p].cpu_usage);
                }
            }
            lemma_filter_none(back, pred);
            assert(r.filter(pred) == front.filter(pred).push(x) + back.filter(pred));
            assert(front.filter(pred).push(x) + back.filter(pred) =~= front.filter(pred).push(
                x,
            ));
            assert(t.filter(pred) == front.filter(pred) + back.filter(pred));
            assert(front.filter(pred) + back.filter(pred) =~= front.filter(pred));
            assert(r.filter(pred) == t.filter(pred).push(x));
        } else {
            assert(r.filter(pred) == front.filter(pred) + back.filter(pred));
            assert(r.filter(pred) == t.filter(pred));
        }
    }
}

/// Sorts process records by CPU usage, highest first; records with equal
/// usage keep their relative order.
pub fn sort_by_cpu_desc(v: Vec<ProcessData>) -> (r: Vec<ProcessData>)
    ensures
        r@ == spec_sort_desc(v@),
        r@.len() == v@.len(),
        sorted_desc(r@),
{
    let ghost orig = v@;
    let mut rest = v;
    let mut out: Vec<ProcessData> = Vec::new();
    while rest.len() > 0
        invariant
            rest@.len() <= orig.len(),
            orig.skip(orig.len() - rest@.len()) == rest@,
            out@ == spec_sort_desc(orig.take(orig.len() - rest@.len())),
        decreases rest@.len(),
    {
        let ghost done = orig.len() - rest@.len();
        let x = rest.remove(0);
        proof {
            assert(x == orig[done]);
            assert(orig.skip(done + 1) =~= rest@);
        }
        let cpu = x.cpu_usage;
        let mut j: usize = 0;
        while j < out.len() && out[j].cpu_usage >= cpu
            invariant
                j <= out@.len(),
                forall|k: int| 0 <= k < j ==> out@[k].cpu_usage >= cpu,
            decreases out@.len() - j,
        {
            j = j + 1;
        }
        proof {
            lemma_insert_desc_at_point(out@, x);
            let p = spec_insert_point(out@, x);
            assert(j == p) by {
                if j < p {
                    assert(out@[j as int].cpu_usage >= x.cpu_usage);
                } else if p < j {
                    assert(out@[p].cpu_usage >= cpu);
                }
            }
        }
        out.insert(j, x);
        proof {
            let prefix = orig.take(done);
            assert(prefix.push(x) =~= orig.take(done + 1));
            assert(orig.take(done + 1).drop_last() =~= prefix);
            assert(out@ == spec_sort_desc(orig.take(done + 1)));
        }
    }
    proof {
        assert(orig.take(orig.len() as int) =~= orig);
        lemma_sort_desc_sorted(orig);
        lemma_sort_desc_len(orig);
    }
    out
}

/// The sum of a sequence of readings, as an unbounded integer.
pub open spec fn spec_sum(s: Seq<u64>) -> int
    decreases s.len(),
{
    if s.len() == 0 {
        0
    } else {
        spec_sum(s.drop_last()) + s.last()
    }
}

/// The mean of a sequence of readings, zero when there are none.
pub open spec fn spec_mean(s: Seq<u64>) -> u64 {
    if s.len() == 0 {
        0
    } else {
        (spec_sum(s) / s.len() as int) as u64
    }
}

proof fn lemma_sum_bounds(s: Seq<u64>)
    ensures
        0 <= spec_sum(s) <= s.len() * 0xffff_ffff_ffff_ffff,
    decreases s.len(),
{
    if s.len() > 0 {
        lemma_sum_bounds(s.drop_last());
    }
}

/// The mean per-core reading: the floor of sum over count, zero when no
/// cores were reported.
pub fn mean_reading(v: &Vec<u64>) -> (r: u64)
    ensures
        r == spec_mean(v@),
{
    let n: usize = v.len();
    if n == 0 {
        return 0;
    }
    let mut sum: u128 = 0;
    let mut i: usize = 0;
    while i < n
        invariant
            n == v@.len(),
            i <= n,
            sum == spec_sum(v@.take(i as int)),
            sum <= i * 0xffff_ffff_ffff_ffff,
        decreases n - i,
    {
        proof {
            assert(v@.take(i + 1).drop_last() =~= v@.take(i as int));
        }
        sum = sum + v[i] as u128;
        i = i + 1;
    }
    proof {
        assert(v@.take(n as int) =~= v@);
        lemma_sum_bounds(v@);
        assert(spec_sum(v@) / (n as int) <= 0xffff_ffff_ffff_ffff) by (nonlinear_arith)
            requires
                0 < n,
                0 <= spec_sum(v@) <= n * 0xffff_ffff_ffff_ffff,
        ;
    }
    (sum / n as u128) as u64
}

/// The record shown for one raw sample: the same fields, with the tier the
/// classifier assigns.
pub open spec fn spec_classified(s: ProcessSample) -> ProcessData {
    ProcessData {
        pid: s.pid,
        name: s.name,
        memory: s.memory,
        cpu_usage: s.cpu_usage,
        category: spec_categorize(
            s.name@,
            s.pid,
            match s.exe_path {
                Some(p) => Some(p@),
                None => None,
            },
        ),
    }
}

/// One sampling cycle's computation: classifies every raw record, sorts the
/// list by CPU usage (highest first, enumeration order kept for equal
/// usages), and folds the per-core readings into aggregate statistics.
pub fn collect_processes(
    samples: Vec<ProcessSample>,
    categorizer: &Categorizer,
    total_memory: u64,
    used_memory: u64,
    per_core_cpu: &Vec<u64>,
    uptime: u64,
) -> (r: (Vec<ProcessData>, GlobalStats))
    requires
        categorizer.wf(),
    ensures
        r.0@ == spec_sort_desc(samples@.map_values(|s: ProcessSample| spec_classified(s))),
        r.0@.len() == samples@.len(),
        sorted_desc(r.0@),
        r.1 == (GlobalStats {
            total_memory,
            used_memory,
            cpu_usage: spec_mean(per_core_cpu@),
            uptime,
        }),
{
    let ghost orig = samples@;
    let mut rest = samples;
    let mut classified: Vec<ProcessData> = Vec::new();
    while rest.len() > 0
        invariant
            categorizer.wf(),
            rest@.len() <= orig.len(),
            orig.skip(orig.len() - rest@.len()) == rest@,
            classified@ == orig.take(orig.len() - rest@.len()).map_values(
                |s: ProcessSample| spec_classified(s),
            ),
        decreases rest@.len(),
    {
        let ghost done = orig.len() - rest@.len();
        let s = rest.remove(0);
        proof {
            assert(s == orig[done]);
            assert(orig.skip(done + 1) =~= rest@);
        }
        let category = match &s.exe_path {
            Some(p) => categorizer.categorize(s.name.as_str(), s.pid, Some(p.as_str())),
            None => categorizer.categorize(s.name.as_str(), s.pid, None),
        };
        classified.push(
            ProcessData { pid: s.pid, name: s.name, memory: s.memory, cpu_usage: s.cpu_usage, category },
        );
        proof {
            assert(classified@ =~= orig.take(done + 1).map_values(
                |s: ProcessSample| spec_classified(s),
            ));
        }
    }
    proof {
        assert(orig.take(orig.len() as int) =~= orig);
    }
    let sorted = sort_by_cpu_desc(classified);
    let cpu_usage = mean_reading(per_core_cpu);
    (sorted, GlobalStats { total_memory, used_memory, cpu_usage, uptime })
}

} // verus!
