//! The advisory rules: what a snapshot of the process table gives rise to.

use vstd::prelude::*;
use crate::decimal::{append_signed_decimal, signed_decimal};
use crate::models::{ProcRow, ProcRowView, Suggestion, SuggestionText, Thresholds, PERCENT_SCALE};
use crate::text::{chars_of, contains_chars, contains_seq};
use crate::util::{fmt_bytes, fmt_bytes_text, fmt_percent, percent_text};

verus! {

/// Index of the first of the largest values of `keys`; zero for an empty sequence.
pub open spec fn first_max(keys: Seq<u64>) -> int
    decreases keys.len(),
{
    if keys.len() <= 1 {
        0
    } else {
        let before = first_max(keys.drop_last());
        if keys.last() > keys[before] {
            keys.len() - 1
        } else {
            before
        }
    }
}

/// The CPU load of each row, in order.
pub open spec fn cpu_keys(rows: Seq<ProcRowView>) -> Seq<u64> {
    Seq::new(rows.len(), |i: int| rows[i].cpu)
}

/// The resident memory of each row, in order.
pub open spec fn mem_keys(rows: Seq<ProcRowView>) -> Seq<u64> {
    Seq::new(rows.len(), |i: int| rows[i].mem_bytes)
}

/// The advisory that names the busiest process.
pub open spec fn high_cpu_text(row: ProcRowView) -> SuggestionText {
    SuggestionText {
        title: "High CPU: "@ + row.name + " at "@ + percent_text(row.cpu) + "%"@,
        detail: "Consider suspending or killing PID "@ + signed_decimal(row.pid as int)
            + " if it's misbehaving."@,
    }
}

/// The advisory that names the process with the most resident memory.
pub open spec fn memory_text(row: ProcRowView) -> SuggestionText {
    SuggestionText {
        title: "Memory pressure: "@ + row.name + " using "@ + fmt_bytes_text(row.mem_bytes as nat),
        detail: "Close unused apps or lower priority of PID "@ + signed_decimal(row.pid as int)
            + "."@,
    }
}

/// The advisory for a process that holds much memory and does nothing.
pub open spec fn idle_hog_text(row: ProcRowView) -> SuggestionText {
    SuggestionText {
        title: "Idle hog: "@ + row.name + " holding "@ + fmt_bytes_text(row.mem_bytes as nat),
        detail: "You could lower its priority or close it. PID "@ + signed_decimal(
            row.pid as int,
        ),
    }
}

/// Whether a process is idle and heavy: its load and its combined I/O rate
/// are below their limits and its resident memory is above its limit.
pub open spec fn is_idle_hog(row: ProcRowView, limits: Thresholds) -> bool {
    &&& row.cpu < limits.idle_cpu
    &&& row.read_bps + row.write_bps < limits.idle_io_bps
    &&& row.mem_bytes > limits.heavy_mem_bytes
}

/// Whether a load in thousandths of a percent exceeds a limit in whole percent.
pub open spec fn exceeds(value: u64, limit_percent: u8) -> bool {
    value > limit_percent * PERCENT_SCALE
}

/// What the high-CPU rule gives: one advisory for the first of the busiest
/// rows where the total load exceeds its limit, else nothing.
pub open spec fn high_cpu_advice(rows: Seq<ProcRowView>, total_cpu: u64, limits: Thresholds) -> Seq<
    SuggestionText,
> {
    if exceeds(total_cpu, limits.cpu_percent) && rows.len() > 0 {
        seq![high_cpu_text(rows[first_max(cpu_keys(rows))])]
    } else {
        Seq::empty()
    }
}

/// What the memory rule gives: one advisory for the first of the largest
/// rows where memory use exceeds its limit, else nothing.
pub open spec fn memory_advice(rows: Seq<ProcRowView>, mem_pct: u64, limits: Thresholds) -> Seq<
    SuggestionText,
> {
    if exceeds(mem_pct, limits.mem_percent) && rows.len() > 0 {
        seq![memory_text(rows[first_max(mem_keys(rows))])]
    } else {
        Seq::empty()
    }
}

/// What the idle-hog rule gives: one advisory for each idle and heavy row, in row order.
pub open spec fn idle_advice(rows: Seq<ProcRowView>, limits: Thresholds) -> Seq<SuggestionText>
    decreases rows.len(),
{
    if rows.len() == 0 {
        Seq::empty()
    } else {
        let before = idle_advice(rows.drop_last(), limits);
        if is_idle_hog(rows.last(), limits) {
            before.push(idle_hog_text(rows.last()))
        } else {
            before
        }
    }
}

/// All advisories for a snapshot: the high-CPU rule, the memory rule, then the idle hogs.
pub open spec fn suggestions_for(
    rows: Seq<ProcRowView>,
    total_cpu: u64,
    mem_pct: u64,
    limits: Thresholds,
) -> Seq<SuggestionText> {
    high_cpu_advice(rows, total_cpu, limits) + memory_advice(rows, mem_pct, limits) + idle_advice(
        rows,
        limits,
    )
}

/// What an advisory is about, as far as its title tells.
#[derive(Debug, Clone, Copy, PartialEq, Eq, Structural)]
pub enum AdvisoryKind {
    Cpu,
    Idle,
    Memory,
    Other,
}

/// The kind of an advisory with the given title: the first of `CPU`, `Idle`
/// and `Memory` that stands in the title decides.
pub open spec fn kind_of(title: Seq<char>) -> AdvisoryKind {
    if contains_seq(title, seq!['C', 'P', 'U']) {
        AdvisoryKind::Cpu
    } else if contains_seq(title, seq!['I', 'd', 'l', 'e']) {
        AdvisoryKind::Idle
    } else if contains_seq(title, seq!['M', 'e', 'm', 'o', 'r', 'y']) {
        AdvisoryKind::Memory
    } else {
        AdvisoryKind::Other
    }
}

/// Tells what an advisory is about from its title, for its colour on screen.
pub fn advisory_kind(title: &str) -> (kind: AdvisoryKind)
    ensures
        kind == kind_of(title@),
{
    proof {
        reveal_strlit("CPU");
        reveal_strlit("Idle");
        reveal_strlit("Memory");
    }
    let title = chars_of(title);
    let cpu = chars_of("CPU");
    let idle = chars_of("Idle");
    let memory = chars_of("Memory");
    assert(cpu@ =~= seq!['C', 'P', 'U']);
    assert(idle@ =~= seq!['I', 'd', 'l', 'e']);
    assert(memory@ =~= seq!['M', 'e', 'm', 'o', 'r', 'y']);
    if contains_chars(title.as_slice(), cpu.as_slice()) {
        AdvisoryKind::Cpu
    } else if contains_chars(title.as_slice(), idle.as_slice()) {
        AdvisoryKind::Idle
    } else if contains_chars(title.as_slice(), memory.as_slice()) {
        AdvisoryKind::Memory
    } else {
        AdvisoryKind::Other
    }
}

/// `first_max` gives a position whose value none exceeds and none before it reaches.
pub proof fn lemma_first_max(keys: Seq<u64>)
    requires
        keys.len() > 0,
    ensures
        0 <= first_max(keys) < keys.len(),
        forall|j: int| 0 <= j < keys.len() ==> #[trigger] keys[j] <= keys[first_max(keys)],
        forall|j: int| 0 <= j < first_max(keys) ==> #[trigger] keys[j] < keys[first_max(keys)],
    decreases keys.len(),
{
    if keys.len() > 1 {
        lemma_first_max(keys.drop_last());
        let before = first_max(keys.drop_last());
        assert(forall|j: int| 0 <= j < keys.len() - 1 ==> #[trigger] keys[j] == keys.drop_last()[j]);
    }
}

/// Where the total load exceeds its limit and there is a row at all, the
/// high-CPU rule gives exactly one advisory, and it names a row that no row
/// is busier than and no earlier row is as busy as.
pub proof fn lemma_high_cpu_names_the_busiest(
    rows: Seq<ProcRowView>,
    total_cpu: u64,
    limits: Thresholds,
)
    requires
        exceeds(total_cpu, limits.cpu_percent),
        rows.len() > 0,
    ensures
        high_cpu_advice(rows, total_cpu, limits).len() == 1,
        exists|i: int|
            {
                &&& 0 <= i < rows.len()
                &&& high_cpu_advice(rows, total_cpu, limits)[0] == high_cpu_text(#[trigger] rows[i])
                &&& forall|j: int| 0 <= j < rows.len() ==> (#[trigger] rows[j]).cpu <= rows[i].cpu
                &&& forall|j: int| 0 <= j < i ==> (#[trigger] rows[j]).cpu < rows[i].cpu
            },
{
    let keys = cpu_keys(rows);
    lemma_first_max(keys);
    let i = first_max(keys);
    assert forall|j: int| 0 <= j < rows.len() implies (#[trigger] rows[j]).cpu <= rows[i].cpu by {
        assert(keys[j] <= keys[i]);
    }
    assert forall|j: int| 0 <= j < i implies (#[trigger] rows[j]).cpu < rows[i].cpu by {
        assert(keys[j] < keys[i]);
    }
}

/// Where memory use exceeds its limit and there is a row at all, the memory
/// rule gives exactly one advisory, and it names a row that no row holds more
/// than and no earlier row holds as much as.
pub proof fn lemma_memory_names_the_largest(rows: Seq<ProcRowView>, mem_pct: u64, limits: Thresholds)
    requires
        exceeds(mem_pct, limits.mem_percent),
        rows.len() > 0,
    ensures
        memory_advice(rows, mem_pct, limits).len() == 1,
        exists|i: int|
            {
                &&& 0 <= i < rows.len()
                &&& memory_advice(rows, mem_pct, limits)[0] == memory_text(#[trigger] rows[i])
                &&& forall|j: int|
                    0 <= j < rows.len() ==> (#[trigger] rows[j]).mem_bytes <= rows[i].mem_bytes
                &&& forall|j: int| 0 <= j < i ==> (#[trigger] rows[j]).mem_bytes < rows[i].mem_bytes
            },
{
    let keys = mem_keys(rows);
    lemma_first_max(keys);
    let i = first_max(keys);
    assert forall|j: int| 0 <= j < rows.len() implies (#[trigger] rows[j]).mem_bytes
        <= rows[i].mem_bytes by {
        assert(keys[j] <= keys[i]);
    }
    assert forall|j: int| 0 <= j < i implies (#[trigger] rows[j]).mem_bytes
        < rows[i].mem_bytes by {
        assert(keys[j] < keys[i]);
    }
}

/// The positions of the idle and heavy rows, in row order.
pub open spec fn hog_positions(rows: Seq<ProcRowView>, limits: Thresholds) -> Seq<int>
    decreases rows.len(),
{
    if rows.len() == 0 {
        Seq::empty()
    } else {
        let before = hog_positions(rows.drop_last(), limits);
        if is_idle_hog(rows.last(), limits) {
            before.push(rows.len() - 1)
        } else {
            before
        }
    }
}

/// The idle-hog rule gives one advisory for each idle and heavy row and none
/// besides, in row order: `hog_positions` lists every idle and heavy row
/// once, in rising order and no other row, and the advisories are those of
/// the rows it lists, one for one.
pub proof fn lemma_one_advisory_per_idle_hog(rows: Seq<ProcRowView>, limits: Thresholds)
    ensures
        ({
            let at = hog_positions(rows, limits);
            let advice = idle_advice(rows, limits);
            &&& advice.len() == at.len()
            &&& forall|k: int|
                0 <= k < at.len() ==> 0 <= #[trigger] at[k] < rows.len() && is_idle_hog(
                    rows[at[k]],
                    limits,
                ) && advice[k] == idle_hog_text(rows[at[k]])
            &&& forall|k: int, l: int| 0 <= k < l < at.len() ==> #[trigger] at[k] < #[trigger] at[l]
            &&& forall|i: int|
                0 <= i < rows.len() && is_idle_hog(#[trigger] rows[i], limits) ==> at.contains(i)
        }),
    decreases rows.len(),
{
    if rows.len() > 0 {
        let earlier = rows.drop_last();
        lemma_one_advisory_per_idle_hog(earlier, limits);
        let before = hog_positions(earlier, limits);
        let at = hog_positions(rows, limits);
        assert(forall|i: int| 0 <= i < earlier.len() ==> earlier[i] == rows[i]);
        assert forall|i: int|
            0 <= i < rows.len() && is_idle_hog(#[trigger] rows[i], limits) implies at.contains(
            i,
        ) by {
            if i < earlier.len() {
                let k = choose|k: int| 0 <= k < before.len() && before[k] == i;
                assert(at[k] == i);
            } else {
                assert(at[at.len() - 1] == i);
            }
        }
    }
}

fn index_of_busiest(rows: &[ProcRow]) -> (at: usize)
    requires
        rows.len() > 0,
    ensures
        at == first_max(cpu_keys(rows.deep_view())),
        at < rows.len(),
{
    let ghost keys = cpu_keys(rows.deep_view());
    let mut at: usize = 0;
    let mut i: usize = 1;
    while i < rows.len()
        invariant
            1 <= i <= rows.len(),
            keys == cpu_keys(rows.deep_view()),
            keys.len() == rows.len(),
            at == first_max(keys.take(i as int)),
            at < i,
        decreases rows.len() - i,
    {
        assert(keys.take(i + 1).drop_last() =~= keys.take(i as int));
        if rows[i].cpu > rows[at].cpu {
            at = i;
        }
        i = i + 1;
    }
    assert(keys.take(i as int) =~= keys);
    at
}

fn index_of_largest(rows: &[ProcRow]) -> (at: usize)
    requires
        rows.len() > 0,
    ensures
        at == first_max(mem_keys(rows.deep_view())),
        at < rows.len(),
{
    let ghost keys = mem_keys(rows.deep_view());
    let mut at: usize = 0;
    let mut i: usize = 1;
    while i < rows.len()
        invariant
            1 <= i <= rows.len(),
            keys == mem_keys(rows.deep_view()),
            keys.len() == rows.len(),
            at == first_max(keys.take(i as int)),
            at < i,
        decreases rows.len() - i,
    {
        assert(keys.take(i + 1).drop_last() =~= keys.take(i as int));
        if rows[i].mem_bytes > rows[at].mem_bytes {
            at = i;
        }
        i = i + 1;
    }
    assert(keys.take(i as int) =~= keys);
    at
}

fn high_cpu_suggestion(row: &ProcRow) -> (s: Suggestion)
    ensures
        s@ == high_cpu_text(row@),
{
    let mut title = String::from_str("High CPU: ");
    title.append(row.name.as_str());
    title.append(" at ");
    let load = fmt_percent(row.cpu);
    title.append(load.as_str());
    title.append("%");
    let mut detail = String::from_str("Consider suspending or killing PID ");
    append_signed_decimal(&mut detail, row.pid);
    detail.append(" if it's misbehaving.");
    Suggestion { title, detail }
}

fn memory_suggestion(row: &ProcRow) -> (s: Suggestion)
    ensures
        s@ == memory_text(row@),
{
    let mut title = String::from_str("Memory pressure: ");
    title.append(row.name.as_str());
    title.append(" using ");
    let size = fmt_bytes(row.mem_bytes);
    title.append(size.as_str());
    let mut detail = String::from_str("Close unused apps or lower priority of PID ");
    append_signed_decimal(&mut detail, row.pid);
    detail.append(".");
    Suggestion { title, detail }
}

fn idle_hog_suggestion(row: &ProcRow) -> (s: Suggestion)
    ensures
        s@ == idle_hog_text(row@),
{
    let mut title = String::from_str("Idle hog: ");
    title.append(row.name.as_str());
    title.append(" holding ");
    let size = fmt_bytes(row.mem_bytes);
    title.append(size.as_str());
    let mut detail = String::from_str("You could lower its priority or close it. PID ");
    append_signed_decimal(&mut detail, row.pid);
    Suggestion { title, detail }
}

/// Whether a row meets the idle-hog rule.
pub fn idle_hog(row: &ProcRow, limits: &Thresholds) -> (hit: bool)
    ensures
        hit == is_idle_hog(row@, *limits),
{
    row.cpu < limits.idle_cpu && (row.read_bps as u128 + row.write_bps as u128)
        < limits.idle_io_bps as u128 && row.mem_bytes > limits.heavy_mem_bytes
}

/// Evaluates the advisory rules on one snapshot, from scratch.
///
/// Where `total_cpu` exceeds the CPU limit, the row with the highest load is
/// named; where `mem_pct` exceeds the memory limit, the row with the most
/// resident memory. Of several rows with the same highest value the first in
/// `rows` is named. Then every idle and heavy row gets an advisory of its
/// own, in row order. Both totals are in thousandths of a percent.
pub fn make_suggestions(rows: &[ProcRow], total_cpu: u64, mem_pct: u64, limits: &Thresholds) -> (out:
    Vec<Suggestion>)
    ensures
        out.deep_view() == suggestions_for(rows.deep_view(), total_cpu, mem_pct, *limits),
{
    let ghost shown = rows.deep_view();
    let mut out: Vec<Suggestion> = Vec::new();
    if rows.len() > 0 && total_cpu > limits.cpu_percent as u64 * PERCENT_SCALE {
        let top = index_of_busiest(rows);
        out.push(high_cpu_suggestion(&rows[top]));
    }
    if rows.len() > 0 && mem_pct > limits.mem_percent as u64 * PERCENT_SCALE {
        let top = index_of_largest(rows);
        out.push(memory_suggestion(&rows[top]));
    }
    let ghost head = out.deep_view();
    let mut i: usize = 0;
    while i < rows.len()
        invariant
            i <= rows.len(),
            shown == rows.deep_view(),
            out.deep_view() == head + idle_advice(shown.take(i as int), *limits),
        decreases rows.len() - i,
    {
        assert(shown.take(i + 1).drop_last() =~= shown.take(i as int));
        let ghost before = out.deep_view();
        if idle_hog(&rows[i], limits) {
            out.push(idle_hog_suggestion(&rows[i]));
            assert(out.deep_view() =~= before.push(idle_hog_text(shown[i as int])));
        }
        i = i + 1;
    }
    assert(shown.take(i as int) =~= shown);
    out
}

} // verus!
