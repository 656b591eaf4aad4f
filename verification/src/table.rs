//! Which rows of the process table are shown, and in what order.

use vstd::prelude::*;
use crate::decimal::{append_signed_decimal, signed_decimal};
use crate::models::{ProcRow, ProcRowView, SettingsModel, SortDir, SortKey};
use crate::text::{
    chars_of, contains_chars, contains_seq, lemma_lex_asymmetric, lemma_lex_chain, lex_less,
    lex_lt, lowercase, lowercase_of, trim, trimmed,
};

verus! {

/// Whether a process is found by `needle`: `needle` stands in its lower-cased
/// name or in its identifier written in decimal.
pub open spec fn row_matches(lowered_name: Seq<char>, pid: i32, needle: Seq<char>) -> bool {
    contains_seq(lowered_name, needle) || contains_seq(signed_decimal(pid as int), needle)
}

/// Whether row `i` is found by `needle`, given the lower-cased name of every row.
pub open spec fn is_shown(
    rows: Seq<ProcRowView>,
    lowered: Seq<Seq<char>>,
    needle: Seq<char>,
    i: int,
) -> bool {
    row_matches(lowered[i], rows[i].pid, needle)
}

/// Whether `a` is below `b` in the column `key`.
pub open spec fn key_less(a: ProcRowView, b: ProcRowView, key: SortKey) -> bool {
    match key {
        SortKey::Pid => a.pid < b.pid,
        SortKey::Name => lex_less(a.name, b.name),
        SortKey::Cpu => a.cpu < b.cpu,
        SortKey::Mem => a.mem_bytes < b.mem_bytes,
        SortKey::Read => a.read_bps < b.read_bps,
        SortKey::Write => a.write_bps < b.write_bps,
    }
}

/// Whether the ordering asks for `a` ahead of `b`: `a` is below `b` in the
/// column where the table ascends, above it where the table descends.
pub open spec fn precedes(a: ProcRowView, b: ProcRowView, key: SortKey, dir: SortDir) -> bool {
    match dir {
        SortDir::Asc => key_less(a, b, key),
        SortDir::Desc => key_less(b, a, key),
    }
}

/// Whether row `i` stands ahead of row `j` in the ordered table: the ordering
/// asks for it, or it asks for neither and `i` is the earlier row.
pub open spec fn comes_before(
    rows: Seq<ProcRowView>,
    i: int,
    j: int,
    key: SortKey,
    dir: SortDir,
) -> bool {
    precedes(rows[i], rows[j], key, dir) || (!precedes(rows[j], rows[i], key, dir) && i < j)
}

/// Whether `order` lists the positions of the rows to show, in the order to
/// show them: every position in it is of a row that `needle` finds, every
/// such row is in it, and of any two positions the earlier comes before the later.
pub open spec fn is_table_order(
    rows: Seq<ProcRowView>,
    lowered: Seq<Seq<char>>,
    needle: Seq<char>,
    key: SortKey,
    dir: SortDir,
    order: Seq<usize>,
) -> bool {
    &&& forall|k: int|
        0 <= k < order.len() ==> (#[trigger] order[k]) < rows.len() && is_shown(
            rows,
            lowered,
            needle,
            order[k] as int,
        )
    &&& forall|p: int|
        0 <= p < rows.len() && #[trigger] is_shown(rows, lowered, needle, p) ==> exists|k: int|
            0 <= k < order.len() && #[trigger] order[k] == p
    &&& forall|k: int, l: int|
        0 <= k < l < order.len() ==> comes_before(
            rows,
            #[trigger] order[k] as int,
            #[trigger] order[l] as int,
            key,
            dir,
        )
}

/// The rows at the positions of `order`, in that order.
pub open spec fn arranged(rows: Seq<ProcRowView>, order: Seq<usize>) -> Seq<ProcRowView> {
    Seq::new(order.len(), |k: int| rows[order[k] as int])
}

/// The lower-cased name of each row, in order.
pub open spec fn lowered_names(rows: Seq<ProcRowView>) -> Seq<Seq<char>> {
    Seq::new(rows.len(), |i: int| lowercase_of(rows[i].name))
}

/// The ordering asks for no row ahead of itself, and never for each of two ahead of the other.
pub proof fn lemma_precedes_asymmetric(a: ProcRowView, b: ProcRowView, key: SortKey, dir: SortDir)
    ensures
        !(precedes(a, b, key, dir) && precedes(b, a, key, dir)),
{
    lemma_lex_asymmetric(a.name, b.name);
}

/// Where the ordering asks neither for `b` ahead of `a` nor for `c` ahead of
/// `b`, it does not ask for `c` ahead of `a`.
pub proof fn lemma_precedes_chain(
    a: ProcRowView,
    b: ProcRowView,
    c: ProcRowView,
    key: SortKey,
    dir: SortDir,
)
    requires
        !precedes(b, a, key, dir),
        !precedes(c, b, key, dir),
    ensures
        !precedes(c, a, key, dir),
{
    if key == SortKey::Name {
        match dir {
            SortDir::Asc => lemma_lex_chain(a.name, b.name, c.name),
            SortDir::Desc => lemma_lex_chain(c.name, b.name, a.name),
        }
    }
}

/// Putting row `i` into an ordered list of earlier rows, behind the last row
/// that the ordering does not ask it to pass, leaves the list ordered.
proof fn lemma_insert_keeps_order(
    rows: Seq<ProcRowView>,
    key: SortKey,
    dir: SortDir,
    order: Seq<usize>,
    i: usize,
    j: int,
)
    requires
        0 <= j <= order.len(),
        forall|k: int| 0 <= k < order.len() ==> (#[trigger] order[k]) < i,
        forall|k: int, l: int|
            0 <= k < l < order.len() ==> comes_before(
                rows,
                #[trigger] order[k] as int,
                #[trigger] order[l] as int,
                key,
                dir,
            ),
        forall|l: int|
            j <= l < order.len() ==> precedes(
                rows[i as int],
                rows[(#[trigger] order[l]) as int],
                key,
                dir,
            ),
        j > 0 ==> !precedes(rows[i as int], rows[order[j - 1] as int], key, dir),
    ensures
        forall|k: int, l: int|
            0 <= k < l < order.insert(j, i).len() ==> comes_before(
                rows,
                #[trigger] order.insert(j, i)[k] as int,
                #[trigger] order.insert(j, i)[l] as int,
                key,
                dir,
            ),
{
    let next = order.insert(j, i);
    assert forall|k: int, l: int| 0 <= k < l < next.len() implies comes_before(
        rows,
        #[trigger] next[k] as int,
        #[trigger] next[l] as int,
        key,
        dir,
    ) by {
        if l == j && k < j - 1 {
            // The row put in does not pass the row just ahead of it, which in
            // turn does not pass `next[k]`: so it does not pass `next[k]`.
            lemma_precedes_asymmetric(
                rows[order[k] as int],
                rows[order[j - 1] as int],
                key,
                dir,
            );
            lemma_precedes_chain(
                rows[order[k] as int],
                rows[order[j - 1] as int],
                rows[i as int],
                key,
                dir,
            );
        }
    }
}

/// Of two different rows exactly one comes before the other, and none before itself.
pub proof fn lemma_comes_before_one_way(
    rows: Seq<ProcRowView>,
    i: int,
    j: int,
    key: SortKey,
    dir: SortDir,
)
    ensures
        !(comes_before(rows, i, j, key, dir) && comes_before(rows, j, i, key, dir)),
        i != j ==> comes_before(rows, i, j, key, dir) || comes_before(rows, j, i, key, dir),
{
    lemma_precedes_asymmetric(rows[i], rows[j], key, dir);
}

/// Two orders of the same table agree on their first `p` positions.
proof fn lemma_orders_agree(
    rows: Seq<ProcRowView>,
    lowered: Seq<Seq<char>>,
    needle: Seq<char>,
    key: SortKey,
    dir: SortDir,
    first: Seq<usize>,
    second: Seq<usize>,
    p: int,
)
    requires
        is_table_order(rows, lowered, needle, key, dir, first),
        is_table_order(rows, lowered, needle, key, dir, second),
        0 <= p <= first.len(),
        p <= second.len(),
    ensures
        forall|q: int| 0 <= q < p ==> first[q] == second[q],
    decreases p,
{
    if p > 0 {
        lemma_orders_agree(rows, lowered, needle, key, dir, first, second, p - 1);
        let at = p - 1;
        let x = first[at];
        let y = second[at];
        // Each of the two rows is shown, so each stands in the other order too.
        let k = choose|k: int| 0 <= k < second.len() && #[trigger] second[k] == x as int;
        let m = choose|m: int| 0 <= m < first.len() && #[trigger] first[m] == y as int;
        if x != y {
            // Neither stands among the positions agreed on, where no row
            // stands twice. So each is found behind `at` in the other order,
            // and each would come before the other.
            if k < at {
                lemma_comes_before_one_way(rows, first[k] as int, first[at] as int, key, dir);
            }
            if m < at {
                lemma_comes_before_one_way(rows, second[m] as int, second[at] as int, key, dir);
            }
            assert(comes_before(rows, y as int, x as int, key, dir));
            assert(comes_before(rows, x as int, y as int, key, dir));
            lemma_comes_before_one_way(rows, x as int, y as int, key, dir);
        }
    }
}

/// The filter and the ordering settle the table: two orders of the same
/// rows under the same filter, column and direction are the same order.
pub proof fn lemma_table_order_unique(
    rows: Seq<ProcRowView>,
    lowered: Seq<Seq<char>>,
    needle: Seq<char>,
    key: SortKey,
    dir: SortDir,
    first: Seq<usize>,
    second: Seq<usize>,
)
    requires
        is_table_order(rows, lowered, needle, key, dir, first),
        is_table_order(rows, lowered, needle, key, dir, second),
    ensures
        first == second,
{
    if first.len() <= second.len() {
        lemma_orders_agree(rows, lowered, needle, key, dir, first, second, first.len() as int);
        if first.len() < second.len() {
            // A row behind the end of the shorter order stands in it all the
            // same, and so twice in the longer: it would come before itself.
            let extra = second[first.len() as int];
            let k = choose|k: int| 0 <= k < first.len() && #[trigger] first[k] == extra as int;
            assert(second[k] == extra);
            lemma_comes_before_one_way(rows, extra as int, extra as int, key, dir);
        }
    } else {
        lemma_orders_agree(rows, lowered, needle, key, dir, first, second, second.len() as int);
        let extra = first[second.len() as int];
        let k = choose|k: int| 0 <= k < second.len() && #[trigger] second[k] == extra as int;
        assert(first[k] == extra);
        lemma_comes_before_one_way(rows, extra as int, extra as int, key, dir);
    }
}

/// The caption of a column head: its label, followed by an arrow up or down
/// where the table is ordered by that column.
pub open spec fn caption_of(label: Seq<char>, key: SortKey, sort_key: SortKey, dir: SortDir) -> Seq<
    char,
> {
    if sort_key == key {
        match dir {
            SortDir::Asc => label + seq![' ', '\u{2191}'],
            SortDir::Desc => label + seq![' ', '\u{2193}'],
        }
    } else {
        label
    }
}

/// The caption of the head of column `key` under the given settings.
pub fn sort_caption(label: &str, key: SortKey, settings: &SettingsModel) -> (caption: String)
    ensures
        caption@ == caption_of(label@, key, settings.sort_key, settings.sort_dir),
{
    proof {
        reveal_strlit(" \u{2191}");
        reveal_strlit(" \u{2193}");
    }
    let mut caption = String::from_str(label);
    if settings.sort_key == key {
        match settings.sort_dir {
            SortDir::Asc => caption.append(" \u{2191}"),
            SortDir::Desc => caption.append(" \u{2193}"),
        }
    }
    caption
}

/// Tells whether a process is found by `needle`, given its lower-cased name.
pub fn matches_filter(lowered_name: &[char], pid: i32, needle: &[char]) -> (hit: bool)
    ensures
        hit == row_matches(lowered_name@, pid, needle@),
{
    if contains_chars(lowered_name, needle) {
        true
    } else {
        let mut digits = String::new();
        append_signed_decimal(&mut digits, pid);
        let digits = chars_of(digits.as_str());
        contains_chars(digits.as_slice(), needle)
    }
}

/// A row of the table together with its name in lower case.
pub struct Candidate<'a> {
    pub row: &'a ProcRow,
    pub lowered_name: Vec<char>,
}

/// The rows of the candidates, in order.
pub open spec fn candidate_rows<'a>(entries: Seq<Candidate<'a>>) -> Seq<ProcRowView> {
    Seq::new(entries.len(), |i: int| entries[i].row@)
}

/// The lower-cased names of the candidates, in order.
pub open spec fn candidate_names<'a>(entries: Seq<Candidate<'a>>) -> Seq<Seq<char>> {
    Seq::new(entries.len(), |i: int| entries[i].lowered_name@)
}

/// Tells whether the ordering asks for row `i` ahead of row `j`.
fn row_precedes(
    entries: &[Candidate<'_>],
    names: &Vec<Vec<char>>,
    i: usize,
    j: usize,
    key: SortKey,
    dir: SortDir,
) -> (yes: bool)
    requires
        i < entries.len(),
        j < entries.len(),
        names.len() == entries.len(),
        names[i as int]@ == entries[i as int].row.name@,
        names[j as int]@ == entries[j as int].row.name@,
    ensures
        yes == precedes(
            candidate_rows(entries@)[i as int],
            candidate_rows(entries@)[j as int],
            key,
            dir,
        ),
{
    let (a, b) = match dir {
        SortDir::Asc => (i, j),
        SortDir::Desc => (j, i),
    };
    match key {
        SortKey::Pid => entries[a].row.pid < entries[b].row.pid,
        SortKey::Name => lex_lt(names[a].as_slice(), names[b].as_slice()),
        SortKey::Cpu => entries[a].row.cpu < entries[b].row.cpu,
        SortKey::Mem => entries[a].row.mem_bytes < entries[b].row.mem_bytes,
        SortKey::Read => entries[a].row.read_bps < entries[b].row.read_bps,
        SortKey::Write => entries[a].row.write_bps < entries[b].row.write_bps,
    }
}

/// The rows among the candidates that `needle` finds, ordered by the column
/// `key` in the direction `dir`, rows that are level in that column staying
/// in the order they had.
pub fn select_rows(entries: &[Candidate<'_>], needle: &[char], key: SortKey, dir: SortDir) -> (out:
    Vec<ProcRow>)
    ensures
        exists|order: Seq<usize>|
            is_table_order(
                candidate_rows(entries@),
                candidate_names(entries@),
                needle@,
                key,
                dir,
                order,
            ) && out.deep_view() == arranged(candidate_rows(entries@), order),
{
    let ghost table = candidate_rows(entries@);
    let ghost low = candidate_names(entries@);
    let mut names: Vec<Vec<char>> = Vec::new();
    let mut n: usize = 0;
    while n < entries.len()
        invariant
            n <= entries.len(),
            names.len() == n,
            forall|k: int| 0 <= k < n ==> (#[trigger] names[k])@ == entries[k].row.name@,
        decreases entries.len() - n,
    {
        names.push(chars_of(entries[n].row.name.as_str()));
        n = n + 1;
    }

    let mut order: Vec<usize> = Vec::new();
    let mut i: usize = 0;
    while i < entries.len()
        invariant
            i <= entries.len(),
            table == candidate_rows(entries@),
            low == candidate_names(entries@),
            names.len() == entries.len(),
            forall|k: int|
                0 <= k < entries.len() ==> (#[trigger] names[k])@ == entries[k].row.name@,
            forall|k: int|
                0 <= k < order.len() ==> (#[trigger] order[k]) < i && is_shown(
                    table,
                    low,
                    needle@,
                    order[k] as int,
                ),
            forall|p: int|
                0 <= p < i && #[trigger] is_shown(table, low, needle@, p) ==> exists|k: int|
                    0 <= k < order.len() && #[trigger] order[k] == p,
            forall|k: int, l: int|
                0 <= k < l < order.len() ==> comes_before(
                    table,
                    #[trigger] order[k] as int,
                    #[trigger] order[l] as int,
                    key,
                    dir,
                ),
        decreases entries.len() - i,
    {
        if matches_filter(entries[i].lowered_name.as_slice(), entries[i].row.pid, needle) {
            let mut j: usize = order.len();
            while j > 0 && row_precedes(entries, &names, i, order[j - 1], key, dir)
                invariant
                    j <= order.len(),
                    i < entries.len(),
                    table == candidate_rows(entries@),
                    names.len() == entries.len(),
                    forall|k: int|
                        0 <= k < entries.len() ==> (#[trigger] names[k])@ == entries[k].row.name@,
                    forall|k: int| 0 <= k < order.len() ==> (#[trigger] order[k]) < i,
                    forall|l: int|
                        j <= l < order.len() ==> precedes(
                            table[i as int],
                            table[(#[trigger] order[l]) as int],
                            key,
                            dir,
                        ),
                decreases j,
            {
                j = j - 1;
            }
            proof {
                lemma_insert_keeps_order(table, key, dir, order@, i, j as int);
            }
            let ghost earlier = order@;
            order.insert(j, i);
            proof {
                assert(order@[j as int] == i);
                assert forall|p: int|
                    0 <= p < i + 1 && #[trigger] is_shown(table, low, needle@, p) implies exists|
                    k: int,
                |
                    0 <= k < order.len() && #[trigger] order[k] == p by {
                    if p < i {
                        let k0 = choose|k: int| 0 <= k < earlier.len() && #[trigger] earlier[k] == p;
                        if k0 < j {
                            assert(order[k0] == p);
                        } else {
                            assert(order[k0 + 1] == p);
                        }
                    }
                }
            }
        }
        i = i + 1;
    }

    let mut out: Vec<ProcRow> = Vec::with_capacity(order.len());
    let mut k: usize = 0;
    while k < order.len()
        invariant
            k <= order.len(),
            table == candidate_rows(entries@),
            out.len() == k,
            forall|m: int| 0 <= m < order.len() ==> (#[trigger] order[m]) < entries.len(),
            forall|m: int| 0 <= m < k ==> (#[trigger] out[m])@ == table[order[m] as int],
        decreases order.len() - k,
    {
        out.push(entries[order[k]].row.clone());
        k = k + 1;
    }
    assert(out.deep_view() =~= arranged(table, order@));
    out
}

/// The rows of the table to show under the given settings: those found by
/// the filter, ordered by the chosen column and direction. The filter is
/// taken without the white space at its ends and without regard to case; a
/// row is found where the filter stands in its name or in its process
/// identifier. Rows level in the chosen column stay in the order they have in `rows`.
pub fn filtered_sorted_rows(rows: &[ProcRow], settings: &SettingsModel) -> (out: Vec<ProcRow>)
    ensures
        exists|order: Seq<usize>|
            is_table_order(
                rows.deep_view(),
                lowered_names(rows.deep_view()),
                lowercase_of(trimmed(settings.filter@)),
                settings.sort_key,
                settings.sort_dir,
                order,
            ) && out.deep_view() == arranged(rows.deep_view(), order),
{
    let needle = lowercase(trim(settings.filter.as_str()));
    let needle = chars_of(needle.as_str());
    let mut entries: Vec<Candidate<'_>> = Vec::with_capacity(rows.len());
    let mut i: usize = 0;
    while i < rows.len()
        invariant
            i <= rows.len(),
            entries.len() == i,
            forall|k: int| 0 <= k < i ==> (#[trigger] entries[k]).row@ == rows.deep_view()[k],
            forall|k: int|
                0 <= k < i ==> (#[trigger] entries[k]).lowered_name@ == lowercase_of(
                    rows.deep_view()[k].name,
                ),
        decreases rows.len() - i,
    {
        let lower = lowercase(rows[i].name.as_str());
        entries.push(Candidate { row: &rows[i], lowered_name: chars_of(lower.as_str()) });
        i = i + 1;
    }
    assert(candidate_rows(entries@) =~= rows.deep_view());
    assert(candidate_names(entries@) =~= lowered_names(rows.deep_view()));
    select_rows(entries.as_slice(), needle.as_slice(), settings.sort_key, settings.sort_dir)
}

} // verus!
