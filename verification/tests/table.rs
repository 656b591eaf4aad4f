use procdeck::models::{ProcRow, SettingsModel, SortDir, SortKey};
use procdeck::table::{filtered_sorted_rows, matches_filter, select_rows, Candidate};

fn row(pid: i32, name: &str, cpu: u64, mem_bytes: u64, read_bps: u64, write_bps: u64) -> ProcRow {
    ProcRow { pid, name: name.to_string(), cpu, mem_bytes, read_bps, write_bps }
}

fn sample_rows() -> Vec<ProcRow> {
    vec![
        row(100, "systemd", 1_000, 50, 7, 0),
        row(2310, "Firefox", 40_000, 900, 0, 9),
        row(17, "bash", 1_000, 20, 7, 3),
        row(2311, "firefox-helper", 40_000, 300, 5, 9),
        row(5, "Xorg", 12_000, 300, 0, 0),
        row(231, "zsh", 0, 20, 7, 1),
        row(9, "ÉCLAIR", 500, 50, 1, 1),
    ]
}

fn settings(filter: &str, key: SortKey, dir: SortDir) -> SettingsModel {
    let mut s = SettingsModel::default();
    s.filter = filter.to_string();
    s.sort_key = key;
    s.sort_dir = dir;
    s
}

fn pids(rows: &[ProcRow]) -> Vec<i32> {
    rows.iter().map(|r| r.pid).collect()
}

// The table as a stable sort of the standard library makes it.
fn expected(rows: &[ProcRow], s: &SettingsModel) -> Vec<i32> {
    let mut v: Vec<ProcRow> = rows.to_vec();
    let filt = s.filter.trim().to_lowercase();
    if !filt.is_empty() {
        v.retain(|p| p.name.to_lowercase().contains(&filt) || p.pid.to_string().contains(&filt));
    }
    v.sort_by(|a, b| {
        let ord = match s.sort_key {
            SortKey::Pid => a.pid.cmp(&b.pid),
            SortKey::Name => a.name.cmp(&b.name),
            SortKey::Cpu => a.cpu.cmp(&b.cpu),
            SortKey::Mem => a.mem_bytes.cmp(&b.mem_bytes),
            SortKey::Read => a.read_bps.cmp(&b.read_bps),
            SortKey::Write => a.write_bps.cmp(&b.write_bps),
        };
        match s.sort_dir {
            SortDir::Asc => ord,
            SortDir::Desc => ord.reverse(),
        }
    });
    pids(&v)
}

#[test]
fn table_matches_a_stable_sort_for_every_setting() {
    let rows = sample_rows();
    let keys = [SortKey::Pid, SortKey::Name, SortKey::Cpu, SortKey::Mem, SortKey::Read, SortKey::Write];
    let filters = ["", "  ", "fire", "FIRE", " Fox ", "23", "1", "sh", "éclair", "É", "nothing here", "-"];
    for key in keys {
        for dir in [SortDir::Asc, SortDir::Desc] {
            for filter in filters {
                let s = settings(filter, key, dir);
                assert_eq!(
                    pids(&filtered_sorted_rows(&rows, &s)),
                    expected(&rows, &s),
                    "filter {:?}, key {:?}, dir {:?}",
                    filter,
                    key,
                    dir
                );
            }
        }
    }
}

#[test]
fn rows_keep_all_their_fields() {
    let rows = sample_rows();
    let out = filtered_sorted_rows(&rows, &settings("xorg", SortKey::Cpu, SortDir::Desc));
    assert_eq!(out.len(), 1);
    let r = &out[0];
    assert_eq!((r.pid, r.name.as_str(), r.cpu, r.mem_bytes, r.read_bps, r.write_bps), (5, "Xorg", 12_000, 300, 0, 0));
}

#[test]
fn level_rows_stay_in_their_order() {
    let rows = sample_rows();
    let by_cpu_desc = filtered_sorted_rows(&rows, &settings("", SortKey::Cpu, SortDir::Desc));
    assert_eq!(pids(&by_cpu_desc), vec![2310, 2311, 5, 100, 17, 9, 231]);
    let by_cpu_asc = filtered_sorted_rows(&rows, &settings("", SortKey::Cpu, SortDir::Asc));
    assert_eq!(pids(&by_cpu_asc), vec![231, 9, 100, 17, 5, 2310, 2311]);
}

#[test]
fn names_are_ordered_as_strings() {
    let rows = sample_rows();
    let by_name = filtered_sorted_rows(&rows, &settings("", SortKey::Name, SortDir::Asc));
    let names: Vec<&str> = by_name.iter().map(|r| r.name.as_str()).collect();
    assert_eq!(names, vec!["Firefox", "Xorg", "bash", "firefox-helper", "systemd", "zsh", "ÉCLAIR"]);
}

#[test]
fn filter_ignores_case_and_outer_white_space() {
    let rows = sample_rows();
    let found = filtered_sorted_rows(&rows, &settings("  FIREfox ", SortKey::Pid, SortDir::Asc));
    assert_eq!(pids(&found), vec![2310, 2311]);
    let found = filtered_sorted_rows(&rows, &settings("éclair", SortKey::Pid, SortDir::Asc));
    assert_eq!(pids(&found), vec![9]);
}

#[test]
fn filter_finds_process_identifiers() {
    let rows = sample_rows();
    let found = filtered_sorted_rows(&rows, &settings("231", SortKey::Pid, SortDir::Asc));
    assert_eq!(pids(&found), vec![231, 2310, 2311]);
}

#[test]
fn empty_table_stays_empty() {
    assert!(filtered_sorted_rows(&[], &settings("", SortKey::Cpu, SortDir::Desc)).is_empty());
    assert!(filtered_sorted_rows(&[], &settings("x", SortKey::Name, SortDir::Asc)).is_empty());
}

#[test]
fn match_is_on_the_lowered_name_or_the_identifier() {
    let name: Vec<char> = "firefox".chars().collect();
    let needle = |s: &str| s.chars().collect::<Vec<char>>();
    assert!(matches_filter(&name, 42, &needle("fox")));
    assert!(matches_filter(&name, 42, &needle("")));
    assert!(matches_filter(&name, 42, &needle("4")));
    assert!(matches_filter(&name, 42, &needle("42")));
    assert!(matches_filter(&name, -42, &needle("-4")));
    assert!(!matches_filter(&name, 42, &needle("Fox")));
    assert!(!matches_filter(&name, 42, &needle("24")));
    assert!(!matches_filter(&name, 42, &needle("-")));
}

#[test]
fn select_rows_takes_the_lowered_names_as_given() {
    let rows = vec![row(1, "Alpha", 5, 0, 0, 0), row(2, "Beta", 9, 0, 0, 0), row(3, "Gamma", 5, 0, 0, 0)];
    let entries: Vec<Candidate> = rows
        .iter()
        .zip(["one", "two", "tone"])
        .map(|(row, lowered)| Candidate { row, lowered_name: lowered.chars().collect() })
        .collect();
    let needle: Vec<char> = "one".chars().collect();
    let out = select_rows(&entries, &needle, SortKey::Cpu, SortDir::Desc);
    assert_eq!(pids(&out), vec![1, 3]);
    let out = select_rows(&entries, &[], SortKey::Cpu, SortDir::Desc);
    assert_eq!(pids(&out), vec![2, 1, 3]);
    let out = select_rows(&entries, &[], SortKey::Name, SortDir::Desc);
    assert_eq!(pids(&out), vec![3, 2, 1]);
    assert!(select_rows(&[], &needle, SortKey::Pid, SortDir::Asc).is_empty());
}
