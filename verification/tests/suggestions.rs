use procdeck::models::{ProcRow, Suggestion, Thresholds};
use procdeck::suggestions::{advisory_kind, idle_hog, make_suggestions, AdvisoryKind};

const MB: u64 = 1024 * 1024;

fn row(pid: i32, name: &str, cpu: u64, mem_bytes: u64, read_bps: u64, write_bps: u64) -> ProcRow {
    ProcRow { pid, name: name.to_string(), cpu, mem_bytes, read_bps, write_bps }
}

fn limits(cpu_percent: u8, mem_percent: u8) -> Thresholds {
    Thresholds { cpu_percent, mem_percent, idle_cpu: 500, idle_io_bps: 1024, heavy_mem_bytes: 500 * MB }
}

fn titles(out: &[Suggestion]) -> Vec<String> {
    out.iter().map(|s| s.title.clone()).collect()
}

#[test]
fn high_cpu_names_the_busiest_process() {
    let rows = vec![
        row(10, "B", 40_000, 10 * MB, 0, 0),
        row(11, "A", 95_000, 10 * MB, 0, 0),
        row(12, "C", 60_000, 10 * MB, 0, 0),
    ];
    let out = make_suggestions(&rows, 81_000, 0, &limits(80, 100));
    assert_eq!(out.len(), 1);
    assert_eq!(out[0].title, "High CPU: A at 95.0%");
    assert_eq!(out[0].detail, "Consider suspending or killing PID 11 if it's misbehaving.");
    let about_a = out.iter().filter(|s| s.title.starts_with("High CPU") && s.title.contains("A")).count();
    assert_eq!(about_a, 1);
}

#[test]
fn high_cpu_needs_the_total_above_the_limit() {
    let rows = vec![row(11, "A", 95_000, 10 * MB, 0, 0)];
    assert!(make_suggestions(&rows, 80_000, 0, &limits(80, 100)).is_empty());
    assert!(make_suggestions(&rows, 79_999, 0, &limits(80, 100)).is_empty());
    assert_eq!(make_suggestions(&rows, 80_001, 0, &limits(80, 100)).len(), 1);
}

#[test]
fn high_cpu_tie_goes_to_the_first() {
    let rows = vec![
        row(1, "low", 10_000, 0, 0, 0),
        row(2, "first", 70_000, 0, 0, 0),
        row(3, "second", 70_000, 0, 0, 0),
    ];
    let out = make_suggestions(&rows, 90_000, 0, &limits(85, 100));
    assert_eq!(titles(&out), vec!["High CPU: first at 70.0%"]);
}

#[test]
fn memory_pressure_names_the_largest_process() {
    let rows = vec![
        row(1, "small", 1_000, 100 * MB, 5000, 5000),
        row(2, "big", 1_000, 300 * MB, 5000, 5000),
        row(3, "big too", 1_000, 300 * MB, 5000, 5000),
    ];
    let out = make_suggestions(&rows, 0, 90_001, &limits(100, 90));
    assert_eq!(out.len(), 1);
    assert_eq!(out[0].title, "Memory pressure: big using 300.0 MB");
    assert_eq!(out[0].detail, "Close unused apps or lower priority of PID 2.");
    assert!(make_suggestions(&rows, 0, 90_000, &limits(100, 90)).is_empty());
}

#[test]
fn idle_hog_boundary() {
    let l = limits(100, 100);
    let hog = row(77, "sleeper", 400, 520 * MB, 600, 400);
    let out = make_suggestions(std::slice::from_ref(&hog), 0, 0, &l);
    assert_eq!(out.len(), 1);
    assert_eq!(out[0].title, "Idle hog: sleeper holding 520.0 MB");
    assert_eq!(out[0].detail, "You could lower its priority or close it. PID 77");
    assert!(idle_hog(&hog, &l));

    let light = row(77, "sleeper", 400, 480 * MB, 600, 400);
    assert!(make_suggestions(std::slice::from_ref(&light), 0, 0, &l).is_empty());
    assert!(!idle_hog(&light, &l));
}

#[test]
fn idle_hog_limits_are_strict() {
    let l = limits(100, 100);
    assert!(idle_hog(&row(1, "x", 499, 500 * MB + 1, 1023, 0), &l));
    assert!(!idle_hog(&row(1, "x", 500, 500 * MB + 1, 0, 0), &l));
    assert!(!idle_hog(&row(1, "x", 499, 500 * MB, 0, 0), &l));
    assert!(!idle_hog(&row(1, "x", 499, 500 * MB + 1, 1024, 0), &l));
    assert!(!idle_hog(&row(1, "x", 499, 500 * MB + 1, 512, 512), &l));
    assert!(!idle_hog(&row(1, "x", 0, u64::MAX, u64::MAX, u64::MAX), &l));
}

#[test]
fn every_idle_hog_gets_its_own_advisory() {
    let rows = vec![
        row(1, "one", 0, 600 * MB, 0, 0),
        row(2, "busy", 30_000, 900 * MB, 0, 0),
        row(3, "three", 100, 700 * MB, 10, 10),
        row(4, "four", 499, 501 * MB, 1000, 23),
    ];
    let out = make_suggestions(&rows, 0, 0, &limits(100, 100));
    assert_eq!(
        titles(&out),
        vec![
            "Idle hog: one holding 600.0 MB",
            "Idle hog: three holding 700.0 MB",
            "Idle hog: four holding 501.0 MB",
        ]
    );
}

#[test]
fn rules_are_independent_and_in_order() {
    let rows = vec![
        row(-5, "quiet", 100, 2048 * MB, 0, 0),
        row(6, "loud", 99_950, 10 * MB, 0, 0),
    ];
    let out = make_suggestions(&rows, 99_000, 99_000, &limits(85, 90));
    assert_eq!(
        titles(&out),
        vec![
            "High CPU: loud at 100.0%",
            "Memory pressure: quiet using 2.0 GB",
            "Idle hog: quiet holding 2.0 GB",
        ]
    );
    assert_eq!(out[1].detail, "Close unused apps or lower priority of PID -5.");
}

#[test]
fn no_rows_no_advice() {
    assert!(make_suggestions(&[], 100_000, 100_000, &limits(0, 0)).is_empty());
}

#[test]
fn default_limits_never_call_a_process_idle() {
    let d = Thresholds::default();
    assert_eq!((d.cpu_percent, d.mem_percent, d.idle_cpu, d.idle_io_bps, d.heavy_mem_bytes), (0, 0, 0, 0, 0));
    let rows = vec![row(1, "x", 0, u64::MAX, 0, 0)];
    assert!(make_suggestions(&rows, 0, 0, &d).is_empty());
    assert_eq!(make_suggestions(&rows, 1, 1, &d).len(), 2);
}

#[test]
fn advisory_kinds() {
    assert_eq!(advisory_kind("High CPU: A at 95.0%"), AdvisoryKind::Cpu);
    assert_eq!(advisory_kind("Idle hog: x holding 1.0 GB"), AdvisoryKind::Idle);
    assert_eq!(advisory_kind("Memory pressure: x using 1.0 GB"), AdvisoryKind::Memory);
    assert_eq!(advisory_kind("Memory pressure: CPU burner using 1.0 GB"), AdvisoryKind::Cpu);
    assert_eq!(advisory_kind("memory idle cpu"), AdvisoryKind::Other);
    assert_eq!(advisory_kind(""), AdvisoryKind::Other);
}

#[test]
fn suggestion_default_is_empty() {
    let s = Suggestion::default();
    assert_eq!(s.title, "");
    assert_eq!(s.detail, "");
}
