use procdeck::models::{AggregateSample, GraphSeries, Metric, SystemGraphs, GRAPH_POINTS};

#[test]
fn series_starts_empty() {
    let s = GraphSeries::new();
    assert_eq!(s.len(), 0);
    assert_eq!(s.get(0), None);
    assert!(s.to_vec().is_empty());
    assert_eq!(GraphSeries::default().len(), 0);
}

#[test]
fn series_keeps_push_order() {
    let mut s = GraphSeries::new();
    for v in [5u64, 3, 9] {
        s.push(v);
    }
    assert_eq!(s.to_vec(), vec![5, 3, 9]);
    assert_eq!(s.get(0), Some(5));
    assert_eq!(s.get(2), Some(9));
    assert_eq!(s.get(3), None);
}

#[test]
fn series_capacity_is_120() {
    assert_eq!(GRAPH_POINTS, 120);
}

#[test]
fn series_fills_up_to_capacity() {
    let mut s = GraphSeries::new();
    for v in 0..GRAPH_POINTS as u64 {
        s.push(v);
        assert_eq!(s.len() as u64, v + 1);
    }
    assert_eq!(s.to_vec(), (0..GRAPH_POINTS as u64).collect::<Vec<u64>>());
}

#[test]
fn series_never_exceeds_capacity_and_keeps_the_latest() {
    for extra in [0usize, 1, 2, 119, 120, 121, 500] {
        let mut s = GraphSeries::new();
        let total = GRAPH_POINTS + extra;
        for v in 0..total as u64 {
            s.push(v * 10);
            assert!(s.len() <= GRAPH_POINTS);
        }
        assert_eq!(s.len(), GRAPH_POINTS);
        let expected: Vec<u64> = (extra as u64..total as u64).map(|v| v * 10).collect();
        assert_eq!(s.to_vec(), expected);
    }
}

#[test]
fn series_evicts_exactly_the_oldest() {
    let mut s = GraphSeries::new();
    for v in 1..=120u64 {
        s.push(v);
    }
    s.push(121);
    assert_eq!(s.get(0), Some(2));
    assert_eq!(s.get(119), Some(121));
    assert_eq!(s.len(), 120);
}

#[test]
fn series_clone_holds_the_same() {
    let mut s = GraphSeries::new();
    s.push(1);
    s.push(2);
    let c = s.clone();
    s.push(3);
    assert_eq!(c.to_vec(), vec![1, 2]);
    assert_eq!(s.to_vec(), vec![1, 2, 3]);
}

#[test]
fn graphs_record_each_figure_in_its_series() {
    let mut g = SystemGraphs::default();
    g.record(&AggregateSample {
        cpu_percent: 1,
        memory_percent: 2,
        disk_read_bps: 3,
        disk_write_bps: 4,
        net_rx_bps: 5,
        net_tx_bps: 6,
    });
    g.record(&AggregateSample {
        cpu_percent: 10,
        memory_percent: 20,
        disk_read_bps: 30,
        disk_write_bps: 40,
        net_rx_bps: 50,
        net_tx_bps: 60,
    });
    assert_eq!(g.cpu.to_vec(), vec![1, 10]);
    assert_eq!(g.mem.to_vec(), vec![2, 20]);
    assert_eq!(g.disk_read.to_vec(), vec![3, 30]);
    assert_eq!(g.disk_write.to_vec(), vec![4, 40]);
    assert_eq!(g.net_rx.to_vec(), vec![5, 50]);
    assert_eq!(g.net_tx.to_vec(), vec![6, 60]);
}

#[test]
fn push_to_one_metric_leaves_the_others() {
    let mut g = SystemGraphs::default();
    let all = [Metric::Cpu, Metric::Mem, Metric::DiskRead, Metric::DiskWrite, Metric::NetRx, Metric::NetTx];
    for (i, metric) in all.iter().enumerate() {
        g.push(*metric, i as u64 + 1);
        for (j, other) in all.iter().enumerate() {
            let expected: Vec<u64> = if j <= i { vec![j as u64 + 1] } else { Vec::new() };
            assert_eq!(g.series(*other).to_vec(), expected);
        }
    }
    for v in 0..200u64 {
        g.push(Metric::NetRx, v);
    }
    assert_eq!(g.series(Metric::NetRx).len(), 120);
    assert_eq!(g.series(Metric::NetRx).get(119), Some(199));
    assert_eq!(g.series(Metric::Cpu).to_vec(), vec![1]);
}
