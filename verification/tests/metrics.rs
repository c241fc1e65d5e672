use cardyn::metrics::{Histories, History, HistoryMetric, RingBuffer, HISTORY_CAPACITY};

#[test]
fn ring_buffer_evicts_oldest_beyond_capacity() {
    let mut rb = RingBuffer::new(3);
    for i in 1..=5u64 {
        rb.push(i, i as f64);
    }
    let h = rb.history();
    assert_eq!(rb.len(), 3);
    assert_eq!(h.t, vec![3, 4, 5]);
    assert_eq!(h.v, vec![3.0, 4.0, 5.0]);
}

#[test]
fn ring_buffer_keeps_columns_aligned() {
    let mut rb = RingBuffer::new(2);
    for i in 0..10u64 {
        rb.push(i, (i * 10) as f64);
    }
    let h = rb.history();
    assert_eq!(h.t.len(), h.v.len());
    assert_eq!(h.t.len(), 2);
    assert_eq!(h.t, vec![8, 9]);
    assert_eq!(h.v, vec![80.0, 90.0]);
}

#[test]
fn ring_buffer_history_empty_when_unfilled() {
    let rb = RingBuffer::<f64>::new(4);
    let h = rb.history();
    assert!(rb.is_empty());
    assert_eq!(rb.len(), 0);
    assert!(h.t.is_empty());
    assert!(h.v.is_empty());
}

#[test]
fn ring_buffer_under_capacity_keeps_insertion_order() {
    let mut rb = RingBuffer::new(5);
    rb.push(10, 1.5);
    rb.push(20, 2.5);
    rb.push(30, 3.5);
    let h = rb.history();
    assert_eq!(rb.len(), 3);
    assert_eq!(h.t, vec![10, 20, 30]);
    assert_eq!(h.v, vec![1.5, 2.5, 3.5]);
}

#[test]
fn ring_buffer_default_uses_history_capacity() {
    let rb = RingBuffer::<f64>::default();
    assert_eq!(rb.len(), 0);
    let mut rb = RingBuffer::with_default_capacity();
    for i in 0..(HISTORY_CAPACITY as u64 + 10) {
        rb.push(i, i as f64);
    }
    assert_eq!(rb.len(), HISTORY_CAPACITY);
}

#[test]
fn ring_buffer_zero_capacity_stays_empty() {
    let mut rb = RingBuffer::new(0);
    rb.push(1, 1.0);
    rb.push(2, 2.0);
    assert!(rb.is_empty());
    let h = rb.history();
    assert!(h.t.is_empty());
    assert!(h.v.is_empty());
}

#[test]
fn ring_buffer_holds_last_cap_of_all_pushes() {
    // Pushing 1..=7 into a window of 4 keeps exactly the last 4, oldest first.
    let mut rb = RingBuffer::new(4);
    for i in 1..=7u64 {
        rb.push(i * 100, (i as f64) / 2.0);
    }
    let h = rb.history();
    assert_eq!(h.t, vec![400, 500, 600, 700]);
    assert_eq!(h.v, vec![2.0, 2.5, 3.0, 3.5]);
}

#[test]
fn ring_buffer_exactly_full_keeps_everything() {
    let mut rb = RingBuffer::new(3);
    rb.push(1, 'a');
    rb.push(2, 'b');
    rb.push(3, 'c');
    let h = rb.history();
    assert_eq!(h.t, vec![1, 2, 3]);
    assert_eq!(h.v, vec!['a', 'b', 'c']);
    rb.push(4, 'd');
    let h = rb.history();
    assert_eq!(h.t, vec![2, 3, 4]);
    assert_eq!(h.v, vec!['b', 'c', 'd']);
    assert_eq!(rb.len(), 3);
}

#[test]
fn histories_default_reports_empty_series() {
    let hs = Histories::<f64>::default();
    let all = [
        HistoryMetric::Cpu,
        HistoryMetric::Mem,
        HistoryMetric::GpuUtil,
        HistoryMetric::GpuMem,
        HistoryMetric::DiskRead,
        HistoryMetric::DiskWrite,
        HistoryMetric::NetRx,
        HistoryMetric::NetTx,
    ];
    for m in all {
        let h: History<f64> = hs.history(m);
        assert!(h.t.is_empty());
        assert!(h.v.is_empty());
    }
}

#[test]
fn histories_push_touches_only_its_series() {
    let mut hs = Histories::default();
    hs.push(HistoryMetric::Cpu, 1000, 12.5);
    hs.push(HistoryMetric::Cpu, 2000, 25.0);
    hs.push(HistoryMetric::NetTx, 2000, 7.0);
    let cpu = hs.history(HistoryMetric::Cpu);
    assert_eq!(cpu.t, vec![1000, 2000]);
    assert_eq!(cpu.v, vec![12.5, 25.0]);
    let tx = hs.history(HistoryMetric::NetTx);
    assert_eq!(tx.t, vec![2000]);
    assert_eq!(tx.v, vec![7.0]);
    let mem = hs.history(HistoryMetric::Mem);
    assert!(mem.t.is_empty());
    assert!(mem.v.is_empty());
}

#[test]
fn histories_series_bounded_by_history_capacity() {
    let mut hs = Histories::default();
    for i in 0..(HISTORY_CAPACITY as u64 + 5) {
        hs.push(HistoryMetric::GpuUtil, i, i as f64);
    }
    let h = hs.history(HistoryMetric::GpuUtil);
    assert_eq!(h.t.len(), HISTORY_CAPACITY);
    assert_eq!(h.v.len(), HISTORY_CAPACITY);
    assert_eq!(h.t[0], 5);
    assert_eq!(h.t[HISTORY_CAPACITY - 1], HISTORY_CAPACITY as u64 + 4);
}

#[test]
fn history_metric_compares_by_variant() {
    assert_eq!(HistoryMetric::Cpu, HistoryMetric::Cpu);
    assert_ne!(HistoryMetric::NetRx, HistoryMetric::NetTx);
}
