use flaregun::{Cfg, KernelBufStream, Polled};

fn cfg() -> Cfg {
    Cfg {
        min_lat_us: 10_000,
        targ_reporting_interval_ms: 1000,
        targ_pid: 0,
        targ_tgid: 0,
        targ_dev: 0,
        targ_filter_dev: false,
        targ_filter_cgroup: false,
        targ_filter_queued: false,
    }
}

fn raw_record(lat_us: u64) -> Vec<u8> {
    let mut data = vec![0u8; 32];
    data[..4].copy_from_slice(b"task");
    data[16..20].copy_from_slice(&7i32.to_le_bytes());
    data[24..32].copy_from_slice(&lat_us.to_le_bytes());
    data
}

fn expect_ready_value(r: Polled<u64>) -> u64 {
    match r {
        Polled::Ready(ev) => ev.value,
        Polled::Pending => panic!("expected Ready, got Pending"),
        Polled::Ended => panic!("expected Ready, got Ended"),
    }
}

#[test]
fn three_records_come_out_in_callback_order() {
    // One buffer poll hands in three records (as from cpus 0, 1, 0);
    // the stream yields them in that order, then suspends.
    let mut s = KernelBufStream::new(cfg());
    s.on_sample(&raw_record(5), 10);
    s.on_sample(&raw_record(7), 11);
    s.on_sample(&raw_record(3), 12);
    assert_eq!(expect_ready_value(s.poll_next(true)), 5);
    assert_eq!(expect_ready_value(s.poll_next(true)), 7);
    assert_eq!(expect_ready_value(s.poll_next(true)), 3);
    assert!(matches!(s.poll_next(true), Polled::Pending));
    // After the deferred wake fires, a new buffer poll hands in one
    // more record, and only then is the stream ready again.
    s.on_sample(&raw_record(9), 13);
    assert_eq!(expect_ready_value(s.poll_next(true)), 9);
}

#[test]
fn empty_queue_is_pending_not_busy() {
    let mut s = KernelBufStream::new(cfg());
    assert!(matches!(s.poll_next(true), Polled::Pending));
    assert!(matches!(s.poll_next(true), Polled::Pending));
}

#[test]
fn one_sample_is_never_delivered_twice() {
    let mut s = KernelBufStream::new(cfg());
    s.on_sample(&raw_record(42), 0);
    assert_eq!(expect_ready_value(s.poll_next(true)), 42);
    assert!(matches!(s.poll_next(true), Polled::Pending));
}

#[test]
fn buffer_error_ends_the_stream_for_good() {
    let mut s = KernelBufStream::new(cfg());
    s.on_sample(&raw_record(1), 0);
    assert!(matches!(s.poll_next(false), Polled::Ended));
    // Ended is absorbing, even with events still queued.
    assert!(matches!(s.poll_next(true), Polled::Ended));
}

#[test]
fn events_carry_decode_time_and_identity() {
    let mut s = KernelBufStream::new(cfg());
    s.on_sample(&raw_record(8), 99);
    match s.poll_next(true) {
        Polled::Ready(ev) => {
            assert_eq!(ev.time_us, 99);
            assert_eq!(ev.pid, 7);
            assert_eq!(&ev.task[..4], b"task");
        },
        _ => panic!("expected Ready"),
    }
}
