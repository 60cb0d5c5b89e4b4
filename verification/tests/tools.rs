use flaregun::tool::{collector_step, sampler_scope, CollectorStep, Error, SamplerScope, Tool};
use flaregun::{BioLat, Cfg, CpuPct, MemPct, Polled};

fn cfg(pid: i32, tgid: i32) -> Cfg {
    Cfg {
        min_lat_us: 10_000,
        targ_reporting_interval_ms: 1000,
        targ_pid: pid,
        targ_tgid: tgid,
        targ_dev: 0,
        targ_filter_dev: false,
        targ_filter_cgroup: false,
        targ_filter_queued: false,
    }
}

#[test]
fn polling_tool_without_target_is_misconfigured() {
    // No worker exists to spawn: construction fails before anything
    // could sample.
    match CpuPct::try_new(cfg(0, 0)) {
        Err(Error::Misconfig(_)) => {},
        Err(_) => panic!("expected a Misconfig error"),
        Ok(_) => panic!("expected construction to fail"),
    }
    match MemPct::try_new(cfg(0, 0)) {
        Err(Error::Misconfig(_)) => {},
        Err(_) => panic!("expected a Misconfig error"),
        Ok(_) => panic!("expected construction to fail"),
    }
}

#[test]
fn polling_tool_accepts_pid_or_tgid() {
    assert!(CpuPct::try_new(cfg(42, 0)).is_ok());
    assert!(CpuPct::try_new(cfg(0, 44)).is_ok());
    assert!(MemPct::try_new(cfg(-1, 0)).is_ok());
}

#[test]
fn polling_tool_starts_with_placeholder_name() {
    let t = CpuPct::try_new(cfg(42, 0)).unwrap();
    assert_eq!(&t.task[..1], b"?");
    assert_eq!(&t.task[1..], &[b' '; 15]);
}

#[test]
fn set_task_name_replaces_the_placeholder() {
    let mut t = CpuPct::try_new(cfg(42, 0)).unwrap();
    t.set_task_name(b"systemd");
    assert_eq!(&t.task[..7], b"systemd");
    assert_eq!(&t.task[7..], &[b' '; 9]);
}

#[test]
fn polling_stream_formats_queued_samples() {
    let mut t = CpuPct::try_new(cfg(42, 0)).unwrap();
    match t.poll_next(Some(1234), 77) {
        Polled::Ready(ev) => {
            assert_eq!(ev.value, "12.34");
            assert_eq!(ev.time_us, 77);
            assert_eq!(ev.pid, 42);
            assert_eq!(ev.task, t.task);
        },
        _ => panic!("expected Ready"),
    }
    assert!(matches!(t.poll_next(None, 78), Polled::Pending));
}

#[test]
fn mem_stream_behaves_like_cpu_stream() {
    let mut t = MemPct::try_new(cfg(0, 9)).unwrap();
    match t.poll_next(Some(5), 1) {
        Polled::Ready(ev) => assert_eq!(ev.value, "0.05"),
        _ => panic!("expected Ready"),
    }
}

#[test]
fn kernel_tool_construction_has_no_cfg_precondition() {
    let t = BioLat::try_new(cfg(0, 0)).unwrap();
    assert_eq!(t.stream.cfg, cfg(0, 0));
    assert!(!t.stream.ended);
}

#[test]
fn sampler_scope_follows_the_target_pid() {
    assert_eq!(sampler_scope(42), SamplerScope::Process(42));
    assert_eq!(sampler_scope(0), SamplerScope::System);
    assert_eq!(sampler_scope(-5), SamplerScope::System);
}

#[test]
fn collector_delivers_while_the_consumer_listens() {
    assert_eq!(collector_step(true, true), CollectorStep::Deliver);
}

#[test]
fn collector_stops_when_a_read_fails_or_the_consumer_is_gone() {
    // A failed sample read is fatal for the tool: the worker logs it
    // and its loop exits; it never retries.
    assert_eq!(collector_step(false, true), CollectorStep::Stop);
    assert_eq!(collector_step(true, false), CollectorStep::Stop);
    assert_eq!(collector_step(false, false), CollectorStep::Stop);
}

#[test]
fn error_messages_name_the_kind() {
    assert_eq!(Error::Libbpf.to_message(), "Libbpf");
    assert_eq!(Error::Misconfig("no target").to_message(), "Misconfig: no target");
    assert_eq!(Error::Runtime("gone").to_message(), "Runtime: gone");
}

#[test]
fn prog_start_latches_once() {
    let mut start: Option<u64> = None;
    assert_eq!(flaregun::time::prog_start(&mut start, 100), 100);
    assert_eq!(start, Some(100));
    assert_eq!(flaregun::time::prog_start(&mut start, 999), 100);
    assert_eq!(start, Some(100));
}

#[test]
fn output_init_claims_the_run_exactly_once() {
    let mut called = false;
    assert!(flaregun::outf::init(&mut called));
    assert!(called);
    assert!(!flaregun::outf::init(&mut called));
    assert!(called);
}
