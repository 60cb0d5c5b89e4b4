use flaregun::outf::Buf;
use flaregun::render::{OutputFormat, TimeFormat};
use flaregun::supervisor::{
    cfg_for_tool, effective_time_format, enabled, finish_run, slot_error, slot_init, slot_step,
    Opts, RunEnd, SlotEvent, SlotState, ToolKind,
};
use flaregun::tool::Error;

fn opts() -> Opts {
    Opts {
        all: false,
        bio_lat: false,
        rq_lat: false,
        fs_lat: false,
        tcp_pkt_lat: false,
        cpu_pct: false,
        mem_pct: false,
        pid: 0,
        tgid: 0,
        min_lat_us: 10_000,
        min_bio_lat_us: None,
        min_rq_lat_us: None,
        min_fs_lat_us: None,
        min_tcp_pkt_lat_us: None,
        reporting_interval_ms: 1000,
        output_format: OutputFormat::Columnar,
        time_format: TimeFormat::Iso8601,
        buffered: true,
        no_header: false,
        just_header: false,
    }
}

const ALL_TOOLS: [ToolKind; 6] = [
    ToolKind::BioLat,
    ToolKind::RqLat,
    ToolKind::FsLat,
    ToolKind::TcpPktLat,
    ToolKind::CpuPct,
    ToolKind::MemPct,
];

#[test]
fn override_beats_the_shared_threshold_only_for_its_tool() {
    let mut o = opts();
    o.min_bio_lat_us = Some(500);
    let bio = cfg_for_tool(&o, ToolKind::BioLat);
    let rq = cfg_for_tool(&o, ToolKind::RqLat);
    assert_eq!(bio.min_lat_us, 500);
    assert_eq!(rq.min_lat_us, 10_000);
}

#[test]
fn tool_cfg_copies_the_targets() {
    let mut o = opts();
    o.pid = 42;
    o.tgid = 44;
    o.reporting_interval_ms = 250;
    for k in ALL_TOOLS {
        let c = cfg_for_tool(&o, k);
        assert_eq!(c.targ_pid, 42);
        assert_eq!(c.targ_tgid, 44);
        assert_eq!(c.targ_reporting_interval_ms, 250);
        assert!(!c.targ_filter_dev && !c.targ_filter_cgroup && !c.targ_filter_queued);
    }
}

#[test]
fn all_enables_every_tool() {
    let mut o = opts();
    o.all = true;
    for k in ALL_TOOLS {
        assert!(enabled(&o, k));
    }
}

#[test]
fn one_flag_enables_one_tool() {
    let mut o = opts();
    o.rq_lat = true;
    assert!(enabled(&o, ToolKind::RqLat));
    assert!(!enabled(&o, ToolKind::BioLat));
    assert!(!enabled(&o, ToolKind::CpuPct));
}

#[test]
fn disabled_slots_never_resolve() {
    // With every enable flag false, a slot starts Disabled and no
    // sequence of observed events moves it: the race can only end via
    // the interrupt path.
    let o = opts();
    for k in ALL_TOOLS {
        let mut s = slot_init(&o, k);
        assert!(matches!(s, SlotState::Disabled));
        for ev in [
            SlotEvent::EventReady,
            SlotEvent::StreamEnded,
            SlotEvent::ConstructFailed(Error::Libbpf),
            SlotEvent::StreamEnded,
        ] {
            s = slot_step(s, ev);
            assert!(matches!(s, SlotState::Disabled));
        }
    }
}

#[test]
fn an_enabled_slot_runs_until_its_stream_ends() {
    let mut o = opts();
    o.bio_lat = true;
    let mut s = slot_init(&o, ToolKind::BioLat);
    assert!(matches!(s, SlotState::Running));
    s = slot_step(s, SlotEvent::EventReady);
    assert!(matches!(s, SlotState::Running));
    s = slot_step(s, SlotEvent::StreamEnded);
    assert!(matches!(s, SlotState::Done));
    s = slot_step(s, SlotEvent::EventReady);
    assert!(matches!(s, SlotState::Done));
}

#[test]
fn construction_failure_resolves_a_slot() {
    let mut o = opts();
    o.cpu_pct = true;
    let s = slot_init(&o, ToolKind::CpuPct);
    let s = slot_step(s, SlotEvent::ConstructFailed(Error::Misconfig("no target")));
    assert!(matches!(s, SlotState::Done));
}

#[test]
fn slot_errors_distinguish_their_causes() {
    match slot_error(SlotEvent::ConstructFailed(Error::Libbpf)) {
        Error::Libbpf => {},
        _ => panic!("expected the construction error back"),
    }
    match slot_error(SlotEvent::StreamEnded) {
        Error::Runtime(m) => assert_eq!(m, "Task ended, but not because of the user"),
        _ => panic!("expected a Runtime error"),
    }
}

#[test]
fn interrupt_flushes_buffered_output_and_succeeds() {
    let mut buf = Buf::new();
    assert!(buf.write_line(b"accepted event").is_empty());
    let (chunk, outcome) = finish_run(RunEnd::Interrupted, &mut buf);
    assert_eq!(chunk.expect("buffered output must be flushed"), b"accepted event\n");
    assert!(outcome.is_ok());
    // The one flush emptied the buffer; nothing is emitted twice.
    assert!(buf.flush().is_none());
}

#[test]
fn interrupt_with_nothing_buffered_still_succeeds() {
    let mut buf = Buf::new();
    let (chunk, outcome) = finish_run(RunEnd::Interrupted, &mut buf);
    assert!(chunk.is_none());
    assert!(outcome.is_ok());
}

#[test]
fn a_tool_ending_fails_the_run_and_keeps_the_buffer() {
    let mut buf = Buf::new();
    assert!(buf.write_line(b"kept").is_empty());
    let (chunk, outcome) = finish_run(
        RunEnd::ToolEnded(Error::Runtime("Task ended, but not because of the user")),
        &mut buf,
    );
    assert!(chunk.is_none());
    match outcome {
        Err(Error::Runtime(m)) => assert_eq!(m, "Task ended, but not because of the user"),
        _ => panic!("expected the tool's error"),
    }
    assert_eq!(buf.flush().expect("buffer untouched"), b"kept\n");
}

#[test]
fn deprecated_duration_format_wins_over_time_format() {
    assert_eq!(
        effective_time_format(Some(TimeFormat::Usecs), TimeFormat::Iso8601),
        TimeFormat::Usecs
    );
    assert_eq!(
        effective_time_format(None, TimeFormat::Iso8601),
        TimeFormat::Iso8601
    );
}

#[test]
fn rodata_bytes_lay_out_threshold_then_targets() {
    let mut o = opts();
    o.pid = -1;
    o.tgid = 7;
    o.min_lat_us = 500;
    let c = cfg_for_tool(&o, ToolKind::BioLat);
    let bytes = c.rodata_bytes();
    let mut expected = Vec::new();
    expected.extend_from_slice(&500u64.to_le_bytes());
    expected.extend_from_slice(&(-1i32).to_le_bytes());
    expected.extend_from_slice(&7i32.to_le_bytes());
    assert_eq!(bytes, expected);
}
