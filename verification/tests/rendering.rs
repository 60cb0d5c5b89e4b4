use flaregun::render::{
    bytes_to_str, duration_to_hh_mm_ss_mss_string, duration_to_hh_mm_ss_string,
    duration_to_usecs_string, format_line, pct_string, show_event, show_header,
    str_trim_end, time_as_iso_8601_string, try_bytes_to_str, try_show_event, u64_to_string,
    OutputFormat, TimeFormat,
};
use flaregun::Event;

#[test]
fn usecs_are_rendered_in_decimal() {
    assert_eq!(duration_to_usecs_string(0), "0");
    assert_eq!(duration_to_usecs_string(101410), "101410");
    assert_eq!(u64_to_string(u64::MAX), u64::MAX.to_string());
}

#[test]
fn hh_mm_ss_is_zero_padded() {
    let us: u64 = (1 * 3600 + 2 * 60 + 3) * 1_000_000;
    assert_eq!(duration_to_hh_mm_ss_string(us), "01:02:03");
    assert_eq!(duration_to_hh_mm_ss_string(0), "00:00:00");
}

#[test]
fn hours_wrap_at_ninety_nine() {
    let us = 100u64 * 3600 * 1_000_000;
    assert_eq!(duration_to_hh_mm_ss_string(us), "01:00:00");
}

#[test]
fn hh_mm_ss_mss_appends_milliseconds() {
    let us: u64 = (1 * 3600 + 2 * 60 + 3) * 1_000_000 + 456_789;
    assert_eq!(duration_to_hh_mm_ss_mss_string(us), "01:02:03.456");
    assert_eq!(duration_to_hh_mm_ss_mss_string(1000), "00:00:00.001");
}

#[test]
fn task_bytes_are_trimmed_for_display() {
    assert_eq!(bytes_to_str(b"systemd\0\0\0\0\0\0\0\0\0"), "systemd");
    assert_eq!(bytes_to_str(b"  padded  "), "padded");
    assert_eq!(bytes_to_str(b" x y \0\0"), "x y");
    assert_eq!(bytes_to_str(b"\0\0"), "");
    assert_eq!(bytes_to_str(b""), "");
}

#[test]
fn percentages_use_two_decimal_places() {
    assert_eq!(pct_string(0), "0.00");
    assert_eq!(pct_string(5), "0.05");
    assert_eq!(pct_string(1234), "12.34");
    assert_eq!(pct_string(10000), "100.00");
}

#[test]
fn columnar_lines_match_fixed_widths() {
    let line = format_line(OutputFormat::Columnar, "cpu_pct", "101410", "systemd", 1, "0.00");
    let expected = format!(
        "{:<12} {:<13} {:<20} {:<8} {:<14}",
        "cpu_pct", "101410", "systemd", 1, "0.00"
    );
    assert_eq!(line, expected);
}

#[test]
fn csv_lines_are_comma_separated() {
    let line = format_line(OutputFormat::Csv, "cpu_pct", "101459", "systemd", 1, "0.00");
    assert_eq!(line, "cpu_pct,101459,systemd,1,0.00");
}

#[test]
fn json_lines_quote_text_fields_only() {
    let line = format_line(OutputFormat::Json, "cpu_pct", "101363", "systemd", 1, "0.00");
    assert_eq!(
        line,
        r#"{"tool":"cpu_pct","time":"101363","task":"systemd","pid":1,"value":0.00}"#
    );
}

#[test]
fn header_follows_the_output_format() {
    let expected = format!(
        "{:<12} {:<13} {:<20} {:<8} {:<14}",
        "tool", "time", "task", "pid", "value"
    );
    assert_eq!(show_header(OutputFormat::Columnar), Some(expected));
    assert_eq!(
        show_header(OutputFormat::Csv),
        Some("tool,time,task,pid,value".to_string())
    );
    assert_eq!(show_header(OutputFormat::Json), None);
}

fn lat_event(us: u64, lat: u64) -> Event<u64> {
    let mut task = [b' '; 16];
    task[..7].copy_from_slice(b"systemd");
    Event { time_us: us, task, pid: 1, value: lat }
}

#[test]
fn show_event_renders_latency_events() {
    let ev = lat_event(101410, 5);
    let line = show_event("bio_lat", OutputFormat::Csv, TimeFormat::Usecs, &ev);
    assert_eq!(line, "bio_lat,101410,systemd,1,5");
}

#[test]
fn show_event_renders_percentage_events() {
    let mut task = [b' '; 16];
    task[..7].copy_from_slice(b"systemd");
    let ev = Event { time_us: 101363, task, pid: 1, value: "0.00".to_string() };
    let line = show_event("cpu_pct", OutputFormat::Json, TimeFormat::DurationUsecs, &ev);
    assert_eq!(
        line,
        r#"{"tool":"cpu_pct","time":"101363","task":"systemd","pid":1,"value":0.00}"#
    );
}

#[test]
fn show_event_duration_formats_agree_with_duration_strings() {
    let ev = lat_event(3_723_000_000, 9);
    let line = show_event("rq_lat", OutputFormat::Csv, TimeFormat::HhMmSs, &ev);
    assert_eq!(line, "rq_lat,01:02:03,systemd,1,9");
    let line = show_event("rq_lat", OutputFormat::Csv, TimeFormat::DurationHhMmSsMss, &ev);
    assert_eq!(line, "rq_lat,01:02:03.000,systemd,1,9");
}

#[test]
fn iso_8601_time_is_plausible() {
    let t = time_as_iso_8601_string();
    assert!(t.len() >= 20);
    assert!(t.is_ascii());
    assert!(t.contains('T'));
}

#[test]
fn show_event_iso_keeps_the_other_columns() {
    let ev = lat_event(0, 5);
    let line = show_event("fs_lat", OutputFormat::Csv, TimeFormat::Iso8601, &ev);
    let fields: Vec<&str> = line.split(',').collect();
    assert_eq!(fields.len(), 5);
    assert_eq!(fields[0], "fs_lat");
    assert_eq!(fields[2], "systemd");
    assert_eq!(fields[3], "1");
    assert_eq!(fields[4], "5");
}

#[test]
fn try_bytes_to_str_accepts_exactly_utf8() {
    assert_eq!(
        try_bytes_to_str(b"systemd\0\0"),
        Some("systemd".to_string())
    );
    assert_eq!(try_bytes_to_str(b""), Some("".to_string()));
    // A non-ASCII UTF-8 name is displayed as its characters.
    assert_eq!(
        try_bytes_to_str("na\u{ef}ve\0\0".as_bytes()),
        Some("na\u{ef}ve".to_string())
    );
    // Text that is not UTF-8 is refused, never mangled.
    assert_eq!(try_bytes_to_str(&[b'a', 0xFF]), None);
    assert_eq!(try_bytes_to_str(&[0x80, 0x00]), None);
}

#[test]
fn bytes_to_str_decodes_utf8_names() {
    assert_eq!(bytes_to_str("caf\u{e9}  \0\0".as_bytes()), "caf\u{e9}");
}

#[test]
fn try_show_event_drops_only_invalid_utf8_task_names() {
    let ev = lat_event(101410, 5);
    let line = try_show_event("bio_lat", OutputFormat::Csv, TimeFormat::Usecs, &ev);
    assert_eq!(line, Some("bio_lat,101410,systemd,1,5".to_string()));
    // A two-byte UTF-8 character in the name is rendered, not dropped.
    let mut task = [b' '; 16];
    task[0] = 0xC3;
    task[1] = 0xA9;
    task[2] = b'x';
    let accented = Event { time_us: 101410, task, pid: 1, value: 5u64 };
    let line = try_show_event("bio_lat", OutputFormat::Csv, TimeFormat::Usecs, &accented);
    assert_eq!(
        line,
        Some(format!("bio_lat,101410,{}x,1,5", '\u{e9}'))
    );
    // A lone continuation byte is not UTF-8: the event is refused.
    let mut odd = ev;
    odd.task[0] = 0x80;
    let line = try_show_event("bio_lat", OutputFormat::Csv, TimeFormat::Usecs, &odd);
    assert_eq!(line, None);
}

#[test]
fn str_trim_end_strips_the_comm_newline() {
    assert_eq!(str_trim_end("systemd\n"), "systemd");
    assert_eq!(str_trim_end("  fl  "), "  fl");
    assert_eq!(str_trim_end(""), "");
}

#[test]
fn trim_strips_unicode_whitespace_like_str_trim() {
    let text = "\u{a0}name\u{2003}";
    assert_eq!(bytes_to_str(text.as_bytes()), text.trim());
    assert_eq!(bytes_to_str(text.as_bytes()), "name");
}
