//! Rendering of events into columnar, CSV and JSON lines, and the time
//! and number formats those lines use.

use vstd::prelude::*;
use vstd::string::{StrSliceExecFns, StringExecFns};

verus! {

broadcast use vstd::string::is_ascii_spec_bytes;

/// Output styles: some are better for humans (columnar), others for
/// machines (CSV, JSON).
#[derive(Debug, Clone, Copy, PartialEq, Eq, Structural)]
pub enum OutputFormat {
    Columnar,
    Csv,
    Json,
}

/// How an event's time column is rendered: the duration since the
/// process-relative clock's start in one of three shapes, or the current
/// UTC time as RFC 3339.  The short names mean the same as the long ones.
#[derive(Debug, Clone, Copy, PartialEq, Eq, Structural)]
pub enum TimeFormat {
    DurationHhMmSs,
    DurationHhMmSsMss,
    DurationUsecs,
    TimeIso8601,
    HhMmSs,
    HhMmSsMss,
    Usecs,
    Iso8601,
}

/// ASCII bytes read as the characters with the same code points.
pub open spec fn ascii_chars(s: Seq<u8>) -> Seq<char> {
    s.map_values(|b: u8| b as char)
}

/// Every byte is below 128.
pub open spec fn all_ascii(s: Seq<u8>) -> bool {
    forall|i: int| 0 <= i < s.len() ==> s[i] < 128
}

/// Relies on `String::from_utf8`: succeeds exactly on valid UTF-8 and
/// returns the string whose characters decode those bytes.
#[verifier::external_body]
fn utf8_to_string(v: Vec<u8>) -> (r: Option<String>)
    ensures
        r is Some <==> vstd::utf8::valid_utf8(v@),
        r matches Some(s) ==> s@ == vstd::utf8::decode_utf8(v@),
{
    String::from_utf8(v).ok()
}

/// ASCII bytes are valid UTF-8 and decode to the characters with the
/// same code points.
pub proof fn lemma_ascii_decode(s: Seq<u8>)
    requires
        all_ascii(s),
    ensures
        vstd::utf8::valid_utf8(s),
        vstd::utf8::decode_utf8(s) == ascii_chars(s),
{
    let chars = ascii_chars(s);
    assert forall|i: int| 0 <= i < chars.len() implies '\0' <= #[trigger] chars[i] <= '\u{7f}' by {
        assert(s[i] < 128);
    }
    assert(vstd::utf8::is_ascii_chars(chars));
    vstd::utf8::is_ascii_chars_encode_utf8(chars);
    assert(vstd::utf8::encode_utf8(chars) =~= s);
    vstd::utf8::encode_utf8_valid_utf8(chars);
    vstd::utf8::encode_utf8_decode_utf8(chars);
}

/// Build the string of a buffer of ASCII bytes.
fn ascii_to_string(v: Vec<u8>) -> (s: String)
    requires
        all_ascii(v@),
    ensures
        s@ == ascii_chars(v@),
{
    proof {
        lemma_ascii_decode(v@);
    }
    match utf8_to_string(v) {
        Some(s) => s,
        None => unreached(),
    }
}

/// The decimal digits of `n`, as ASCII bytes, most significant first,
/// with no leading zero except for `n == 0` itself.
pub open spec fn spec_dec_bytes(n: nat) -> Seq<u8>
    decreases n,
{
    if n < 10 {
        seq![(48 + n) as u8]
    } else {
        spec_dec_bytes(n / 10).push((48 + n % 10) as u8)
    }
}

/// The decimal rendering of `n`.
pub open spec fn spec_dec(n: nat) -> Seq<char> {
    ascii_chars(spec_dec_bytes(n))
}

/// Decimal digits are ASCII.
pub proof fn lemma_dec_bytes_ascii(n: nat)
    ensures
        all_ascii(spec_dec_bytes(n)),
        spec_dec_bytes(n).len() >= 1,
    decreases n,
{
    if n >= 10 {
        lemma_dec_bytes_ascii(n / 10);
    }
}

fn dec_bytes(n: u64) -> (v: Vec<u8>)
    ensures
        v@ == spec_dec_bytes(n as nat),
    decreases n,
{
    if n < 10 {
        let mut v: Vec<u8> = Vec::new();
        v.push(48 + n as u8);
        v
    } else {
        let mut v = dec_bytes(n / 10);
        v.push(48 + (n % 10) as u8);
        v
    }
}

/// Render `n` in decimal.
pub fn u64_to_string(n: u64) -> (s: String)
    ensures
        s@ == spec_dec(n as nat),
{
    let v = dec_bytes(n);
    proof {
        lemma_dec_bytes_ascii(n as nat);
    }
    ascii_to_string(v)
}

/// Two decimal digits, zero-padded, for a value below 100.
pub open spec fn spec_two_digit_bytes(n: nat) -> Seq<u8> {
    seq![(48 + n / 10) as u8, (48 + n % 10) as u8]
}

fn push_two_digits(v: &mut Vec<u8>, n: u64)
    requires
        n < 100,
    ensures
        final(v)@ == old(v)@ + spec_two_digit_bytes(n as nat),
{
    v.push(48 + (n / 10) as u8);
    v.push(48 + (n % 10) as u8);
    proof {
        assert(v@ =~= old(v)@ + spec_two_digit_bytes(n as nat));
    }
}

/// Three decimal digits, zero-padded, for a value below 1000.
pub open spec fn spec_three_digit_bytes(n: nat) -> Seq<u8> {
    seq![(48 + n / 100) as u8, (48 + (n / 10) % 10) as u8, (48 + n % 10) as u8]
}

fn push_three_digits(v: &mut Vec<u8>, n: u64)
    requires
        n < 1000,
    ensures
        final(v)@ == old(v)@ + spec_three_digit_bytes(n as nat),
{
    v.push(48 + (n / 100) as u8);
    v.push(48 + ((n / 10) % 10) as u8);
    v.push(48 + (n % 10) as u8);
    proof {
        assert(v@ =~= old(v)@ + spec_three_digit_bytes(n as nat));
    }
}

/// The hh:mm:ss rendering of a duration of `us` microseconds: hours are
/// shown modulo 99, as the original column is two digits wide.
pub open spec fn spec_hh_mm_ss_bytes(us: nat) -> Seq<u8> {
    spec_two_digit_bytes(us / 1000000 / 3600 % 99) + seq![58u8] + spec_two_digit_bytes(
        us / 1000000 / 60 % 60,
    ) + seq![58u8] + spec_two_digit_bytes(us / 1000000 % 60)
}

/// Render a duration of `us` microseconds as `hh:mm:ss`.
pub fn duration_to_hh_mm_ss_string(us: u64) -> (s: String)
    ensures
        s@ == ascii_chars(spec_hh_mm_ss_bytes(us as nat)),
{
    let v = hh_mm_ss_bytes(us);
    ascii_to_string(v)
}

fn hh_mm_ss_bytes(us: u64) -> (v: Vec<u8>)
    ensures
        v@ == spec_hh_mm_ss_bytes(us as nat),
        all_ascii(v@),
{
    let secs = us / 1000000;
    let hh = secs / 3600 % 99;
    let mm = secs / 60 % 60;
    let ss = secs % 60;
    let mut v: Vec<u8> = Vec::new();
    push_two_digits(&mut v, hh);
    v.push(58);
    push_two_digits(&mut v, mm);
    v.push(58);
    push_two_digits(&mut v, ss);
    proof {
        assert(v@ =~= spec_hh_mm_ss_bytes(us as nat));
    }
    v
}

/// The hh:mm:ss.mss rendering: the hh:mm:ss shape followed by a dot and
/// the millisecond remainder, three digits, zero-padded.
pub open spec fn spec_hh_mm_ss_mss_bytes(us: nat) -> Seq<u8> {
    spec_hh_mm_ss_bytes(us) + seq![46u8] + spec_three_digit_bytes(us / 1000 % 1000)
}

/// Render a duration of `us` microseconds as `hh:mm:ss.mss`.
pub fn duration_to_hh_mm_ss_mss_string(us: u64) -> (s: String)
    ensures
        s@ == ascii_chars(spec_hh_mm_ss_mss_bytes(us as nat)),
{
    let mut v = hh_mm_ss_bytes(us);
    v.push(46);
    let ms = us / 1000 % 1000;
    push_three_digits(&mut v, ms);
    proof {
        assert(v@ =~= spec_hh_mm_ss_mss_bytes(us as nat));
    }
    ascii_to_string(v)
}

/// Render a duration of `us` microseconds as a bare microsecond count.
pub fn duration_to_usecs_string(us: u64) -> (s: String)
    ensures
        s@ == spec_dec(us as nat),
{
    u64_to_string(us)
}

/// The two-decimal-place rendering of a percentage given in hundredths:
/// the integer part, a dot, and the two-digit fractional part.
pub open spec fn spec_pct_bytes(centi: nat) -> Seq<u8> {
    spec_dec_bytes(centi / 100) + seq![46u8] + spec_two_digit_bytes(centi % 100)
}

/// The two-decimal-place rendering of a percentage, as characters.
pub open spec fn spec_pct(centi: nat) -> Seq<char> {
    ascii_chars(spec_pct_bytes(centi))
}

/// Render a sampled percentage, given in hundredths of a percent, with
/// two decimal places.
pub fn pct_string(centi: u64) -> (s: String)
    ensures
        s@ == spec_pct(centi as nat),
{
    let mut v = dec_bytes(centi / 100);
    v.push(46);
    push_two_digits(&mut v, centi % 100);
    proof {
        lemma_dec_bytes_ascii((centi / 100) as nat);
        assert(v@ =~= spec_pct_bytes(centi as nat));
    }
    ascii_to_string(v)
}

/// `s` left-aligned in a field `w` characters wide: `s` itself, then
/// spaces up to the width; a longer `s` is kept whole.
pub open spec fn spec_pad(s: Seq<char>, w: nat) -> Seq<char> {
    if s.len() >= w {
        s
    } else {
        s + Seq::new((w - s.len()) as nat, |i: int| ' ')
    }
}

/// Append `s` to `out`, space-padded on the right to `w` characters.
fn pad_append(out: &mut String, s: &str, w: usize)
    ensures
        final(out)@ == old(out)@ + spec_pad(s@, w as nat),
{
    out.append(s);
    let n = s.unicode_len();
    let mut i = n;
    proof {
        assert(out@ =~= old(out)@ + spec_pad(s@, w as nat).take(i as int)) by {
            reveal_strlit(" ");
        }
    }
    while i < w
        invariant
            n == s@.len(),
            n <= i,
            i <= w || i == n,
            out@ == old(out)@ + spec_pad(s@, w as nat).take(i as int),
            spec_pad(s@, w as nat).len() == if n >= w { n as int } else { w as int },
        decreases w - i,
    {
        out.append(" ");
        proof {
            reveal_strlit(" ");
            assert(out@ =~= old(out)@ + spec_pad(s@, w as nat).take(i + 1));
        }
        i += 1;
    }
    proof {
        assert(spec_pad(s@, w as nat).take(spec_pad(s@, w as nat).len() as int) =~= spec_pad(
            s@,
            w as nat,
        ));
    }
}


/// A whitespace character, as `str::trim` strips it: the Unicode
/// White_Space code points.
pub open spec fn is_ws_char(c: char) -> bool {
    ||| c as u32 == 32
    ||| (9 <= c as u32 && c as u32 <= 13)
    ||| c as u32 == 0x85
    ||| c as u32 == 0xa0
    ||| c as u32 == 0x1680
    ||| (0x2000 <= c as u32 && c as u32 <= 0x200a)
    ||| c as u32 == 0x2028
    ||| c as u32 == 0x2029
    ||| c as u32 == 0x202f
    ||| c as u32 == 0x205f
    ||| c as u32 == 0x3000
}

/// Whether `c` is whitespace.
fn is_ws_char_exec(c: char) -> (r: bool)
    ensures
        r == is_ws_char(c),
{
    let u = c as u32;
    u == 32 || (9 <= u && u <= 13) || u == 0x85 || u == 0xa0 || u == 0x1680 || (0x2000 <= u && u
        <= 0x200a) || u == 0x2028 || u == 0x2029 || u == 0x202f || u == 0x205f || u == 0x3000
}

/// `s` with every trailing NUL character removed.
pub open spec fn spec_strip_nul(s: Seq<char>) -> Seq<char>
    decreases s.len(),
{
    if s.len() > 0 && s.last() == '\0' {
        spec_strip_nul(s.drop_last())
    } else {
        s
    }
}

/// `s` with trailing whitespace removed.
pub open spec fn spec_trim_end(s: Seq<char>) -> Seq<char>
    decreases s.len(),
{
    if s.len() > 0 && is_ws_char(s.last()) {
        spec_trim_end(s.drop_last())
    } else {
        s
    }
}

/// `s` with leading whitespace removed.
pub open spec fn spec_trim_start(s: Seq<char>) -> Seq<char>
    decreases s.len(),
{
    if s.len() > 0 && is_ws_char(s.first()) {
        spec_trim_start(s.drop_first())
    } else {
        s
    }
}

/// How a decoded task name is displayed: trailing NUL padding
/// stripped, then whitespace trimmed from both ends.
pub open spec fn spec_task_display(s: Seq<char>) -> Seq<char> {
    spec_trim_start(spec_trim_end(spec_strip_nul(s)))
}

/// Trim a decoded task name for display.
fn trim_task(s: &str) -> (r: String)
    ensures
        r@ == spec_task_display(s@),
{
    let n = s.unicode_len();
    let mut end = n;
    proof {
        assert(s@.subrange(0, s@.len() as int) =~= s@);
    }
    while end > 0 && s.get_char(end - 1) == '\0'
        invariant
            end <= s@.len(),
            spec_strip_nul(s@) == spec_strip_nul(s@.subrange(0, end as int)),
        decreases end,
    {
        proof {
            let t = s@.subrange(0, end as int);
            assert(t.drop_last() =~= s@.subrange(0, end - 1));
        }
        end -= 1;
    }
    proof {
        let t = s@.subrange(0, end as int);
        assert(spec_strip_nul(t) == t);
        assert(spec_strip_nul(s@) == s@.subrange(0, end as int));
    }
    let mut end2 = end;
    while end2 > 0 && is_ws_char_exec(s.get_char(end2 - 1))
        invariant
            end2 <= end,
            end <= s@.len(),
            spec_trim_end(spec_strip_nul(s@)) == spec_trim_end(s@.subrange(0, end2 as int)),
        decreases end2,
    {
        proof {
            let t = s@.subrange(0, end2 as int);
            assert(t.drop_last() =~= s@.subrange(0, end2 - 1));
        }
        end2 -= 1;
    }
    proof {
        let t = s@.subrange(0, end2 as int);
        assert(spec_trim_end(t) == t);
        assert(spec_trim_end(spec_strip_nul(s@)) == s@.subrange(0, end2 as int));
    }
    let mut start: usize = 0;
    while start < end2 && is_ws_char_exec(s.get_char(start))
        invariant
            start <= end2,
            end2 <= s@.len(),
            spec_task_display(s@) == spec_trim_start(s@.subrange(start as int, end2 as int)),
        decreases end2 - start,
    {
        proof {
            let t = s@.subrange(start as int, end2 as int);
            assert(t.drop_first() =~= s@.subrange(start + 1, end2 as int));
        }
        start += 1;
    }
    proof {
        let t = s@.subrange(start as int, end2 as int);
        assert(spec_trim_start(t) == t);
        assert(spec_task_display(s@) == s@.subrange(start as int, end2 as int));
    }
    let t = s.substring_char(start, end2);
    t.to_owned()
}

/// `s` with trailing whitespace removed, as a resolved target name is
/// cleaned before it enters the fixed task buffer.
pub fn str_trim_end(s: &str) -> (r: String)
    ensures
        r@ == spec_trim_end(s@),
{
    let n = s.unicode_len();
    let mut end = n;
    proof {
        assert(s@.subrange(0, s@.len() as int) =~= s@);
    }
    while end > 0 && is_ws_char_exec(s.get_char(end - 1))
        invariant
            end <= s@.len(),
            spec_trim_end(s@) == spec_trim_end(s@.subrange(0, end as int)),
        decreases end,
    {
        proof {
            let t = s@.subrange(0, end as int);
            assert(t.drop_last() =~= s@.subrange(0, end - 1));
        }
        end -= 1;
    }
    proof {
        let t = s@.subrange(0, end as int);
        assert(spec_trim_end(t) == t);
        assert(spec_trim_end(s@) == s@.subrange(0, end as int));
    }
    let t = s.substring_char(0, end);
    t.to_owned()
}

/// Render a task-name buffer for display: decoded as UTF-8, then the
/// trailing NUL padding stripped and whitespace trimmed from both
/// ends.  A buffer that is not UTF-8 is excluded here;
/// `try_bytes_to_str` decides that case instead of panicking.
pub fn bytes_to_str(bytes: &[u8]) -> (s: String)
    requires
        vstd::utf8::valid_utf8(bytes@),
    ensures
        s@ == spec_task_display(vstd::utf8::decode_utf8(bytes@)),
{
    let v = vstd::slice::slice_to_vec(bytes);
    let whole = match utf8_to_string(v) {
        Some(w) => w,
        None => unreached(),
    };
    trim_task(whole.as_str())
}

/// Render any task-name buffer for display, total over every input:
/// `Some` of the decoded, trimmed text exactly when the buffer is
/// valid UTF-8, `None` otherwise, so a caller's accept-or-drop
/// decision on an odd task name is itself pinned down.
pub fn try_bytes_to_str(bytes: &[u8]) -> (r: Option<String>)
    ensures
        r is Some <==> vstd::utf8::valid_utf8(bytes@),
        r matches Some(s) ==> s@ == spec_task_display(vstd::utf8::decode_utf8(bytes@)),
{
    let v = vstd::slice::slice_to_vec(bytes);
    match utf8_to_string(v) {
        Some(whole) => Some(trim_task(whole.as_str())),
        None => None,
    }
}

/// The columnar row: each column left-aligned in its fixed width.
pub open spec fn spec_columnar_line(
    tool: Seq<char>,
    time: Seq<char>,
    task: Seq<char>,
    pid: Seq<char>,
    value: Seq<char>,
) -> Seq<char> {
    spec_pad(tool, 12) + " "@ + spec_pad(time, 13) + " "@ + spec_pad(task, 20) + " "@ + spec_pad(
        pid,
        8,
    ) + " "@ + spec_pad(value, 14)
}

/// The CSV row: the five columns, comma-separated, unquoted.
pub open spec fn spec_csv_line(
    tool: Seq<char>,
    time: Seq<char>,
    task: Seq<char>,
    pid: Seq<char>,
    value: Seq<char>,
) -> Seq<char> {
    tool + ","@ + time + ","@ + task + ","@ + pid + ","@ + value
}

/// The JSON row: one object per line; tool, time and task quoted, pid
/// and value bare.
pub open spec fn spec_json_line(
    tool: Seq<char>,
    time: Seq<char>,
    task: Seq<char>,
    pid: Seq<char>,
    value: Seq<char>,
) -> Seq<char> {
    "{\"tool\":\""@ + tool + "\",\"time\":\""@ + time + "\",\"task\":\""@ + task + "\",\"pid\":"@
        + pid + ",\"value\":"@ + value + "}"@
}

/// One rendered output row in the chosen style.
pub open spec fn spec_line(
    output_format: OutputFormat,
    tool: Seq<char>,
    time: Seq<char>,
    task: Seq<char>,
    pid: Seq<char>,
    value: Seq<char>,
) -> Seq<char> {
    match output_format {
        OutputFormat::Columnar => spec_columnar_line(tool, time, task, pid, value),
        OutputFormat::Csv => spec_csv_line(tool, time, task, pid, value),
        OutputFormat::Json => spec_json_line(tool, time, task, pid, value),
    }
}

/// Render one output row from its already-rendered columns.
pub fn format_line(
    output_format: OutputFormat,
    tool: &str,
    time: &str,
    task: &str,
    pid: u32,
    value: &str,
) -> (r: String)
    ensures
        r@ == spec_line(output_format, tool@, time@, task@, spec_dec(pid as nat), value@),
{
    let pid_s = u64_to_string(pid as u64);
    let mut out = String::new();
    match output_format {
        OutputFormat::Columnar => {
            pad_append(&mut out, tool, 12);
            out.append(" ");
            pad_append(&mut out, time, 13);
            out.append(" ");
            pad_append(&mut out, task, 20);
            out.append(" ");
            pad_append(&mut out, pid_s.as_str(), 8);
            out.append(" ");
            pad_append(&mut out, value, 14);
        },
        OutputFormat::Csv => {
            out.append(tool);
            out.append(",");
            out.append(time);
            out.append(",");
            out.append(task);
            out.append(",");
            out.append(pid_s.as_str());
            out.append(",");
            out.append(value);
        },
        OutputFormat::Json => {
            out.append("{\"tool\":\"");
            out.append(tool);
            out.append("\",\"time\":\"");
            out.append(time);
            out.append("\",\"task\":\"");
            out.append(task);
            out.append("\",\"pid\":");
            out.append(pid_s.as_str());
            out.append(",\"value\":");
            out.append(value);
            out.append("}");
        },
    }
    out
}

/// The header row, in the chosen style; the JSON style has no header.
pub fn show_header(output_format: OutputFormat) -> (r: Option<String>)
    ensures
        output_format == OutputFormat::Columnar ==> (r matches Some(h) && h@ == spec_columnar_line(
            "tool"@,
            "time"@,
            "task"@,
            "pid"@,
            "value"@,
        )),
        output_format == OutputFormat::Csv ==> (r matches Some(h) && h@
            == "tool,time,task,pid,value"@),
        output_format == OutputFormat::Json ==> r is None,
{
    match output_format {
        OutputFormat::Columnar => {
            let mut out = String::new();
            pad_append(&mut out, "tool", 12);
            out.append(" ");
            pad_append(&mut out, "time", 13);
            out.append(" ");
            pad_append(&mut out, "task", 20);
            out.append(" ");
            pad_append(&mut out, "pid", 8);
            out.append(" ");
            pad_append(&mut out, "value", 14);
            Some(out)
        },
        OutputFormat::Csv => Some(String::from_str("tool,time,task,pid,value")),
        OutputFormat::Json => None,
    }
}


/// A value a tool can put in an event's value column, with its exact
/// rendering.
pub trait DisplayValue {
    /// The characters `display` produces.
    spec fn display_spec(&self) -> Seq<char>;

    /// Render the value for the value column.
    fn display(&self) -> (s: String)
        ensures
            s@ == self.display_spec(),
    ;
}

/// Latency counts are rendered in decimal.
impl DisplayValue for u64 {
    open spec fn display_spec(&self) -> Seq<char> {
        spec_dec(*self as nat)
    }

    fn display(&self) -> (s: String) {
        u64_to_string(*self)
    }
}

/// Pre-rendered values (the polling tools' percentage strings) are shown
/// as they are.
impl DisplayValue for String {
    open spec fn display_spec(&self) -> Seq<char> {
        self@
    }

    fn display(&self) -> (s: String) {
        self.clone()
    }
}

/// The time column for a duration-shaped time format; `None` for the
/// RFC 3339 formats, whose text depends on the wall clock.
pub open spec fn spec_time_chars(time_format: TimeFormat, us: nat) -> Option<Seq<char>> {
    match time_format {
        TimeFormat::DurationHhMmSs | TimeFormat::HhMmSs => Some(
            ascii_chars(spec_hh_mm_ss_bytes(us)),
        ),
        TimeFormat::DurationHhMmSsMss | TimeFormat::HhMmSsMss => Some(
            ascii_chars(spec_hh_mm_ss_mss_bytes(us)),
        ),
        TimeFormat::DurationUsecs | TimeFormat::Usecs => Some(spec_dec(us)),
        TimeFormat::TimeIso8601 | TimeFormat::Iso8601 => None,
    }
}

/// Relies on chrono's `Utc::now` and `DateTime::to_rfc3339_opts`: the
/// result reads the wall clock, so only what holds of every reading is
/// stated — an RFC 3339 timestamp is non-empty ASCII text.  `Utc::now`
/// aborts when the system clock reads before the Unix epoch; no
/// precondition can name the clock, so that abort stays, as the
/// surrounding program accepts.
#[verifier::external_body]
pub fn time_as_iso_8601_string() -> (r: String)
    ensures
        r@.len() > 0,
        vstd::utf8::is_ascii_chars(r@),
{
    chrono::Utc::now().to_rfc3339_opts(chrono::SecondsFormat::Micros, true)
}

/// The rendered row for one event: the time column is pinned for the
/// duration formats; for the RFC 3339 formats it is some non-empty
/// ASCII text, since its value depends on the wall clock.
pub open spec fn spec_event_line(
    line: Seq<char>,
    output_format: OutputFormat,
    time_format: TimeFormat,
    tool: Seq<char>,
    time_us: u64,
    task: Seq<u8>,
    pid: u32,
    value: Seq<char>,
) -> bool {
    let task_chars = spec_task_display(vstd::utf8::decode_utf8(task));
    let pid_chars = spec_dec(pid as nat);
    match spec_time_chars(time_format, time_us as nat) {
        Some(t) => line == spec_line(output_format, tool, t, task_chars, pid_chars, value),
        None => exists|t: Seq<char>|
            {
                &&& t.len() > 0
                &&& vstd::utf8::is_ascii_chars(t)
                &&& line == spec_line(output_format, tool, t, task_chars, pid_chars, value)
            },
    }
}

/// Render one event as an output row: the time column in the configured
/// time format (read from the wall clock for the RFC 3339 formats), the
/// task buffer trimmed for display, the pid in decimal, and the value as
/// the tool rendered it.
pub fn show_event<V: DisplayValue>(
    tool_name: &str,
    output_format: OutputFormat,
    time_format: TimeFormat,
    event: &crate::event::Event<V>,
) -> (r: String)
    requires
        vstd::utf8::valid_utf8(event.task@),
    ensures
        spec_event_line(
            r@,
            output_format,
            time_format,
            tool_name@,
            event.time_us,
            event.task@,
            event.pid,
            event.value.display_spec(),
        ),
{
    let time_s = match time_format {
        TimeFormat::DurationHhMmSs | TimeFormat::HhMmSs => duration_to_hh_mm_ss_string(
            event.time_us,
        ),
        TimeFormat::DurationHhMmSsMss | TimeFormat::HhMmSsMss => duration_to_hh_mm_ss_mss_string(
            event.time_us,
        ),
        TimeFormat::DurationUsecs | TimeFormat::Usecs => duration_to_usecs_string(event.time_us),
        TimeFormat::TimeIso8601 | TimeFormat::Iso8601 => time_as_iso_8601_string(),
    };
    let task_s = bytes_to_str(event.task.as_slice());
    let value_s = event.value.display();
    format_line(
        output_format,
        tool_name,
        time_s.as_str(),
        task_s.as_str(),
        event.pid,
        value_s.as_str(),
    )
}

/// Render one event as an output row, total over every task buffer:
/// `Some` of the row exactly when the task buffer is valid UTF-8,
/// `None` otherwise, so a caller's accept-or-drop decision on an odd
/// task name is itself pinned down.
pub fn try_show_event<V: DisplayValue>(
    tool_name: &str,
    output_format: OutputFormat,
    time_format: TimeFormat,
    event: &crate::event::Event<V>,
) -> (r: Option<String>)
    ensures
        r is Some <==> vstd::utf8::valid_utf8(event.task@),
        r matches Some(line) ==> spec_event_line(
            line@,
            output_format,
            time_format,
            tool_name@,
            event.time_us,
            event.task@,
            event.pid,
            event.value.display_spec(),
        ),
{
    match try_bytes_to_str(event.task.as_slice()) {
        Some(_) => Some(show_event(tool_name, output_format, time_format, event)),
        None => None,
    }
}


/// Trailing space padding is invisible to end-trimming.
proof fn lemma_trim_end_pad(s: Seq<char>, k: nat)
    ensures
        spec_trim_end(s + Seq::new(k, |i: int| ' ')) == spec_trim_end(s),
    decreases k,
{
    if k == 0 {
        assert(s + Seq::new(0, |i: int| ' ') =~= s);
    } else {
        let padded = s + Seq::new(k, |i: int| ' ');
        assert(padded.len() > 0 && is_ws_char(padded.last()));
        assert(padded.drop_last() =~= s + Seq::new((k - 1) as nat, |i: int| ' '));
        lemma_trim_end_pad(s, (k - 1) as nat);
    }
}

/// A clean task name survives the fixed buffer: padding it with spaces
/// into the 16-byte task buffer, decoding it, and trimming it for
/// display gives the name's characters back.  Clean means: ASCII, at
/// most 16 bytes, and neither end is whitespace or NUL.
pub proof fn lemma_task_buf_display_round_trip(name: Seq<u8>)
    requires
        all_ascii(name),
        name.len() <= 16,
        name.len() > 0 ==> !is_ws_char(name.first() as char) && !is_ws_char(name.last() as char)
            && name.last() != 0,
    ensures
        spec_task_display(vstd::utf8::decode_utf8(crate::event::spec_task_buf(name)))
            == ascii_chars(name),
{
    let buf = crate::event::spec_task_buf(name);
    let k = (16 - name.len()) as nat;
    assert(buf =~= name + Seq::new(k, |i: int| 32u8));
    assert(all_ascii(buf));
    lemma_ascii_decode(buf);
    let chars = ascii_chars(buf);
    let nchars = ascii_chars(name);
    assert(chars =~= nchars + Seq::new(k, |i: int| ' '));
    if name.len() > 0 {
        assert(nchars.last() == name.last() as char);
        assert(nchars.last() as u32 != 0) by {
            assert(name.last() < 128 && name.last() != 0);
        }
        assert(nchars.first() == name.first() as char);
    }
    if k == 0 {
        assert(chars =~= nchars);
        assert(spec_strip_nul(chars) == chars);
        assert(spec_trim_end(chars) == chars);
        assert(spec_trim_start(chars) == chars);
    } else {
        assert(chars.last() == ' ');
        assert(spec_strip_nul(chars) == chars);
        lemma_trim_end_pad(nchars, k);
        assert(spec_trim_end(chars) == spec_trim_end(nchars));
        assert(spec_trim_end(nchars) == nchars);
        assert(spec_trim_start(nchars) == nchars);
    }
}

} // verus!
