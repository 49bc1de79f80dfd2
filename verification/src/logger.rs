//! Installation log records and their text rendering.

use vstd::prelude::*;
use crate::text::{push_char, push_i64, int_text, nat_text};

verus! {

/// One step of an installation, as stored in the installation log.
pub struct LogEntry {
    pub id: Option<i64>,
    pub app_id: String,
    pub step: String,
    pub status: String,
    pub message: String,
    pub timestamp: i64,
}

} // verus!

verus! {

/// Quotient of `a / b` rounded toward zero, as Rust's integer `/` computes it.
pub open spec fn trunc_div(a: int, b: int) -> int {
    if a >= 0 { a / b } else { -((-a) / b) }
}

/// Remainder of `a / b` taking the sign of `a`, as Rust's integer `%` computes it.
pub open spec fn trunc_rem(a: int, b: int) -> int {
    a - b * trunc_div(a, b)
}

/// A clock field printed with at least two characters, zero padded (`{:02}`).
pub open spec fn pad2(v: int) -> Seq<char> {
    if 0 <= v < 10 { seq!['0'] + nat_text(v as nat) } else { int_text(v) }
}

/// The readable form of a Unix timestamp used in exported logs:
/// `Epoch Day <days> - HH:MM:SS UTC`.
pub open spec fn timestamp_text(secs: int) -> Seq<char> {
    let day_secs = trunc_rem(secs, 86400);
    "Epoch Day "@ + int_text(trunc_div(secs, 86400)) + " - "@
        + pad2(trunc_div(day_secs, 3600)) + ":"@
        + pad2(trunc_div(trunc_rem(day_secs, 3600), 60)) + ":"@
        + pad2(trunc_rem(day_secs, 60)) + " UTC"@
}

fn push_pad2(out: &mut String, v: i64)
    requires
        -100 < v < 100,
    ensures
        final(out)@ == old(out)@ + pad2(v as int),
{
    if 0 <= v && v < 10 {
        push_char(out, '0');
        push_i64(out, v);
        assert(final(out)@ =~= old(out)@ + pad2(v as int));
    } else {
        push_i64(out, v);
    }
}

/// Renders a Unix timestamp (seconds) as `Epoch Day <d> - HH:MM:SS UTC`.
pub fn format_timestamp(secs: i64) -> (r: String)
    ensures
        r@ == timestamp_text(secs as int),
{
    let neg = secs < 0;
    let mag: u64 = if neg { ((-(secs + 1)) as u64) + 1 } else { secs as u64 };
    let d: u64 = mag / 86400;
    let rem: u64 = mag % 86400;
    let h: u64 = rem / 3600;
    let m: u64 = (rem % 3600) / 60;
    let s: u64 = rem % 60;
    let (days, hours, minutes, seconds): (i64, i64, i64, i64) = if neg {
        (-(d as i64), -(h as i64), -(m as i64), -(s as i64))
    } else {
        (d as i64, h as i64, m as i64, s as i64)
    };
    proof {
        let day_secs = trunc_rem(secs as int, 86400);
        assert(trunc_div(secs as int, 86400) == days);
        assert(day_secs == if neg { -(rem as int) } else { rem as int });
        assert(trunc_div(day_secs, 3600) == hours);
        assert(trunc_rem(day_secs, 3600) == if neg { -((rem % 3600) as int) } else { (rem % 3600) as int });
        assert(trunc_div(trunc_rem(day_secs, 3600), 60) == minutes);
        assert(trunc_rem(day_secs, 60) == seconds);
    }
    let mut r = String::new();
    r.append("Epoch Day ");
    push_i64(&mut r, days);
    r.append(" - ");
    push_pad2(&mut r, hours);
    r.append(":");
    push_pad2(&mut r, minutes);
    r.append(":");
    push_pad2(&mut r, seconds);
    r.append(" UTC");
    assert(r@ =~= timestamp_text(secs as int));
    r
}

} // verus!

verus! {

/// `n` space characters.
pub open spec fn spaces(n: int) -> Seq<char>
    decreases n,
{
    if n <= 0 { Seq::empty() } else { spaces(n - 1).push(' ') }
}

/// `s` left-aligned in a field of `width` characters (`{:<width}`): padded
/// with spaces on the right, never cut.
pub open spec fn pad_right(s: Seq<char>, width: int) -> Seq<char> {
    s + spaces(width - s.len())
}

/// One exported log line: `[time] [step             ] [status ] message`.
pub open spec fn log_line_text(e: LogEntry) -> Seq<char> {
    "["@ + timestamp_text(e.timestamp as int) + "] ["@ + pad_right(e.step@, 17) + "] ["@
        + pad_right(e.status@, 7) + "] "@ + e.message@ + "\n"@
}

/// All exported log lines, in the order of the entries.
pub open spec fn log_lines_text(logs: Seq<LogEntry>) -> Seq<char>
    decreases logs.len(),
{
    if logs.len() == 0 {
        Seq::empty()
    } else {
        log_lines_text(logs.drop_last()) + log_line_text(logs.last())
    }
}

/// The whole text of an exported installation log for `app_id`.
pub open spec fn export_text_spec(app_id: Seq<char>, logs: Seq<LogEntry>) -> Seq<char> {
    "Agneax Store Installation Logs for App ID: "@ + app_id + "\n"@
        + "===================================================\n\n"@ + log_lines_text(logs)
}

/// Appends `s` left-aligned in a field of `width` characters.
pub fn push_padded(out: &mut String, s: &str, width: usize)
    ensures
        final(out)@ == old(out)@ + pad_right(s@, width as int),
{
    let ghost start = out@;
    out.append(s);
    let n = s.unicode_len();
    let mut k: usize = n;
    while k < width
        invariant
            n == s@.len(),
            n <= k,
            n <= width ==> k <= width,
            width < n ==> k == n,
            out@ == start + s@ + spaces(k - n),
        decreases width - k,
    {
        let ghost j: int = k - n;
        push_char(out, ' ');
        k = k + 1;
        assert(spaces(j + 1) == spaces(j).push(' '));
        assert(out@ =~= start + s@ + spaces(k - n));
    }
    proof {
        if width <= n {
            assert(spaces(width - n) =~= Seq::<char>::empty());
            assert(spaces(0) =~= Seq::<char>::empty());
        }
    }
    assert(out@ =~= start + pad_right(s@, width as int));
}

/// Appends one exported log line for `e`.
fn push_log_line(out: &mut String, e: &LogEntry)
    ensures
        final(out)@ == old(out)@ + log_line_text(*e),
{
    let ghost start = out@;
    out.append("[");
    let t = format_timestamp(e.timestamp);
    out.append(t.as_str());
    out.append("] [");
    push_padded(out, e.step.as_str(), 17);
    out.append("] [");
    push_padded(out, e.status.as_str(), 7);
    out.append("] ");
    out.append(e.message.as_str());
    out.append("\n");
    assert(out@ =~= start + log_line_text(*e));
}

/// The text written when a user exports the installation log of `app_id`:
/// a header naming the app, a rule, and one line per entry in order.
pub fn export_text(app_id: &str, logs: &Vec<LogEntry>) -> (r: String)
    ensures
        r@ == export_text_spec(app_id@, logs@),
{
    let mut r = String::new();
    r.append("Agneax Store Installation Logs for App ID: ");
    r.append(app_id);
    r.append("\n");
    r.append("===================================================\n\n");
    let ghost head = r@;
    let mut i: usize = 0;
    while i < logs.len()
        invariant
            i <= logs.len(),
            r@ == head + log_lines_text(logs@.subrange(0, i as int)),
        decreases logs.len() - i,
    {
        push_log_line(&mut r, &logs[i]);
        proof {
            let s = logs@.subrange(0, i + 1);
            assert(s.drop_last() =~= logs@.subrange(0, i as int));
            assert(s.last() == logs@[i as int]);
        }
        i = i + 1;
        assert(r@ =~= head + log_lines_text(logs@.subrange(0, i as int)));
    }
    assert(logs@.subrange(0, logs.len() as int) =~= logs@);
    assert(r@ =~= export_text_spec(app_id@, logs@));
    r
}

/// The console line printed for each recorded step:
/// `[INSTALL-LOG] [app][step][status] message`.
pub open spec fn console_line_spec(app_id: Seq<char>, step: Seq<char>, status: Seq<char>, message: Seq<char>) -> Seq<char> {
    "[INSTALL-LOG] ["@ + app_id + "]["@ + step + "]["@ + status + "] "@ + message
}

/// Builds the console line printed for each recorded installation step.
pub fn console_line(app_id: &str, step: &str, status: &str, message: &str) -> (r: String)
    ensures
        r@ == console_line_spec(app_id@, step@, status@, message@),
{
    let mut r = String::new();
    r.append("[INSTALL-LOG] [");
    r.append(app_id);
    r.append("][");
    r.append(step);
    r.append("][");
    r.append(status);
    r.append("] ");
    r.append(message);
    assert(r@ =~= console_line_spec(app_id@, step@, status@, message@));
    r
}


/// The file name offered when exporting the log of `app_id`: `<app>_install_log.txt`.
pub fn export_file_name(app_id: &str) -> (r: String)
    ensures
        r@ == app_id@ + "_install_log.txt"@,
{
    let mut r = String::from_str(app_id);
    r.append("_install_log.txt");
    r
}


/// The day and clock fields printed for a timestamp add back up to it, and
/// for times after the epoch they are a valid time of day.
pub proof fn lemma_timestamp_fields(secs: int)
    ensures
        ({
            let day_secs = trunc_rem(secs, 86400);
            let h = trunc_div(day_secs, 3600);
            let m = trunc_div(trunc_rem(day_secs, 3600), 60);
            let s = trunc_rem(day_secs, 60);
            &&& trunc_div(secs, 86400) * 86400 + h * 3600 + m * 60 + s == secs
            &&& secs >= 0 ==> 0 <= h < 24 && 0 <= m < 60 && 0 <= s < 60
            &&& secs < 0 ==> -24 < h <= 0 && -60 < m <= 0 && -60 < s <= 0
        }),
{
    let a = if secs >= 0 { secs } else { -secs };
    let d = a / 86400;
    let r = a % 86400;
    let h = r / 3600;
    let m = (r % 3600) / 60;
    let s = r % 60;
    assert(a == d * 86400 + r) by (nonlinear_arith)
        requires d == a / 86400, r == a % 86400, a >= 0;
    assert(r == h * 3600 + (r % 3600) && 0 <= r % 3600 < 3600) by (nonlinear_arith)
        requires h == r / 3600, r >= 0;
    assert(r % 3600 == m * 60 + (r % 3600) % 60) by (nonlinear_arith)
        requires m == (r % 3600) / 60, r >= 0;
    assert((r % 3600) % 60 == s) by (nonlinear_arith)
        requires s == r % 60, r >= 0;
    assert(0 <= r < 86400);
    assert(0 <= h < 24) by (nonlinear_arith)
        requires h == r / 3600, 0 <= r < 86400;
    assert(0 <= m < 60) by (nonlinear_arith)
        requires m == (r % 3600) / 60, 0 <= r % 3600 < 3600;
}

} // verus!
