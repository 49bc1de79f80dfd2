//! Download bookkeeping: download ids, where a download is saved, range
//! requests for resuming, progress accounting, and the registry of running
//! downloads that pause, resume and cancel act on.

use vstd::prelude::*;
use crate::catalog::text;
use crate::text::{chars_of, string_of, push_u128_hex, push_u64, nat_hex, nat_text, same_text, hex_digit_char};

verus! {

/// The system clock: nanoseconds since the Unix epoch, 0 if the clock is set
/// before it (`SystemTime::now` and `duration_since(UNIX_EPOCH)`).
/// Nothing is claimed of the value: it depends on the time.
#[verifier::external_body]
fn clock_nanos() -> u128 {
    std::time::SystemTime::now().duration_since(std::time::UNIX_EPOCH).unwrap_or_default().as_nanos()
}

/// The download id made from a clock reading: its lowercase hexadecimal text.
pub fn id_from_nanos(nanos: u128) -> (r: String)
    ensures
        r@ == nat_hex(nanos as nat),
{
    let mut r = String::new();
    push_u128_hex(&mut r, nanos);
    r
}

/// A fresh download id: the current time in nanoseconds, in lowercase hexadecimal.
pub fn generate_id() -> (r: String)
    ensures
        exists|n: u128| r@ == nat_hex(n as nat),
{
    let n = clock_nanos();
    id_from_nanos(n)
}

/// The directory a download is saved in: the one the user gave, unless it is
/// empty; `None` stands for the default download directory.
pub fn resolve_save_dir(custom: Option<String>) -> (r: Option<String>)
    ensures
        match custom {
            Some(p) => if p@.len() == 0 { r is None } else { r == Some(p) },
            None => r is None,
        },
{
    match custom {
        Some(p) => if p.unicode_len() == 0 { None } else { Some(p) },
        None => None,
    }
}

/// The text after the last `c` in `s` (all of `s` when there is none).
pub open spec fn after_last(s: Seq<char>, c: char) -> Seq<char>
    decreases s.len(),
{
    if s.len() == 0 {
        s
    } else if s.last() == c {
        Seq::empty()
    } else {
        after_last(s.drop_last(), c).push(s.last())
    }
}

/// The text before the first `c` in `s` (all of `s` when there is none).
pub open spec fn before_first(s: Seq<char>, c: char) -> Seq<char>
    decreases s.len(),
{
    if s.len() == 0 {
        s
    } else if s[0] == c {
        Seq::empty()
    } else {
        seq![s[0]] + before_first(s.drop_first(), c)
    }
}

proof fn lemma_before_first_step(s: Seq<char>, c: char, i: int)
    requires
        0 <= i < s.len(),
        forall|k: int| 0 <= k < i ==> s[k] != c,
    ensures
        before_first(s, c) == s.subrange(0, i) + before_first(s.subrange(i, s.len() as int), c),
    decreases i,
{
    if i > 0 {
        let t = s.drop_first();
        assert forall|k: int| 0 <= k < i - 1 implies t[k] != c by {
            assert(t[k] == s[k + 1]);
        }
        lemma_before_first_step(t, c, i - 1);
        assert(t.subrange(0, i - 1) =~= s.subrange(1, i));
        assert(t.subrange(i - 1, t.len() as int) =~= s.subrange(i, s.len() as int));
        assert(s.subrange(0, i) =~= seq![s[0]] + s.subrange(1, i));
    } else {
        assert(s.subrange(0, 0) =~= Seq::<char>::empty());
        assert(s.subrange(0, s.len() as int) =~= s);
    }
}

/// The file name of a download URL: the text after its last `/`, cut at its
/// first `?`.
pub open spec fn url_file_name(url: Seq<char>) -> Seq<char> {
    before_first(after_last(url, '/'), '?')
}

/// The file name of a download URL: the text after its last `/`, cut at its
/// first `?`.
pub fn file_name_from_url(url: &str) -> (r: String)
    ensures
        r@ == url_file_name(url@),
{
    let cs = chars_of(url);
    // Text after the last '/'.
    let mut start: usize = cs.len();
    assert(url@.subrange(0, start as int) =~= url@);
    assert(url@.subrange(start as int, url@.len() as int) =~= Seq::<char>::empty());
    while start > 0 && cs[start - 1] != '/'
        invariant
            cs@ == url@,
            start <= cs.len(),
            after_last(url@, '/') == after_last(url@.subrange(0, start as int), '/') + url@.subrange(start as int, url@.len() as int),
        decreases start,
    {
        let ghost s0 = url@.subrange(0, start as int);
        assert(s0.drop_last() =~= url@.subrange(0, start - 1));
        assert(url@.subrange(start - 1, url@.len() as int) =~= seq![s0.last()] + url@.subrange(start as int, url@.len() as int));
        start = start - 1;
    }
    assert(after_last(url@.subrange(0, start as int), '/') =~= Seq::<char>::empty()) by {
        if start > 0 {
            let s0 = url@.subrange(0, start as int);
            assert(s0.last() == '/');
        } else {
            assert(url@.subrange(0, 0) =~= Seq::<char>::empty());
        }
    }
    assert(after_last(url@, '/') =~= url@.subrange(start as int, url@.len() as int));
    let ghost tail = url@.subrange(start as int, url@.len() as int);
    // Cut at the first '?'.
    let mut end: usize = start;
    while end < cs.len() && cs[end] != '?'
        invariant
            cs@ == url@,
            start <= end <= cs.len(),
            tail == url@.subrange(start as int, url@.len() as int),
            forall|k: int| 0 <= k < end - start ==> tail[k] != '?',
        decreases cs.len() - end,
    {
        end = end + 1;
    }
    let mut out: Vec<char> = Vec::new();
    let mut k: usize = start;
    while k < end
        invariant
            cs@ == url@,
            start <= k <= end <= cs.len(),
            out@ == url@.subrange(start as int, k as int),
        decreases end - k,
    {
        out.push(cs[k]);
        k = k + 1;
        assert(out@ =~= url@.subrange(start as int, k as int));
    }
    proof {
        let n = end - start;
        if end < cs.len() {
            lemma_before_first_step(tail, '?', n);
            assert(tail.subrange(n, tail.len() as int)[0] == '?');
            assert(tail.subrange(0, n) =~= url@.subrange(start as int, end as int));
            assert(before_first(tail, '?') =~= out@);
        } else {
            assert(before_first(tail, '?') == tail) by {
                lemma_before_first_no_stop(tail, '?');
            }
            assert(tail =~= out@);
        }
    }
    string_of(&out)
}

proof fn lemma_before_first_no_stop(s: Seq<char>, c: char)
    requires
        forall|k: int| 0 <= k < s.len() ==> s[k] != c,
    ensures
        before_first(s, c) == s,
    decreases s.len(),
{
    if s.len() > 0 {
        let t = s.drop_first();
        assert forall|k: int| 0 <= k < t.len() implies t[k] != c by {
            assert(t[k] == s[k + 1]);
        }
        lemma_before_first_no_stop(t, c);
        assert(seq![s[0]] + t =~= s);
    }
}

/// The file name a download is saved under: the file name of its URL, or
/// `installer.bin` when the URL names none (it ends in `/`, or its last
/// segment is only a query).
pub open spec fn download_file_name(url: Seq<char>) -> Seq<char> {
    if url_file_name(url).len() == 0 { "installer.bin"@ } else { url_file_name(url) }
}

/// The name a download is saved under: `<id>_<file name>`, the file name
/// being that of the URL, or `installer.bin` when the URL names none.
pub fn save_file_name(download_id: &str, url: &str) -> (r: String)
    ensures
        r@ == download_id@ + "_"@ + download_file_name(url@),
{
    let mut r = text(download_id);
    r.append("_");
    let f = file_name_from_url(url);
    if f.unicode_len() == 0 {
        r.append("installer.bin");
    } else {
        r.append(f.as_str());
    }
    r
}


/// The `Range` header that resumes a download at `offset` bytes:
/// `bytes=<offset>-`, or none when starting from the beginning.
pub fn range_header(offset: u64) -> (r: Option<String>)
    ensures
        offset == 0 ==> r is None,
        offset > 0 ==> r is Some && r.unwrap()@ == "bytes="@ + nat_text(offset as nat) + "-"@,
{
    if offset > 0 {
        let mut h = text("bytes=");
        push_u64(&mut h, offset);
        h.append("-");
        Some(h)
    } else {
        None
    }
}

/// HTTP status of a partial response.
pub const PARTIAL_CONTENT: u16 = 206;

/// Where a transfer starts and how large the file is in total.
pub struct TransferPlan {
    /// The server honoured the range request: bytes are appended to the partial file.
    pub resumed: bool,
    /// Bytes already on disk that the transfer continues from.
    pub start_offset: u64,
    /// Size of the whole file, 0 when the server does not say.
    pub total_size: u64,
}

/// The plan of a transfer, from the size of the partial file on disk and the
/// server's response: a `206 Partial Content` answer resumes after the
/// partial file (whose size then counts toward the total); any other answer
/// starts over.
pub fn plan_transfer(file_offset: u64, status: u16, content_length: Option<u64>) -> (r: TransferPlan)
    requires
        status == PARTIAL_CONTENT ==> (match content_length { Some(n) => n, None => 0 }) + file_offset <= u64::MAX,
    ensures
        r.resumed == (status == PARTIAL_CONTENT),
        r.start_offset == if r.resumed { file_offset } else { 0 },
        r.total_size == (match content_length { Some(n) => n, None => 0 }) + r.start_offset,
{
    let len: u64 = match content_length {
        Some(n) => n,
        None => 0,
    };
    if status == PARTIAL_CONTENT {
        TransferPlan { resumed: true, start_offset: file_offset, total_size: len + file_offset }
    } else {
        TransferPlan { resumed: false, start_offset: 0, total_size: len }
    }
}

/// Byte counts of a running transfer.
pub struct TransferProgress {
    /// Bytes of the file on disk, including a resumed part.
    pub downloaded: u64,
    /// Size of the whole file, 0 when unknown.
    pub total: u64,
    /// Bytes received in this session.
    pub session: u64,
}

/// Minimum time between two progress reports, in milliseconds.
pub const REPORT_INTERVAL_MS: u128 = 200;

impl TransferProgress {
    /// Counts of a transfer that is about to receive its first chunk.
    pub fn start(plan: &TransferPlan) -> (r: TransferProgress)
        ensures
            r.downloaded == plan.start_offset,
            r.total == plan.total_size,
            r.session == 0,
    {
        TransferProgress { downloaded: plan.start_offset, total: plan.total_size, session: 0 }
    }

    /// Counts a received chunk of `len` bytes; returns whether progress is
    /// reported now: at least 200 ms after the last report, or when the
    /// whole file has arrived.
    pub fn record_chunk(&mut self, len: u64, ms_since_report: u128) -> (report: bool)
        requires
            old(self).downloaded + len <= u64::MAX,
            old(self).session + len <= u64::MAX,
        ensures
            final(self).downloaded == old(self).downloaded + len,
            final(self).session == old(self).session + len,
            final(self).total == old(self).total,
            report == (ms_since_report >= REPORT_INTERVAL_MS || final(self).downloaded == final(self).total),
    {
        self.downloaded = self.downloaded + len;
        self.session = self.session + len;
        ms_since_report >= REPORT_INTERVAL_MS || self.downloaded == self.total
    }

    /// Bytes still to come; 0 once the total is reached or when it is unknown.
    pub fn remaining_bytes(&self) -> (r: u64)
        ensures
            r == if self.total > self.downloaded { self.total - self.downloaded } else { 0 },
    {
        if self.total > self.downloaded { self.total - self.downloaded } else { 0 }
    }
}

/// The status a transfer stops with when signalled: `Cancelled` when the
/// download was marked cancelled, otherwise `Paused`.
pub open spec fn stop_status_spec(recorded: Option<Seq<char>>) -> Seq<char> {
    if recorded == Some("Cancelled"@) { "Cancelled"@ } else { "Paused"@ }
}

/// The status a transfer stops with, from the status recorded for it (none
/// when it cannot be read).
pub fn stop_status(recorded: &Option<String>) -> (r: String)
    ensures
        r@ == stop_status_spec(match recorded { Some(s) => Some(s@), None => None }),
{
    match recorded {
        Some(s) => if same_text(s.as_str(), "Cancelled") { text("Cancelled") } else { text("Paused") },
        None => text("Paused"),
    }
}

/// Whether a stopped transfer deletes its partial file: only when cancelled.
pub fn deletes_partial_file(stop_status: &str) -> (r: bool)
    ensures
        r == (stop_status@ == "Cancelled"@),
{
    same_text(stop_status, "Cancelled")
}


/// What happened in a running transfer.
pub enum TransferEvent {
    /// A chunk of `len` bytes was written, `ms_since_report` milliseconds
    /// after the last progress report.
    Chunk { len: u64, ms_since_report: u128 },
    /// The stream failed with this error text.
    ChunkFailed(String),
    /// Writing a chunk to the file failed with this error text.
    WriteFailed(String),
    /// Pause or cancel was signalled; the status then recorded for the
    /// download, none when it cannot be read.
    Signalled(Option<String>),
    /// The stream ended: the whole file has arrived.
    Ended,
}

/// What a transfer does next.
pub enum TransferStep {
    /// Keep receiving; report progress now when `report` holds.
    Continue { report: bool },
    /// Stop, recording this status and deleting the partial file when
    /// `delete_partial` holds.
    Finish { status: String, delete_partial: bool },
    /// Stop with this error; the status recorded for the download is left
    /// as it is.
    Fail { error: String },
}

/// Mathematical form of [`TransferStep`].
pub enum TransferStepView {
    Continue(bool),
    Finish(Seq<char>, bool),
    Fail(Seq<char>),
}

impl View for TransferStep {
    type V = TransferStepView;

    open spec fn view(&self) -> TransferStepView {
        match self {
            TransferStep::Continue { report } => TransferStepView::Continue(*report),
            TransferStep::Finish { status, delete_partial } => TransferStepView::Finish(status@, *delete_partial),
            TransferStep::Fail { error } => TransferStepView::Fail(error@),
        }
    }
}

/// How a transfer ends on an event other than a chunk: a failed stream or
/// write ends it with its message and records nothing, a signal pauses or
/// cancels it (a cancelled download loses its partial file), and the end of
/// the stream completes it.
pub open spec fn transfer_end_spec(ev: TransferEvent) -> TransferStepView {
    match ev {
        TransferEvent::ChunkFailed(e) => TransferStepView::Fail("Error downloading chunk: "@ + e@),
        TransferEvent::WriteFailed(e) => TransferStepView::Fail("Failed to write chunk to file: "@ + e@),
        TransferEvent::Signalled(rec) => {
            let st = stop_status_spec(match rec { Some(s) => Some(s@), None => None });
            TransferStepView::Finish(st, st == "Cancelled"@)
        },
        _ => TransferStepView::Finish("Completed"@, false),
    }
}

impl TransferProgress {
    /// The next step of a transfer after `ev`: a chunk is counted and the
    /// transfer goes on (reporting as [`TransferProgress::record_chunk`]
    /// says); any other event ends it, leaving the counts as they are.
    pub fn on_event(&mut self, ev: TransferEvent) -> (r: TransferStep)
        requires
            ev matches TransferEvent::Chunk { len, .. } ==> {
                &&& old(self).downloaded + len <= u64::MAX
                &&& old(self).session + len <= u64::MAX
            },
        ensures
            match ev {
                TransferEvent::Chunk { len, ms_since_report } => {
                    &&& final(self).downloaded == old(self).downloaded + len
                    &&& final(self).session == old(self).session + len
                    &&& final(self).total == old(self).total
                    &&& r@ == TransferStepView::Continue(
                        ms_since_report >= REPORT_INTERVAL_MS || final(self).downloaded == final(self).total)
                },
                _ => {
                    &&& final(self).downloaded == old(self).downloaded
                    &&& final(self).session == old(self).session
                    &&& final(self).total == old(self).total
                    &&& r@ == transfer_end_spec(ev)
                },
            },
    {
        match ev {
            TransferEvent::Chunk { len, ms_since_report } => {
                let report = self.record_chunk(len, ms_since_report);
                TransferStep::Continue { report }
            },
            TransferEvent::ChunkFailed(e) => {
                let mut m = text("Error downloading chunk: ");
                m.append(e.as_str());
                TransferStep::Fail { error: m }
            },
            TransferEvent::WriteFailed(e) => {
                let mut m = text("Failed to write chunk to file: ");
                m.append(e.as_str());
                TransferStep::Fail { error: m }
            },
            TransferEvent::Signalled(rec) => {
                let st = stop_status(&rec);
                let del = deletes_partial_file(st.as_str());
                TransferStep::Finish { status: st, delete_partial: del }
            },
            TransferEvent::Ended => TransferStep::Finish { status: text("Completed"), delete_partial: false },
        }
    }
}

proof fn lemma_hex_len(n: nat)
    ensures
        nat_hex(n).len() >= 1,
        n >= 16 ==> nat_hex(n).len() >= 2,
    decreases n,
{
    if n >= 16 {
        lemma_hex_len(n / 16);
    }
}

proof fn lemma_hex_digit_injective(a: int, b: int)
    requires
        0 <= a < 16,
        0 <= b < 16,
        hex_digit_char(a) == hex_digit_char(b),
    ensures
        a == b,
{
}

/// Download ids are distinct for distinct clock readings: the hexadecimal
/// text of a number determines the number.
pub proof fn lemma_ids_distinct(a: nat, b: nat)
    requires
        nat_hex(a) == nat_hex(b),
    ensures
        a == b,
    decreases a,
{
    lemma_hex_len(a);
    lemma_hex_len(b);
    if a < 16 && b < 16 {
        assert(nat_hex(a) == seq![hex_digit_char(a as int)]);
        assert(nat_hex(b) == seq![hex_digit_char(b as int)]);
        let x = hex_digit_char(a as int);
        let y = hex_digit_char(b as int);
        assert(seq![x][0] == x);
        assert(seq![y][0] == y);
        assert(x == y);
        lemma_hex_digit_injective(a as int, b as int);
    } else if a >= 16 && b >= 16 {
        let ha = nat_hex(a);
        let hb = nat_hex(b);
        assert(ha.last() == hex_digit_char((a % 16) as int));
        assert(hb.last() == hex_digit_char((b % 16) as int));
        lemma_hex_digit_injective((a % 16) as int, (b % 16) as int);
        assert(ha.drop_last() =~= nat_hex(a / 16));
        assert(hb.drop_last() =~= nat_hex(b / 16));
        lemma_ids_distinct(a / 16, b / 16);
    }
}

proof fn lemma_after_last_free(s: Seq<char>, c: char)
    ensures
        !after_last(s, c).contains(c),
        after_last(s, c).len() <= s.len(),
    decreases s.len(),
{
    if s.len() > 0 && s.last() != c {
        lemma_after_last_free(s.drop_last(), c);
        let t = after_last(s.drop_last(), c);
        assert forall|i: int| 0 <= i < t.push(s.last()).len() implies t.push(s.last())[i] != c by {
            if i < t.len() {
                assert(!t.contains(c));
                assert(t[i] != c);
            }
        }
    }
}

proof fn lemma_before_first_sub(s: Seq<char>, c: char)
    ensures
        !before_first(s, c).contains(c),
        forall|x: char| before_first(s, c).contains(x) ==> s.contains(x),
    decreases s.len(),
{
    if s.len() > 0 && s[0] != c {
        let t = s.drop_first();
        lemma_before_first_sub(t, c);
        let b = before_first(t, c);
        let r = seq![s[0]] + b;
        assert forall|i: int| 0 <= i < r.len() implies r[i] != c by {
            if i > 0 {
                assert(r[i] == b[i - 1]);
                assert(!b.contains(c));
            }
        }
        assert forall|x: char| r.contains(x) implies s.contains(x) by {
            let i = choose|i: int| 0 <= i < r.len() && r[i] == x;
            if i == 0 {
                assert(s[0] == x);
            } else {
                assert(b[i - 1] == x);
                assert(b.contains(x));
                assert(t.contains(x));
                let j = choose|j: int| 0 <= j < t.len() && t[j] == x;
                assert(s[j + 1] == x);
            }
        }
    } else if s.len() > 0 {
        assert(before_first(s, c) =~= Seq::<char>::empty());
    }
}

/// The file name a download is saved under is never empty and never holds
/// a `/` (it cannot leave the download directory) nor a `?` (no query string).
pub proof fn lemma_url_file_name_plain(url: Seq<char>)
    ensures
        download_file_name(url).len() > 0,
        !download_file_name(url).contains('/'),
        !download_file_name(url).contains('?'),
{
    lemma_after_last_free(url, '/');
    lemma_before_first_sub(after_last(url, '/'), '?');
    reveal_strlit("installer.bin");
    if url_file_name(url).len() == 0 {
        let d = "installer.bin"@;
        assert forall|i: int| 0 <= i < d.len() implies d[i] != '/' && d[i] != '?' by {}
    }
}

/// The counts after one received chunk of `len` bytes, as
/// [`TransferProgress::on_event`] states them.
pub open spec fn chunk_step(before: TransferProgress, len: u64, after: TransferProgress) -> bool {
    &&& after.downloaded == before.downloaded + len
    &&& after.session == before.session + len
    &&& after.total == before.total
}

/// The total length of a run of chunks.
pub open spec fn chunks_total(lens: Seq<u64>) -> int
    decreases lens.len(),
{
    if lens.len() == 0 { 0 } else { chunks_total(lens.drop_last()) + lens.last() }
}

/// Across a run of chunks, the bytes on disk are the start offset plus the
/// lengths of the chunks, the session counts the chunks alone, and the total
/// stays the announced size; so the file is complete (`downloaded == total`)
/// exactly when the chunks add up to the announced content length, whether
/// the transfer resumed a partial file or started over.
pub proof fn lemma_chunk_run(
    plan: TransferPlan,
    content_length: u64,
    states: Seq<TransferProgress>,
    lens: Seq<u64>,
)
    requires
        plan.total_size == content_length + plan.start_offset,
        states.len() == lens.len() + 1,
        states[0].downloaded == plan.start_offset,
        states[0].total == plan.total_size,
        states[0].session == 0,
        forall|i: int| 0 <= i < lens.len() ==> chunk_step(#[trigger] states[i], lens[i], states[i + 1]),
    ensures
        states.last().downloaded == plan.start_offset + chunks_total(lens),
        states.last().session == chunks_total(lens),
        states.last().total == plan.total_size,
        (states.last().downloaded == states.last().total) <==> (chunks_total(lens) == content_length),
    decreases lens.len(),
{
    if lens.len() > 0 {
        let n = lens.len() - 1;
        let s2 = states.drop_last();
        let l2 = lens.drop_last();
        assert forall|i: int| 0 <= i < l2.len() implies chunk_step(#[trigger] s2[i], l2[i], s2[i + 1]) by {
            assert(chunk_step(states[i], lens[i], states[i + 1]));
        }
        lemma_chunk_run(plan, content_length, s2, l2);
        assert(chunk_step(states[n], lens[n], states[n + 1]));
    }
}

/// Only a cancelled transfer deletes its partial file; a paused one keeps it
/// so that it can be resumed.
pub proof fn lemma_only_cancel_deletes(recorded: Option<Seq<char>>)
    ensures
        (stop_status_spec(recorded) == "Cancelled"@) <==> (recorded == Some("Cancelled"@)),
{
    reveal_strlit("Cancelled");
    reveal_strlit("Paused");
    if recorded != Some("Cancelled"@) {
        assert(stop_status_spec(recorded) == "Paused"@);
        assert("Paused"@[0] != "Cancelled"@[0]);
    }
}

} // verus!
