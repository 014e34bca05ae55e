//! The buffer of metric lines waiting to be submitted to the metrics server.
use super::metric::{lemma_metric_text_ends_line, metric_text, Metric, BUFFER_FREE_SPACE_THRESHOLD};
use super::text::lemma_encode_utf8_concat;
use vstd::prelude::*;
use vstd::string::StringSliceAdditionalSpecFns;
use vstd::utf8::encode_utf8;

verus! {

#[verifier::external_type_specification]
#[verifier::external_body]
pub struct ExHeaplessString<const N: usize>(heapless::String<N>);

/// How many bytes of metric lines the buffer holds at most.
pub const METRIC_BUFFER_CAPACITY: usize = 12288;

/// The bytes that a metric body holds.
pub uninterp spec fn body_bytes(s: heapless::String<12288>) -> Seq<u8>;

/// `heapless::String::new`: an empty string.
#[verifier::external_body]
fn body_new() -> (s: heapless::String<12288>)
    ensures
        body_bytes(s) == Seq::<u8>::empty(),
{
    heapless::String::new()
}

/// `heapless::String::push_str`: appends the bytes of `t` where they fit in
/// the capacity, and otherwise changes nothing and fails.
#[verifier::external_body]
fn body_push_str(s: &mut heapless::String<12288>, t: &str) -> (r: Result<(), ()>)
    ensures
        if body_bytes(*old(s)).len() + t.spec_bytes().len() > METRIC_BUFFER_CAPACITY {
            &&& r is Err
            &&& body_bytes(*final(s)) == body_bytes(*old(s))
        } else {
            &&& r is Ok
            &&& body_bytes(*final(s)) == body_bytes(*old(s)) + t.spec_bytes()
        },
{
    s.push_str(t)
}

/// The length in bytes of a `heapless::String`, which never exceeds its
/// capacity.
#[verifier::external_body]
fn body_len(s: &heapless::String<12288>) -> (n: usize)
    ensures
        n == body_bytes(*s).len(),
        n <= METRIC_BUFFER_CAPACITY,
{
    s.len()
}

/// `heapless::String::clear`: empties the string.
#[verifier::external_body]
fn body_clear(s: &mut heapless::String<12288>)
    ensures
        body_bytes(*final(s)) == Seq::<u8>::empty(),
{
    s.clear()
}

/// `heapless::String::as_str`: the text held.
#[verifier::external_body]
fn body_as_str(s: &heapless::String<12288>) -> (t: &str)
    ensures
        t.spec_bytes() == body_bytes(*s),
{
    s.as_str()
}

/// The bytes of a buffer that held `body` after a metric is added, or none
/// where the metric is refused: it makes no line, its line is longer than
/// `BUFFER_FREE_SPACE_THRESHOLD` bytes, or its line does not fit in what is
/// left of the buffer.
pub open spec fn appended(body: Seq<u8>, m: Metric) -> Option<Seq<u8>> {
    match metric_text(m) {
        None => None,
        Some(line) => {
            let b = encode_utf8(line);
            if b.len() > BUFFER_FREE_SPACE_THRESHOLD || body.len() + b.len()
                > METRIC_BUFFER_CAPACITY {
                None
            } else {
                Some(body + b)
            }
        },
    }
}

impl Metric {
    /// Appends the metric's line to `buffer`, or leaves the buffer as it was
    /// and fails where the metric is refused.
    pub fn format_influx(&self, buffer: &mut heapless::String<12288>) -> (r: Result<(), ()>)
        ensures
            match appended(body_bytes(*old(buffer)), *self) {
                Some(b) => r is Ok && body_bytes(*final(buffer)) == b,
                None => r is Err && body_bytes(*final(buffer)) == body_bytes(*old(buffer)),
            },
    {
        let line = match self.render() {
            Some(line) => line,
            None => return Err(()),
        };
        if line.as_str().len() > BUFFER_FREE_SPACE_THRESHOLD {
            return Err(());
        }
        body_push_str(buffer, line.as_str())
    }
}

/// What came of an attempt to submit the buffer.
#[derive(Clone, Copy, Debug, PartialEq, Eq, Structural)]
pub enum SubmissionOutcome {
    /// The request could not be made, or no response came in time.
    NotDelivered,
    /// The server answered with this HTTP status.
    Status(u16),
}

/// How an attempt to submit the buffer counts.
#[derive(Clone, Copy, Debug, PartialEq, Eq, Structural)]
pub enum SubmissionResult {
    Success,
    NetworkFailure,
}

/// The HTTP status with which the metrics server accepts a submission.
pub const STATUS_NO_CONTENT: u16 = 204;

/// The HTTP status with which the metrics server rejects a malformed
/// submission.
pub const STATUS_BAD_REQUEST: u16 = 400;

/// Metric lines waiting to be submitted.
pub struct MetricBuffer {
    body: heapless::String<12288>,
}

impl View for MetricBuffer {
    type V = Seq<u8>;

    closed spec fn view(&self) -> Seq<u8> {
        body_bytes(self.body)
    }
}

/// Whether a buffer that holds `len` bytes should be submitted now: when
/// fewer than `BUFFER_FREE_SPACE_THRESHOLD` bytes are free.
pub open spec fn send_required_for(len: nat) -> bool {
    METRIC_BUFFER_CAPACITY - len < BUFFER_FREE_SPACE_THRESHOLD
}

impl MetricBuffer {
    /// An empty buffer.
    pub fn new() -> (b: Self)
        ensures
            b@ == Seq::<u8>::empty(),
    {
        MetricBuffer { body: body_new() }
    }

    /// Adds a metric's line, or leaves the buffer as it was and fails where
    /// the metric is refused.
    pub fn push(&mut self, metric: Metric) -> (r: Result<(), ()>)
        ensures
            match appended(old(self)@, metric) {
                Some(b) => r is Ok && final(self)@ == b,
                None => r is Err && final(self)@ == old(self)@,
            },
    {
        metric.format_influx(&mut self.body)
    }

    /// Whether the buffer is nearly full and should be submitted now.
    pub fn send_required(&self) -> (r: bool)
        ensures
            self@.len() <= METRIC_BUFFER_CAPACITY,
            r == send_required_for(self@.len()),
    {
        let free = METRIC_BUFFER_CAPACITY - body_len(&self.body);
        free < BUFFER_FREE_SPACE_THRESHOLD
    }

    /// Whether there is anything to submit.
    pub fn is_empty(&self) -> (r: bool)
        ensures
            r == (self@.len() == 0),
    {
        body_len(&self.body) == 0
    }

    /// The text to submit, or none where there is nothing to submit.
    pub fn submission(&self) -> (t: Option<&str>)
        ensures
            t is None <==> self@.len() == 0,
            t matches Some(b) ==> b.spec_bytes() == self@,
    {
        if body_len(&self.body) == 0 {
            None
        } else {
            Some(body_as_str(&self.body))
        }
    }

    /// The text to submit.
    pub fn body(&self) -> (t: &str)
        ensures
            t.spec_bytes() == self@,
    {
        body_as_str(&self.body)
    }

    /// Settles a submission: the buffer is emptied once the server accepted
    /// it, and also when the server rejected it as malformed (it would only
    /// be rejected again); otherwise it is kept for the next attempt.
    pub fn complete_submission(&mut self, outcome: SubmissionOutcome) -> (r: SubmissionResult)
        ensures
            outcome == SubmissionOutcome::Status(STATUS_NO_CONTENT) ==> {
                &&& r == SubmissionResult::Success
                &&& final(self)@ == Seq::<u8>::empty()
            },
            outcome == SubmissionOutcome::Status(STATUS_BAD_REQUEST) ==> {
                &&& r == SubmissionResult::NetworkFailure
                &&& final(self)@ == Seq::<u8>::empty()
            },
            outcome != SubmissionOutcome::Status(STATUS_NO_CONTENT) && outcome
                != SubmissionOutcome::Status(STATUS_BAD_REQUEST) ==> {
                &&& r == SubmissionResult::NetworkFailure
                &&& final(self)@ == old(self)@
            },
    {
        match outcome {
            SubmissionOutcome::Status(status) => {
                if status == STATUS_NO_CONTENT {
                    body_clear(&mut self.body);
                    SubmissionResult::Success
                } else {
                    if status == STATUS_BAD_REQUEST {
                        body_clear(&mut self.body);
                    }
                    SubmissionResult::NetworkFailure
                }
            },
            SubmissionOutcome::NotDelivered => SubmissionResult::NetworkFailure,
        }
    }
}

impl Default for MetricBuffer {
    fn default() -> (b: Self)
        ensures
            b@ == Seq::<u8>::empty(),
    {
        MetricBuffer::new()
    }
}

/// As long as the buffer does not call for submission, it has room for any
/// metric whose line the line buffer can hold: such a metric is always
/// added, after everything already held.
pub proof fn lemma_room_until_send_required(body: Seq<u8>, m: Metric, line: Seq<char>)
    requires
        body.len() <= METRIC_BUFFER_CAPACITY,
        !send_required_for(body.len()),
        metric_text(m) == Some(line),
        encode_utf8(line).len() <= BUFFER_FREE_SPACE_THRESHOLD,
    ensures
        appended(body, m) == Some(body + encode_utf8(line)),
{
}

/// A metric is never added in part: the buffer either grows by exactly the
/// metric's line, or stays as it was.
pub proof fn lemma_push_all_or_nothing(body: Seq<u8>, m: Metric)
    ensures
        appended(body, m) is Some ==> exists|line: Seq<char>|
            metric_text(m) == Some(line) && #[trigger] appended(body, m) == Some(
                body + encode_utf8(line),
            ),
{
    if let Some(line) = metric_text(m) {
        assert(appended(body, m) is Some ==> appended(body, m) == Some(body + encode_utf8(line)));
    }
}

/// Whether `body` holds whole lines only: it is empty or ends with a
/// newline byte.
pub open spec fn whole_lines(body: Seq<u8>) -> bool {
    body.len() == 0 || body.last() == 10
}

/// The buffer only ever holds whole lines: every metric line ends with a
/// newline, so adding one to whole lines leaves whole lines.
pub proof fn lemma_buffer_holds_whole_lines(body: Seq<u8>, m: Metric)
    requires
        whole_lines(body),
    ensures
        appended(body, m) matches Some(b) ==> whole_lines(b) && b.len() > body.len(),
{
    lemma_metric_text_ends_line(m);
    if let Some(line) = metric_text(m) {
        let head = line.drop_last();
        assert(line =~= head + seq!['\n']);
        lemma_encode_utf8_concat(head, seq!['\n']);
        assert(seq!['\n'].drop_first() =~= Seq::<char>::empty());
        assert(encode_utf8(Seq::<char>::empty()) =~= Seq::<u8>::empty());
        assert(seq!['\n'][0] == '\n');
        assert('\n' as u32 == 10u32);
        assert(10u32 & 0x7F == 10u32) by (bit_vector);
        assert(vstd::utf8::encode_scalar('\n' as u32) == seq![10u8]);
        assert(encode_utf8(seq!['\n']) =~= seq![10u8]);
        assert(encode_utf8(line) =~= encode_utf8(head) + seq![10u8]);
    }
}

} // verus!
