//! The decisions behind the capture and export workers: which capture jobs
//! are running, what the capture loop does next, which segments a preview
//! uses, how export files are named, and how long rolling segments are
//! kept.
use std::collections::HashMap;

use vstd::prelude::*;

use crate::text::{self, chars_of, owned, push_char, push_str, trim_class, TrimClass};

verus! {

broadcast use vstd::std_specs::hash::group_hash_axioms;

// ---------------------------------------------------------------------------
// Running capture jobs
// ---------------------------------------------------------------------------

/// The capture jobs that are running, each under its timelapse's id (a
/// UUID as a 128-bit number), with the handle that stops it.
pub struct JobRegistry<J> {
    jobs: HashMap<u128, J>,
}

impl<J> View for JobRegistry<J> {
    type V = Map<u128, J>;

    closed spec fn view(&self) -> Map<u128, J> {
        self.jobs@
    }
}

impl<J> JobRegistry<J> {
    /// No job is running.
    pub fn new() -> (r: Self)
        ensures
            r@ == Map::<u128, J>::empty(),
    {
        JobRegistry { jobs: HashMap::new() }
    }

    /// Whether a job runs for `id`.
    pub fn is_running(&self, id: u128) -> (r: bool)
        ensures
            r == self@.contains_key(id),
    {
        self.jobs.contains_key(&id)
    }

    /// Starts tracking `job` under `id`, unless a job already runs there;
    /// says whether it did.
    pub fn start_job(&mut self, id: u128, job: J) -> (started: bool)
        ensures
            started == !old(self)@.contains_key(id),
            final(self)@ == if started {
                old(self)@.insert(id, job)
            } else {
                old(self)@
            },
    {
        if self.jobs.contains_key(&id) {
            false
        } else {
            self.jobs.insert(id, job);
            true
        }
    }

    /// Stops tracking the job under `id` and hands it back, if one runs.
    pub fn stop_job(&mut self, id: u128) -> (r: Option<J>)
        ensures
            final(self)@ == old(self)@.remove(id),
            match r {
                Some(j) => old(self)@.contains_key(id) && j == old(self)@[id],
                None => !old(self)@.contains_key(id),
            },
    {
        self.jobs.remove(&id)
    }
}

/// A job that is started runs until it is stopped, and stopping it leaves
/// the other jobs as they were: starting and then stopping a job that was
/// not running gives back the registry it began with.
pub proof fn start_then_stop_restores(jobs: Map<u128, int>, id: u128, job: int)
    requires
        !jobs.contains_key(id),
    ensures
        jobs.insert(id, job).contains_key(id),
        jobs.insert(id, job).remove(id) == jobs,
{
    assert(jobs.insert(id, job).remove(id) =~= jobs);
}

// ---------------------------------------------------------------------------
// The capture loop
// ---------------------------------------------------------------------------

/// Where the capture loop of a timelapse stands.
#[derive(Debug, Clone, Copy, PartialEq, Eq, Structural)]
pub enum CapturePhase {
    /// About to check for a stop request and capture the next segment.
    Ready,
    /// A segment is being captured.
    Capturing,
    /// The loop has ended.
    Finished,
}

/// What the capture loop learns from the outside.
#[derive(Debug, Clone, Copy, PartialEq, Eq, Structural)]
pub enum CaptureEvent {
    /// The loop comes round; says whether a stop was asked for.
    Tick { stop_requested: bool },
    /// The segment could not be captured.
    CaptureFailed,
    /// The segment was captured and moved into place.
    CaptureSucceeded,
}

/// How long a segment capture reads its source.
#[derive(Debug, Clone, Copy, PartialEq, Eq, Structural)]
pub enum WallSpan {
    /// One segment duration (rolling timelapses).
    Segment,
    /// The whole window (one-shot timelapses).
    Window,
}

/// What the capture loop does next.
#[derive(Debug, Clone, Copy, PartialEq, Eq, Structural)]
pub enum CaptureAction {
    /// Mark the timelapse stopped and end the loop.
    MarkStoppedAndFinish,
    /// Capture one segment, reading the source for the given span.
    Capture { span: WallSpan },
    /// Mark the source and the timelapse as failed, wait for a stop request
    /// or ten seconds, and come round again.
    ReportFailureAndRetry,
    /// Record the segment, mark the timelapse running and the source
    /// healthy, prune the rolling window, sleep out the rest of the span,
    /// and come round again.
    RecordPruneAndContinue,
    /// Record the segment, mark the source healthy, mark the timelapse
    /// stopped, and end the loop.
    RecordAndFinish,
    /// The event does not belong to this phase; nothing happens.
    Ignore,
}

/// The next phase and action of the capture loop of a timelapse that is
/// rolling or not, on an event.
pub open spec fn capture_transition(phase: CapturePhase, rolling: bool, event: CaptureEvent) -> (
    CapturePhase,
    CaptureAction,
) {
    match (phase, event) {
        (CapturePhase::Ready, CaptureEvent::Tick { stop_requested }) => if stop_requested {
            (CapturePhase::Finished, CaptureAction::MarkStoppedAndFinish)
        } else {
            (
                CapturePhase::Capturing,
                CaptureAction::Capture {
                    span: if rolling {
                        WallSpan::Segment
                    } else {
                        WallSpan::Window
                    },
                },
            )
        },
        (CapturePhase::Capturing, CaptureEvent::CaptureFailed) => (
            CapturePhase::Ready,
            CaptureAction::ReportFailureAndRetry,
        ),
        (CapturePhase::Capturing, CaptureEvent::CaptureSucceeded) => if rolling {
            (CapturePhase::Ready, CaptureAction::RecordPruneAndContinue)
        } else {
            (CapturePhase::Finished, CaptureAction::RecordAndFinish)
        },
        _ => (phase, CaptureAction::Ignore),
    }
}

/// One step of the capture loop; see `capture_transition`.
pub fn capture_step(phase: CapturePhase, rolling: bool, event: CaptureEvent) -> (r: (
    CapturePhase,
    CaptureAction,
))
    ensures
        r == capture_transition(phase, rolling, event),
{
    match (phase, event) {
        (CapturePhase::Ready, CaptureEvent::Tick { stop_requested }) => {
            if stop_requested {
                (CapturePhase::Finished, CaptureAction::MarkStoppedAndFinish)
            } else {
                let span = if rolling {
                    WallSpan::Segment
                } else {
                    WallSpan::Window
                };
                (CapturePhase::Capturing, CaptureAction::Capture { span })
            }
        },
        (CapturePhase::Capturing, CaptureEvent::CaptureFailed) => (
            CapturePhase::Ready,
            CaptureAction::ReportFailureAndRetry,
        ),
        (CapturePhase::Capturing, CaptureEvent::CaptureSucceeded) => {
            if rolling {
                (CapturePhase::Ready, CaptureAction::RecordPruneAndContinue)
            } else {
                (CapturePhase::Finished, CaptureAction::RecordAndFinish)
            }
        },
        _ => (phase, CaptureAction::Ignore),
    }
}

/// The phases the loop passes through on a sequence of events.
pub open spec fn capture_run(phase: CapturePhase, rolling: bool, events: Seq<CaptureEvent>) -> CapturePhase
    decreases events.len(),
{
    if events.len() == 0 {
        phase
    } else {
        capture_run(capture_transition(phase, rolling, events[0]).0, rolling, events.drop_first())
    }
}

/// Stop requests take effect between segments: one seen when the loop
/// comes round always ends it, one that arrives while a segment is being
/// captured changes nothing until then, and an ended loop stays ended
/// whatever happens next.
pub proof fn stop_request_ends_capture(rolling: bool, events: Seq<CaptureEvent>)
    ensures
        forall|stop: bool|
            #[trigger] capture_transition(
                CapturePhase::Capturing,
                rolling,
                CaptureEvent::Tick { stop_requested: stop },
            ) == (CapturePhase::Capturing, CaptureAction::Ignore),
        capture_transition(CapturePhase::Ready, rolling, CaptureEvent::Tick { stop_requested: true })
            == (CapturePhase::Finished, CaptureAction::MarkStoppedAndFinish),
        capture_run(CapturePhase::Finished, rolling, events) == CapturePhase::Finished,
    decreases events.len(),
{
    if events.len() > 0 {
        stop_request_ends_capture(rolling, events.drop_first());
    }
}

/// A timelapse that is not rolling captures once over its whole window:
/// after its first successful capture the loop has ended.
pub proof fn one_shot_capture_ends_after_success()
    ensures
        capture_transition(CapturePhase::Ready, false, CaptureEvent::Tick { stop_requested: false })
            == (CapturePhase::Capturing, CaptureAction::Capture { span: WallSpan::Window }),
        capture_transition(CapturePhase::Capturing, false, CaptureEvent::CaptureSucceeded) == (
            CapturePhase::Finished,
            CaptureAction::RecordAndFinish,
        ),
{
}

/// A rolling timelapse captures one segment duration at a time and keeps
/// going after a success and after a failure.
pub proof fn rolling_capture_keeps_going()
    ensures
        capture_transition(CapturePhase::Ready, true, CaptureEvent::Tick { stop_requested: false })
            == (CapturePhase::Capturing, CaptureAction::Capture { span: WallSpan::Segment }),
        capture_transition(CapturePhase::Capturing, true, CaptureEvent::CaptureSucceeded).0
            == CapturePhase::Ready,
        capture_transition(CapturePhase::Capturing, true, CaptureEvent::CaptureFailed).0
            == CapturePhase::Ready,
{
}

/// What the capture loop does on each event, rolling or not: coming round
/// without a stop request it captures, for one segment duration when
/// rolling and for the whole window otherwise; a failed capture, rolling or
/// not, is reported and retried after a wait; a successful capture is
/// recorded and the loop goes on when rolling and ends otherwise; any event
/// out of its phase changes nothing.
pub proof fn capture_loop_reactions(rolling: bool, phase: CapturePhase, event: CaptureEvent)
    ensures
        capture_transition(CapturePhase::Capturing, rolling, CaptureEvent::CaptureFailed) == (
            CapturePhase::Ready,
            CaptureAction::ReportFailureAndRetry,
        ),
        capture_transition(CapturePhase::Ready, rolling, CaptureEvent::Tick { stop_requested: false })
            == (
            CapturePhase::Capturing,
            CaptureAction::Capture {
                span: if rolling {
                    WallSpan::Segment
                } else {
                    WallSpan::Window
                },
            },
        ),
        capture_transition(CapturePhase::Ready, rolling, CaptureEvent::Tick { stop_requested: true })
            == (CapturePhase::Finished, CaptureAction::MarkStoppedAndFinish),
        capture_transition(CapturePhase::Capturing, rolling, CaptureEvent::CaptureSucceeded) == (
            if rolling {
                (CapturePhase::Ready, CaptureAction::RecordPruneAndContinue)
            } else {
                (CapturePhase::Finished, CaptureAction::RecordAndFinish)
            }
        ),
        phase == CapturePhase::Finished || (phase == CapturePhase::Ready && !(event is Tick)) || (
        phase == CapturePhase::Capturing && event is Tick) ==> capture_transition(
            phase,
            rolling,
            event,
        ) == (phase, CaptureAction::Ignore),
{
}

/// How long the segments of a rolling timelapse are kept, in whole
/// seconds: the window plus one segment of overlap, each rounded up.
pub fn retention_secs(window_secs_ceil: i64, segment_secs_ceil: i64) -> (r: i64)
    requires
        i64::MIN <= window_secs_ceil + segment_secs_ceil <= i64::MAX,
    ensures
        r == window_secs_ceil + segment_secs_ceil,
{
    window_secs_ceil + segment_secs_ceil
}

// ---------------------------------------------------------------------------
// Segments for a preview
// ---------------------------------------------------------------------------

/// How many of the latest segments a preview is made of.
pub const PREVIEW_SEGMENT_LIMIT: usize = 12;

/// The last `limit` items of `s`, or all of them when there are no more.
pub open spec fn tail_of<T>(s: Seq<T>, limit: nat) -> Seq<T> {
    if s.len() > limit {
        s.subrange(s.len() - limit, s.len() as int)
    } else {
        s
    }
}

/// Keeps the last `limit` segments, dropping the oldest.
pub fn tail_segments<T>(segments: Vec<T>, limit: usize) -> (r: Vec<T>)
    ensures
        r@ == tail_of(segments@, limit as nat),
{
    let mut segments = segments;
    let n = segments.len();
    if n > limit {
        let kept = segments.split_off(n - limit);
        kept
    } else {
        segments
    }
}

/// Keeping the tail keeps at most `limit` items, the newest ones, in order;
/// a list no longer than the limit is kept whole, and taking the tail
/// twice keeps what taking it once keeps.
pub proof fn tail_keeps_newest<T>(s: Seq<T>, limit: nat)
    ensures
        tail_of(s, limit).len() == if s.len() > limit {
            limit
        } else {
            s.len()
        },
        forall|i: int|
            0 <= i < tail_of(s, limit).len() ==> #[trigger] tail_of(s, limit)[i] == s[s.len()
                - tail_of(s, limit).len() + i],
        s.len() <= limit ==> tail_of(s, limit) == s,
        tail_of(tail_of(s, limit), limit) == tail_of(s, limit),
{
}

// ---------------------------------------------------------------------------
// Export file names
// ---------------------------------------------------------------------------

/// `c` in lower case when it is an ASCII capital letter.
pub open spec fn lower_ascii(c: char) -> char {
    if 'A' <= c && c <= 'Z' {
        ((c as u8) + 32u8) as char
    } else {
        c
    }
}

/// What one character of a name becomes in its slug: ASCII letters and
/// digits in lower case, anything else a `-`.
pub open spec fn slug_char(c: char) -> char {
    if text::is_ascii_alnum(c) {
        lower_ascii(c)
    } else {
        '-'
    }
}

/// The slug of a timelapse name: its characters mapped by `slug_char`,
/// without dashes at either end, or `timelapse` when nothing is left.
pub open spec fn slug_text(name: Seq<char>) -> Seq<char> {
    let t = text::trim_both(name.map_values(|c: char| slug_char(c)), TrimClass::Dash);
    if t.len() == 0 {
        "timelapse"@
    } else {
        t
    }
}

fn slug_char_of(c: char) -> (r: char)
    ensures
        r == slug_char(c),
{
    if ('0' <= c && c <= '9') || ('a' <= c && c <= 'z') {
        c
    } else if 'A' <= c && c <= 'Z' {
        ((c as u8) + 32u8) as char
    } else {
        '-'
    }
}

/// The slug of a timelapse name; see `slug_text`.
pub fn name_slug(name: &str) -> (r: String)
    ensures
        r@ == slug_text(name@),
{
    let v = chars_of(name);
    let mut mapped = String::new();
    let mut i: usize = 0;
    while i < v.len()
        invariant
            i <= v.len(),
            v@ == name@,
            mapped@ == name@.take(i as int).map_values(|c: char| slug_char(c)),
        decreases v.len() - i,
    {
        let c = slug_char_of(v[i]);
        push_char(&mut mapped, c);
        proof {
            assert(name@.take(i + 1).map_values(|c: char| slug_char(c)) =~= name@.take(
                i as int,
            ).map_values(|c: char| slug_char(c)).push(slug_char(name@[i as int])));
        }
        i = i + 1;
    }
    proof {
        assert(name@.take(name@.len() as int) =~= name@);
    }
    let slug = trim_class(mapped.as_str(), TrimClass::Dash);
    if slug.as_str().unicode_len() == 0 {
        owned("timelapse")
    } else {
        slug
    }
}

/// Characters a slug is made of.
pub open spec fn is_slug_char(c: char) -> bool {
    ('0' <= c && c <= '9') || ('a' <= c && c <= 'z') || c == '-'
}

proof fn lemma_slug_char_is_slug_char(c: char)
    ensures
        is_slug_char(slug_char(c)),
        is_slug_char(c) ==> slug_char(c) == c,
{
    if 'A' <= c && c <= 'Z' {
        assert('a' <= ((c as u8) + 32u8) as char && ((c as u8) + 32u8) as char <= 'z');
    }
}

/// A slug is never empty, is made of lower-case ASCII letters, digits and
/// dashes, does not begin or end with a dash, and is its own slug.
pub proof fn slug_is_stable(name: Seq<char>)
    ensures
        slug_text(name).len() > 0,
        forall|i: int| 0 <= i < slug_text(name).len() ==> is_slug_char(#[trigger] slug_text(name)[i]),
        slug_text(name)[0] != '-',
        slug_text(name).last() != '-',
        slug_text(slug_text(name)) == slug_text(name),
{
    let m = name.map_values(|c: char| slug_char(c));
    let t = text::trim_both(m, TrimClass::Dash);
    crate::text::lemma_trim_both_shape(m, TrimClass::Dash);
    let s = slug_text(name);
    if t.len() == 0 {
        reveal_strlit("timelapse");
        assert(s == "timelapse"@);
        assert forall|i: int| 0 <= i < s.len() implies is_slug_char(#[trigger] s[i]) by {}
    } else {
        let (a, b) = choose|a: int, b: int|
            0 <= a <= b <= m.len() && #[trigger] m.subrange(a, b) == t;
        assert forall|i: int| 0 <= i < t.len() implies is_slug_char(#[trigger] t[i]) by {
            assert(t[i] == m[a + i]);
            lemma_slug_char_is_slug_char(name[a + i]);
        }
    }
    let m2 = s.map_values(|c: char| slug_char(c));
    assert forall|i: int| 0 <= i < s.len() implies #[trigger] m2[i] == s[i] by {
        lemma_slug_char_is_slug_char(s[i]);
    }
    assert(m2 =~= s);
    crate::text::lemma_trim_both_fixed(s, TrimClass::Dash);
}

/// A name with no ASCII letter or digit in it gets the slug `timelapse`.
pub proof fn slug_of_name_without_letters_or_digits(name: Seq<char>)
    requires
        forall|i: int| 0 <= i < name.len() ==> !text::is_ascii_alnum(#[trigger] name[i]),
    ensures
        slug_text(name) == "timelapse"@,
{
    let m = name.map_values(|c: char| slug_char(c));
    assert forall|i: int| 0 <= i < m.len() implies TrimClass::Dash.holds(#[trigger] m[i]) by {
        assert(!text::is_ascii_alnum(name[i]));
    }
    text::lemma_trim_start_of_class(m, TrimClass::Dash);
}

/// A name made only of ASCII letters and digits keeps its length in its
/// slug: digits and lower-case letters stay as they are, and each capital
/// becomes the lower-case letter 32 code points above it.
pub proof fn slug_of_letters_and_digits(name: Seq<char>)
    requires
        name.len() > 0,
        forall|i: int| 0 <= i < name.len() ==> text::is_ascii_alnum(#[trigger] name[i]),
    ensures
        slug_text(name).len() == name.len(),
        forall|i: int|
            0 <= i < name.len() ==> {
                let c = name[i];
                let d = #[trigger] slug_text(name)[i];
                &&& ('0' <= c && c <= '9') || ('a' <= c && c <= 'z') ==> d == c
                &&& 'A' <= c && c <= 'Z' ==> d as u32 == c as u32 + 32
            },
{
    let m = name.map_values(|c: char| slug_char(c));
    assert forall|i: int| 0 <= i < m.len() implies #[trigger] m[i] != '-' && (('0' <= name[i]
        && name[i] <= '9') || ('a' <= name[i] && name[i] <= 'z') ==> m[i] == name[i]) && ('A'
        <= name[i] && name[i] <= 'Z' ==> m[i] as u32 == name[i] as u32 + 32) by {
        let c = name[i];
        assert(text::is_ascii_alnum(c));
        lemma_slug_char_is_slug_char(c);
        if 'A' <= c && c <= 'Z' {
            assert(((c as u8) + 32u8) as char as u32 == c as u32 + 32);
        }
    }
    text::lemma_trim_both_fixed(m, TrimClass::Dash);
}

/// The file name of an export of the timelapse named `name`, in `format`,
/// told apart from other exports by `id`: `<slug>-<id>.<format>`.
pub open spec fn export_file_name_text(name: Seq<char>, id: Seq<char>, format: Seq<char>) -> Seq<char> {
    slug_text(name) + "-"@ + id + "."@ + format
}

/// The file name of an export; see `export_file_name_text`.
pub fn export_file_name_with_id(name: &str, id: &str, format: &str) -> (r: String)
    ensures
        r@ == export_file_name_text(name@, id@, format@),
{
    let mut s = name_slug(name);
    push_str(&mut s, "-");
    push_str(&mut s, id);
    push_str(&mut s, ".");
    push_str(&mut s, format);
    s
}

} // verus!
