//! The log tailer: one per log source. It opens the source's stream, frames
//! the bytes into lines, counts the lines that match the source's pattern
//! and alerts on each, and when the stream ends waits a fixed backoff and
//! opens it again. The worker that runs it performs the actions this state
//! machine returns and reports back what happened.

use vstd::prelude::*;
use vstd::utf8::{decode_utf8, valid_utf8};
use crate::configuration::Configuration;
use crate::framing::{FrameDecoder, LineFramer, NEWLINE, decode_step, decoder_wf, frame_step};
use crate::text::{decimal_text, unsigned_text};

verus! {

/// Seconds to wait after a stream ends before opening it again.
pub const BACKOFF_SECONDS: u64 = 15;

#[verifier::external_type_specification]
#[verifier::external_body]
pub struct ExRegex(regex::Regex);

/// Whether the `regex` crate accepts a pattern (its syntax, within the
/// default size limit).
pub uninterp spec fn regex_compiles(pattern: Seq<char>) -> bool;

/// Whether the `regex` crate finds a match of `pattern` anywhere in `text`.
pub uninterp spec fn regex_finds(pattern: Seq<char>, text: Seq<char>) -> bool;

/// Relies on `regex::Regex::new`: it succeeds exactly on the patterns the
/// crate accepts, and otherwise gives the crate's error text.
#[verifier::external_body]
fn compile(pattern: &str) -> (r: Result<regex::Regex, String>)
    ensures
        r is Ok <==> regex_compiles(pattern@),
{
    regex::Regex::new(pattern).map_err(|e| e.to_string())
}

/// A compiled regular expression together with its text.
pub struct Pattern {
    text: String,
    compiled: regex::Regex,
}

impl View for Pattern {
    type V = Seq<char>;

    closed spec fn view(&self) -> Seq<char> {
        self.text@
    }
}

/// Relies on `regex::Regex::is_match`: true exactly when the regex matches
/// somewhere in `text`. A `Pattern` is only built from its text's compiled
/// form, so the regex is the one its view names.
#[verifier::external_body]
fn pattern_finds(p: &Pattern, text: &str) -> (r: bool)
    ensures
        r == regex_finds(p@, text@),
{
    p.compiled.is_match(text)
}

/// Relies on `String::from_utf8`: it succeeds exactly on valid UTF-8 and
/// then holds the decoded characters.
#[verifier::external_body]
fn utf8_text(bytes: Vec<u8>) -> (r: Option<String>)
    ensures
        r is Some <==> valid_utf8(bytes@),
        r matches Some(s) ==> s@ == decode_utf8(bytes@),
{
    String::from_utf8(bytes).ok()
}

impl Pattern {
    /// Compiles `text`; fails when the regex crate refuses it.
    pub fn new(text: &str) -> (r: Result<Pattern, String>)
        ensures
            r is Ok <==> regex_compiles(text@),
            r matches Ok(p) ==> p@ == text@,
    {
        match compile(text) {
            Ok(compiled) => Ok(Pattern { text: text.to_string(), compiled }),
            Err(e) => Err(e),
        }
    }

    /// Whether the pattern matches somewhere in `line`.
    pub fn is_match(&self, line: &str) -> (r: bool)
        ensures
            r == regex_finds(self@, line@),
    {
        pattern_finds(self, line)
    }
}

/// A line counts as a hit when it is valid UTF-8 and the pattern matches the
/// decoded text.
pub open spec fn line_hits(pattern: Seq<char>, line: Seq<u8>) -> bool {
    valid_utf8(line) && regex_finds(pattern, decode_utf8(line))
}

/// The alert sent for the `count`th hit of the source called `name`.
pub open spec fn hit_text(name: Seq<char>, count: u64) -> Seq<char> {
    name + " received "@ + decimal_text(count as int) + " hits."@
}

/// The hit counter after one more hit; it stops at the largest `u64`.
pub open spec fn next_count(n: u64) -> u64 {
    if n == u64::MAX {
        n
    } else {
        (n + 1) as u64
    }
}

pub enum TailPhase {
    Opening,
    Streaming,
    Backoff,
}

/// What the worker reports back.
pub enum TailEvent {
    /// The source's stream was opened.
    Opened,
    /// The source could not be opened.
    OpenFailed,
    /// One byte was read.
    Byte(u8),
    /// Reading a byte failed.
    ReadFailed,
    /// The stream ended.
    Ended,
    /// The backoff wait is over.
    BackoffElapsed,
}

/// What the worker does next.
pub enum TailAction {
    /// Open the source's stream.
    Open,
    /// Read the next byte.
    Read,
    /// Send this alert, then read the next byte.
    Send(String),
    /// Wait this many seconds.
    Sleep(u64),
    /// Give up: the source cannot be opened.
    Stop,
}

/// The action that a phase waits to have carried out.
pub open spec fn phase_action(phase: TailPhase) -> TailAction {
    match phase {
        TailPhase::Opening => TailAction::Open,
        TailPhase::Streaming => TailAction::Read,
        TailPhase::Backoff => TailAction::Sleep(BACKOFF_SECONDS),
    }
}

/// A tailer for one log source. `multiplexed` tells whether the stream comes
/// in the container engine's frames; otherwise it is raw text.
pub struct LogTailer {
    pub name: String,
    pub source: String,
    pub pattern: Pattern,
    pub multiplexed: bool,
    pub hits: u64,
    pub decoder: FrameDecoder,
    pub framer: LineFramer,
    pub phase: TailPhase,
}

impl LogTailer {
    pub open spec fn wf(&self) -> bool {
        decoder_wf(self.decoder@)
    }

    /// Everything but the phase is as in `other`.
    pub open spec fn same_but_phase(&self, other: &LogTailer) -> bool {
        &&& self.name == other.name
        &&& self.source == other.source
        &&& self.pattern == other.pattern
        &&& self.multiplexed == other.multiplexed
        &&& self.hits == other.hits
        &&& self.decoder@ == other.decoder@
        &&& self.framer@ == other.framer@
    }

    /// The tailer after one event, and the action it returns.
    pub open spec fn handled(&self, ev: TailEvent, next: &LogTailer, action: TailAction) -> bool {
        match (self.phase, ev) {
            (TailPhase::Opening, TailEvent::Opened) => next.same_but_phase(self) && next.phase
                == TailPhase::Streaming && action == TailAction::Read,
            (TailPhase::Opening, TailEvent::OpenFailed) => next.same_but_phase(self) && next.phase
                == TailPhase::Opening && action == TailAction::Stop,
            (TailPhase::Streaming, TailEvent::Ended) => next.same_but_phase(self) && next.phase
                == TailPhase::Backoff && action == TailAction::Sleep(BACKOFF_SECONDS),
            (TailPhase::Backoff, TailEvent::BackoffElapsed) => next.same_but_phase(self)
                && next.phase == TailPhase::Opening && action == TailAction::Open,
            (TailPhase::Streaming, TailEvent::Byte(b)) => {
                let (d1, payload) = if self.multiplexed {
                    decode_step(self.decoder@, b)
                } else {
                    (self.decoder@, Some(b))
                };
                let (p1, line) = match payload {
                    Some(x) => frame_step(self.framer@, x),
                    None => (self.framer@, None),
                };
                let hit = line matches Some(l) && line_hits(self.pattern@, l);
                &&& next.name == self.name
                &&& next.source == self.source
                &&& next.pattern == self.pattern
                &&& next.multiplexed == self.multiplexed
                &&& next.phase == TailPhase::Streaming
                &&& next.decoder@ == d1
                &&& next.framer@ == p1
                &&& next.hits == if hit {
                    next_count(self.hits)
                } else {
                    self.hits
                }
                &&& if hit {
                    action matches TailAction::Send(t) && t@ == hit_text(self.name@, next.hits)
                } else {
                    action == TailAction::Read
                }
            },
            _ => next.same_but_phase(self) && next.phase == self.phase && action == phase_action(
                self.phase,
            ),
        }
    }

    /// A tailer for the source `source` called `name`, matching lines
    /// against `pattern`. It starts by opening the source, with no hits.
    /// Fails when the pattern does not compile.
    pub fn new(name: &String, source: &String, pattern: &String, multiplexed: bool) -> (r: Result<
        LogTailer,
        String,
    >)
        ensures
            r is Ok <==> regex_compiles(pattern@),
            r matches Err(e) ==> e@ == "Could not create regex"@,
            r matches Ok(t) ==> {
                &&& t.wf()
                &&& t.decoder@ == (Seq::<u8>::empty(), 0u32)
                &&& t.name == name
                &&& t.source == source
                &&& t.pattern@ == pattern@
                &&& t.multiplexed == multiplexed
                &&& t.hits == 0
                &&& t.framer@ == Seq::<u8>::empty()
                &&& t.phase == TailPhase::Opening
            },
    {
        let p = match Pattern::new(pattern.as_str()) {
            Ok(p) => p,
            Err(_) => return Err("Could not create regex".to_string()),
        };
        Ok(
            LogTailer {
                name: name.clone(),
                source: source.clone(),
                pattern: p,
                multiplexed,
                hits: 0,
                decoder: FrameDecoder::new(),
                framer: LineFramer::new(),
                phase: TailPhase::Opening,
            },
        )
    }

    /// Counts a complete line when it decodes and matches, returning the
    /// alert text for it.
    fn check_line(&mut self, line: Vec<u8>) -> (alert: Option<String>)
        ensures
            final(self).name == old(self).name,
            final(self).source == old(self).source,
            final(self).pattern == old(self).pattern,
            final(self).multiplexed == old(self).multiplexed,
            final(self).phase == old(self).phase,
            final(self).decoder == old(self).decoder,
            final(self).framer == old(self).framer,
            final(self).hits == if line_hits(old(self).pattern@, line@) {
                next_count(old(self).hits)
            } else {
                old(self).hits
            },
            if line_hits(old(self).pattern@, line@) {
                alert matches Some(t) && t@ == hit_text(old(self).name@, final(self).hits)
            } else {
                alert is None
            },
    {
        let text = match utf8_text(line) {
            Some(t) => t,
            None => return None,
        };
        if !self.pattern.is_match(text.as_str()) {
            return None;
        }
        if self.hits < u64::MAX {
            self.hits = self.hits + 1;
        }
        let mut t = self.name.clone();
        t.append(" received ");
        let count = unsigned_text(self.hits);
        t.append(count.as_str());
        t.append(" hits.");
        Some(t)
    }

    /// Takes the worker's report of what happened and returns what it does
    /// next.
    pub fn handle(&mut self, ev: TailEvent) -> (action: TailAction)
        requires
            old(self).wf(),
        ensures
            old(self).handled(ev, final(self), action),
            final(self).wf(),
    {
        match (&self.phase, ev) {
            (TailPhase::Opening, TailEvent::Opened) => {
                self.phase = TailPhase::Streaming;
                TailAction::Read
            },
            (TailPhase::Opening, TailEvent::OpenFailed) => TailAction::Stop,
            (TailPhase::Streaming, TailEvent::Ended) => {
                self.phase = TailPhase::Backoff;
                TailAction::Sleep(BACKOFF_SECONDS)
            },
            (TailPhase::Backoff, TailEvent::BackoffElapsed) => {
                self.phase = TailPhase::Opening;
                TailAction::Open
            },
            (TailPhase::Streaming, TailEvent::Byte(b)) => {
                let payload = if self.multiplexed {
                    self.decoder.push(b)
                } else {
                    Some(b)
                };
                let line = match payload {
                    Some(x) => self.framer.push(x),
                    None => None,
                };
                match line {
                    Some(l) => match self.check_line(l) {
                        Some(t) => TailAction::Send(t),
                        None => TailAction::Read,
                    },
                    None => TailAction::Read,
                }
            },
            (TailPhase::Opening, _) => TailAction::Open,
            (TailPhase::Streaming, _) => TailAction::Read,
            (TailPhase::Backoff, _) => TailAction::Sleep(BACKOFF_SECONDS),
        }
    }
}

/// When the stream ends, the tailer waits the backoff and then opens the
/// source again, keeping its hit count through both steps.
pub proof fn lemma_stream_end_backs_off_and_reopens(
    t0: LogTailer,
    t1: LogTailer,
    a1: TailAction,
    t2: LogTailer,
    a2: TailAction,
)
    requires
        t0.phase == TailPhase::Streaming,
        t0.handled(TailEvent::Ended, &t1, a1),
        t1.handled(TailEvent::BackoffElapsed, &t2, a2),
    ensures
        a1 == TailAction::Sleep(BACKOFF_SECONDS),
        t1.phase == TailPhase::Backoff,
        a2 == TailAction::Open,
        t2.phase == TailPhase::Opening,
        t1.hits == t0.hits,
        t2.hits == t0.hits,
{
}

/// How many of the lines that `bytes` completes, read with `pending` already
/// buffered, the pattern finds a match in.
pub open spec fn hit_lines(pattern: Seq<char>, pending: Seq<u8>, bytes: Seq<u8>) -> nat
    decreases bytes.len(),
{
    if bytes.len() == 0 {
        0
    } else {
        let (p1, line) = frame_step(pending, bytes[0]);
        (if line matches Some(l) && line_hits(pattern, l) {
            1nat
        } else {
            0nat
        }) + hit_lines(pattern, p1, bytes.drop_first())
    }
}

/// The bytes left buffered after reading `bytes` with `pending` buffered.
pub open spec fn pending_after(pending: Seq<u8>, bytes: Seq<u8>) -> Seq<u8>
    decreases bytes.len(),
{
    if bytes.len() == 0 {
        pending
    } else {
        pending_after(frame_step(pending, bytes[0]).0, bytes.drop_first())
    }
}

/// How many of the actions send an alert.
pub open spec fn sends(actions: Seq<TailAction>) -> nat
    decreases actions.len(),
{
    if actions.len() == 0 {
        0
    } else {
        (if actions[0] is Send {
            1nat
        } else {
            0nat
        }) + sends(actions.drop_first())
    }
}

/// `states[k + 1]` and `actions[k]` come from handing byte `bytes[k]` to
/// `states[k]`.
pub open spec fn streamed_run(states: Seq<LogTailer>, bytes: Seq<u8>, actions: Seq<TailAction>) -> bool {
    &&& states.len() == bytes.len() + 1
    &&& actions.len() == bytes.len()
    &&& forall|k: int|
        #![trigger actions[k]]
        0 <= k < bytes.len() ==> states[k].handled(TailEvent::Byte(bytes[k]), &states[k + 1], actions[k])
}

proof fn lemma_streamed_run_suffix(states: Seq<LogTailer>, bytes: Seq<u8>, actions: Seq<TailAction>)
    requires
        streamed_run(states, bytes, actions),
        bytes.len() > 0,
    ensures
        streamed_run(states.drop_first(), bytes.drop_first(), actions.drop_first()),
        states[0].handled(TailEvent::Byte(bytes[0]), &states[1], actions[0]),
{
    let (s1, b1, a1) = (states.drop_first(), bytes.drop_first(), actions.drop_first());
    assert forall|k: int| #![trigger a1[k]] 0 <= k < b1.len() implies s1[k].handled(
        TailEvent::Byte(b1[k]),
        &s1[k + 1],
        a1[k],
    ) by {
        assert(actions[k + 1] == a1[k]);
    }
    assert(states[0].handled(TailEvent::Byte(bytes[0]), &states[1], actions[0]));
}

/// A tailer reading raw text counts, and alerts on, exactly the complete
/// lines of the bytes it is handed in which the pattern finds a match; what
/// follows the last newline stays buffered. (The count must stay below the
/// largest `u64`, where it stops.)
pub proof fn lemma_raw_stream_counts_matching_lines(
    states: Seq<LogTailer>,
    bytes: Seq<u8>,
    actions: Seq<TailAction>,
)
    requires
        streamed_run(states, bytes, actions),
        states[0].phase == TailPhase::Streaming,
        !states[0].multiplexed,
        states[0].hits + hit_lines(states[0].pattern@, states[0].framer@, bytes) <= u64::MAX,
    ensures
        states.last().hits == states[0].hits + hit_lines(states[0].pattern@, states[0].framer@, bytes),
        states.last().framer@ == pending_after(states[0].framer@, bytes),
        states.last().pattern == states[0].pattern,
        states.last().phase == TailPhase::Streaming,
        sends(actions) == hit_lines(states[0].pattern@, states[0].framer@, bytes),
    decreases bytes.len(),
{
    if bytes.len() > 0 {
        lemma_streamed_run_suffix(states, bytes, actions);
        let rest = states.drop_first();
        assert(rest.last() == states.last());
        lemma_raw_stream_counts_matching_lines(rest, bytes.drop_first(), actions.drop_first());
    }
}

/// Lines are counted one by one: the hits in `a` followed by `b` are those in
/// `a` plus those in `b` read after `a`.
pub proof fn lemma_lines_counted_independently(
    pattern: Seq<char>,
    pending: Seq<u8>,
    a: Seq<u8>,
    b: Seq<u8>,
)
    ensures
        hit_lines(pattern, pending, a + b) == hit_lines(pattern, pending, a) + hit_lines(
            pattern,
            pending_after(pending, a),
            b,
        ),
        pending_after(pending, a + b) == pending_after(pending_after(pending, a), b),
    decreases a.len(),
{
    if a.len() == 0 {
        assert(a + b =~= b);
    } else {
        assert((a + b).drop_first() =~= a.drop_first() + b);
        assert((a + b)[0] == a[0]);
        lemma_lines_counted_independently(pattern, frame_step(pending, a[0]).0, a.drop_first(), b);
    }
}

/// Bytes that end with a newline leave nothing buffered, so what follows
/// them is read as fresh lines.
pub proof fn lemma_newline_ends_pending(pending: Seq<u8>, a: Seq<u8>)
    requires
        a.len() > 0,
        a.last() == NEWLINE,
    ensures
        pending_after(pending, a) == Seq::<u8>::empty(),
    decreases a.len(),
{
    if a.len() == 1 {
        assert(a[0] == a.last());
        let p1 = frame_step(pending, a[0]).0;
        assert(p1 == Seq::<u8>::empty());
        assert(pending_after(p1, a.drop_first()) == p1);
    } else {
        assert(a.drop_first().last() == a.last());
        lemma_newline_ends_pending(frame_step(pending, a[0]).0, a.drop_first());
    }
}

/// Tailers for the configured log sources, in order, each reading the
/// container engine's multiplexed stream when `multiplexed` is set. Refused
/// when no log source is configured, or when a pattern does not compile.
pub fn tailers_from_config(config: &Configuration, multiplexed: bool) -> (r: Result<
    Vec<LogTailer>,
    String,
>)
    ensures
        config.log_files is None ==> (r matches Err(e) && e@ == "log_files is not set"@),
        config.log_files is Some ==> (r matches Err(e) ==> e@ == "Could not create regex"@),
        config.log_files matches Some(l) ==> (r is Ok <==> forall|i: int|
            0 <= i < l@.len() ==> regex_compiles(#[trigger] l@[i].2@)),
        r matches Ok(ts) ==> {
            let l = config.log_files->Some_0@;
            &&& ts@.len() == l.len()
            &&& forall|i: int|
                0 <= i < l.len() ==> {
                    let t = #[trigger] ts@[i];
                    &&& t.wf()
                    &&& t.decoder@ == (Seq::<u8>::empty(), 0u32)
                    &&& t.name == l[i].0
                    &&& t.source == l[i].1
                    &&& t.pattern@ == l[i].2@
                    &&& t.multiplexed == multiplexed
                    &&& t.hits == 0
                    &&& t.framer@ == Seq::<u8>::empty()
                    &&& t.phase == TailPhase::Opening
                }
        },
{
    let logs = match &config.log_files {
        None => return Err("log_files is not set".to_string()),
        Some(l) => l,
    };
    let mut out: Vec<LogTailer> = Vec::new();
    let mut i: usize = 0;
    while i < logs.len()
        invariant
            i <= logs@.len(),
            out@.len() == i,
            config.log_files == Some(*logs),
            forall|j: int| 0 <= j < i ==> regex_compiles(#[trigger] logs@[j].2@),
            forall|j: int|
                0 <= j < i ==> {
                    let t = #[trigger] out@[j];
                    &&& t.wf()
                    &&& t.decoder@ == (Seq::<u8>::empty(), 0u32)
                    &&& t.name == logs@[j].0
                    &&& t.source == logs@[j].1
                    &&& t.pattern@ == logs@[j].2@
                    &&& t.multiplexed == multiplexed
                    &&& t.hits == 0
                    &&& t.framer@ == Seq::<u8>::empty()
                    &&& t.phase == TailPhase::Opening
                },
        decreases logs@.len() - i,
    {
        let entry = &logs[i];
        match LogTailer::new(&entry.0, &entry.1, &entry.2, multiplexed) {
            Ok(t) => out.push(t),
            Err(e) => {
                assert(!regex_compiles(logs@[i as int].2@));
                assert(config.log_files->Some_0@ == logs@);
                assert(!(forall|j: int| 0 <= j < logs@.len() ==> regex_compiles(#[trigger] logs@[j].2@)));
                return Err(e);
            },
        }
        i = i + 1;
    }
    Ok(out)
}

} // verus!
