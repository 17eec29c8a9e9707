//! Decision logic of the process supervisor.
//!
//! The supervisor owns the external process. Two asynchronous tasks drive
//! it: a writer task that drains queued input lines into the process's
//! input stream, and a reader task that turns the process's output lines
//! into messages. The I/O itself happens outside the library; this module
//! holds the verified state and decisions of those tasks: what is queued,
//! in what order lines reach the process, how a write failure is latched,
//! how an output line is framed and trimmed, and when the reader stops.

use vstd::prelude::*;
use vstd::string::StrSliceExecFns;
use vstd::string::StringExecFns;

verus! {

/// Whitespace as far as line trimming is concerned.
pub open spec fn is_line_ws(c: char) -> bool {
    c == ' ' || c == '\t' || c == '\r' || c == '\n'
}

/// `s` with every trailing whitespace character removed.
pub open spec fn trim_trailing_spec(s: Seq<char>) -> Seq<char>
    decreases s.len(),
{
    if s.len() > 0 && is_line_ws(s[s.len() - 1]) {
        trim_trailing_spec(s.drop_last())
    } else {
        s
    }
}

proof fn lemma_trim_ws_suffix(s: Seq<char>, e: int)
    requires
        0 <= e <= s.len(),
        forall|k: int| e <= k < s.len() ==> is_line_ws(s[k]),
    ensures
        trim_trailing_spec(s) == trim_trailing_spec(s.subrange(0, e)),
    decreases s.len() - e,
{
    if e == s.len() {
        assert(s.subrange(0, e) =~= s);
    } else {
        assert(is_line_ws(s[s.len() - 1]));
        assert(s.drop_last() =~= s.subrange(0, s.len() - 1));
        lemma_trim_ws_suffix(s.subrange(0, s.len() - 1), e);
        assert(s.subrange(0, s.len() - 1).subrange(0, e) =~= s.subrange(0, e));
    }
}

fn is_ws_char(c: char) -> (b: bool)
    ensures
        b == is_line_ws(c),
{
    c == ' ' || c == '\t' || c == '\r' || c == '\n'
}

/// Frame one line of process output into a message: remove its trailing
/// whitespace (the line terminator included).
pub fn trim_message(line: &str) -> (r: String)
    ensures
        r@ == trim_trailing_spec(line@),
{
    let len = line.unicode_len();
    let mut end = len;
    while end > 0 && is_ws_char(line.get_char(end - 1))
        invariant
            end <= len,
            len == line@.len(),
            forall|k: int| end <= k < len ==> is_line_ws(line@[k]),
        decreases end,
    {
        end -= 1;
    }
    proof {
        lemma_trim_ws_suffix(line@, end as int);
    }
    let pre = line.substring_char(0, end);
    pre.to_owned()
}

/// The line as it is written to the process's input stream:
/// newline-terminated.
pub fn encode_line(text: &str) -> (r: String)
    ensures
        r@ == text@ + seq!['\n'],
{
    let mut s = text.to_owned();
    s.append("\n");
    proof {
        reveal_strlit("\n");
        assert(s@ =~= text@ + seq!['\n']);
    }
    s
}

/// The queue feeding the process's input stream, and the writer task's
/// failure latch.
///
/// Callers enqueue lines without blocking; a dedicated writer task drains
/// the queue in submission order. If the writer observes a write failure it
/// stops draining — later enqueues still succeed locally but are never
/// delivered, since the process is taken to be dead at that point.
///
/// `submitted` is the ghost record of every line ever enqueued; `written`
/// records the lines handed to the process's input stream, in order.
pub struct InputWriter {
    pub queue: std::collections::VecDeque<String>,
    pub failed: bool,
    /// Every line ever enqueued, oldest first.
    pub submitted: Ghost<Seq<Seq<char>>>,
    /// The lines handed to the process's input stream, oldest first.
    pub written: Ghost<Seq<Seq<char>>>,
}

impl InputWriter {
    /// The lines enqueued but not yet handed to the process, oldest first.
    pub open spec fn queued(&self) -> Seq<Seq<char>> {
        self.queue@.map_values(|m: String| m@)
    }

    pub open spec fn wf(&self) -> bool {
        self.written@ + self.queued() == self.submitted@
    }

    pub fn new() -> (w: InputWriter)
        ensures
            w.wf(),
            !w.failed,
            w.submitted@ == Seq::<Seq<char>>::empty(),
            w.written@ == Seq::<Seq<char>>::empty(),
            w.queued() == Seq::<Seq<char>>::empty(),
    {
        let w = InputWriter {
            queue: std::collections::VecDeque::new(),
            failed: false,
            submitted: Ghost(Seq::empty()),
            written: Ghost(Seq::empty()),
        };
        proof {
            assert(w.queued() =~= Seq::<Seq<char>>::empty());
            assert(w.written@ + w.queued() =~= w.submitted@);
        }
        w
    }

    /// Enqueue one input line for the process. Never blocks and never
    /// fails, whatever the writer task has observed.
    pub fn enqueue_line(&mut self, text: String)
        requires
            old(self).wf(),
        ensures
            final(self).wf(),
            final(self).submitted@ == old(self).submitted@.push(text@),
            final(self).written@ == old(self).written@,
            final(self).failed == old(self).failed,
    {
        self.queue.push_back(text);
        proof {
            self.submitted@ = self.submitted@.push(text@);
            assert(self.queued() =~= old(self).queued().push(text@));
            assert(self.written@ + self.queued() =~= self.submitted@);
        }
    }

    /// The writer task takes the next line to write, already
    /// newline-terminated. Once a failure has been latched, nothing more is
    /// handed out.
    pub fn next_to_write(&mut self) -> (r: Option<String>)
        requires
            old(self).wf(),
        ensures
            final(self).wf(),
            final(self).submitted@ == old(self).submitted@,
            final(self).failed == old(self).failed,
            if old(self).failed || old(self).queued().len() == 0 {
                &&& r is None
                &&& final(self).written@ == old(self).written@
                &&& final(self).queued() == old(self).queued()
            } else {
                &&& r matches Some(m) && m@ == old(self).queued()[0] + seq!['\n']
                &&& final(self).written@ == old(self).written@.push(old(self).queued()[0])
                &&& final(self).queued() == old(self).queued().drop_first()
            },
    {
        if self.failed {
            return None;
        }
        match self.queue.pop_front() {
            None => None,
            Some(line) => {
                proof {
                    self.written@ = self.written@.push(line@);
                    assert(self.queued() =~= old(self).queued().drop_first());
                    assert(self.written@ + self.queued() =~= self.submitted@);
                }
                Some(encode_line(line.as_str()))
            },
        }
    }

    /// The writer task observed a write failure against the process's
    /// input stream: latch it and stop delivering. Enqueued and future
    /// lines stay accepted locally but are never handed out.
    pub fn on_write_failure(&mut self)
        requires
            old(self).wf(),
        ensures
            final(self).wf(),
            final(self).failed,
            final(self).submitted@ == old(self).submitted@,
            final(self).written@ == old(self).written@,
            final(self).queued() == old(self).queued(),
    {
        self.failed = true;
    }
}

/// Submission order is preserved: the lines handed to the process are
/// exactly the first `written` submitted lines, in submission order, with
/// the rest still queued behind them.
pub proof fn lemma_writer_order(w: &InputWriter)
    requires
        w.wf(),
    ensures
        w.written@.len() <= w.submitted@.len(),
        w.written@ == w.submitted@.subrange(0, w.written@.len() as int),
        w.queued() == w.submitted@.subrange(w.written@.len() as int, w.submitted@.len() as int),
{
    assert(w.written@ =~= w.submitted@.subrange(0, w.written@.len() as int));
    assert(w.queued() =~= w.submitted@.subrange(
        w.written@.len() as int,
        w.submitted@.len() as int,
    ));
}

/// One unit observed by the reader task on the process's output stream.
pub enum ReadEvent {
    /// One line was read, terminator included.
    Line(String),
    /// Clean end of stream: the process exited.
    EndOfStream,
    /// A read error against the output stream.
    ReadFailure,
}

/// What the reader task does next.
pub enum ReaderStep {
    /// Publish this message to the hub and keep reading.
    Publish(String),
    /// Stop the reader task; no further output messages are produced.
    Stop,
}

/// The reader task's decision for one observed event: a line is trimmed of
/// trailing whitespace and published; end of stream and read errors both
/// stop the task.
pub fn reader_step(ev: ReadEvent) -> (step: ReaderStep)
    ensures
        match ev {
            ReadEvent::Line(l) => step matches ReaderStep::Publish(m) && m@
                == trim_trailing_spec(l@),
            ReadEvent::EndOfStream => step is Stop,
            ReadEvent::ReadFailure => step is Stop,
        },
{
    match ev {
        ReadEvent::Line(l) => ReaderStep::Publish(trim_message(l.as_str())),
        ReadEvent::EndOfStream => ReaderStep::Stop,
        ReadEvent::ReadFailure => ReaderStep::Stop,
    }
}

} // verus!
