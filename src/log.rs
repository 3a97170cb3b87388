//! The buffer that collects the lines of one run from both output streams,
//! and what holds of it whatever order the two streams' lines arrive in.
use vstd::prelude::*;
use crate::line::{kept, kind_of, route, route_line, LineKind};

verus! {

/// The stream of the child process that a line came from.
#[derive(Clone, Copy, Debug, PartialEq, Eq, Structural)]
pub enum Stream {
    Stdout,
    Stderr,
}

/// One line of output, with the stream it came from.
pub struct LogEntry {
    pub source: Stream,
    pub text: String,
}

/// The lines of one run, in the order in which they were recorded.
pub struct LogBuffer {
    entries: Vec<LogEntry>,
}

/// A line as the contracts see it: its stream and its characters.
pub type EntryView = (Stream, Seq<char>);

impl View for LogBuffer {
    type V = Seq<EntryView>;

    closed spec fn view(&self) -> Seq<EntryView> {
        self.entries@.map_values(|e: LogEntry| (e.source, e.text@))
    }
}

/// The buffer after one line has arrived: it is appended when it is kept.
pub open spec fn step(log: Seq<EntryView>, e: EntryView, error_only: bool) -> Seq<EntryView> {
    if kept(e.1, error_only) {
        log.push(e)
    } else {
        log
    }
}

/// The buffer after the lines `events` have arrived, in that order, from empty.
pub open spec fn replay(events: Seq<EntryView>, error_only: bool) -> Seq<EntryView>
    decreases events.len(),
{
    if events.len() == 0 {
        Seq::empty()
    } else {
        step(replay(events.drop_last(), error_only), events.last(), error_only)
    }
}

/// The lines among `entries` that came from `source`, in order.
pub open spec fn lines_from(entries: Seq<EntryView>, source: Stream) -> Seq<Seq<char>>
    decreases entries.len(),
{
    if entries.len() == 0 {
        Seq::empty()
    } else if entries.last().0 == source {
        lines_from(entries.drop_last(), source).push(entries.last().1)
    } else {
        lines_from(entries.drop_last(), source)
    }
}

/// The lines among `lines` that are kept, in order.
pub open spec fn keep_lines(lines: Seq<Seq<char>>, error_only: bool) -> Seq<Seq<char>>
    decreases lines.len(),
{
    if lines.len() == 0 {
        Seq::empty()
    } else if kept(lines.last(), error_only) {
        keep_lines(lines.drop_last(), error_only).push(lines.last())
    } else {
        keep_lines(lines.drop_last(), error_only)
    }
}

/// The text of a log: each line followed by a newline.
pub open spec fn render(entries: Seq<EntryView>) -> Seq<char>
    decreases entries.len(),
{
    if entries.len() == 0 {
        Seq::empty()
    } else {
        render(entries.drop_last()) + entries.last().1 + seq!['\n']
    }
}

/// The block that one run appends to a log file: the log's text and a newline.
pub open spec fn block_of(entries: Seq<EntryView>) -> Seq<char> {
    render(entries) + seq!['\n']
}

impl LogBuffer {
    /// An empty buffer.
    pub fn new() -> (r: LogBuffer)
        ensures
            r@ == Seq::<EntryView>::empty(),
    {
        LogBuffer { entries: Vec::new() }
    }

    /// The number of lines recorded.
    pub fn len(&self) -> (r: usize)
        ensures
            r == self@.len(),
    {
        self.entries.len()
    }

    /// Takes in one line from `source`: it is appended when it is kept, and
    /// the result says how it is to be shown (`None`: not at all).
    pub fn record(&mut self, source: Stream, line: String, error_only: bool) -> (r: Option<
        LineKind,
    >)
        ensures
            r == route(line@, error_only),
            final(self)@ == step(old(self)@, (source, line@), error_only),
    {
        let r = route_line(line.as_str(), error_only);
        if r.is_some() {
            let ghost before = self@;
            self.entries.push(LogEntry { source, text: line });
            assert(self@ =~= before.push((source, line@)));
        }
        r
    }

    /// The lines recorded, in order.
    pub fn lines(&self) -> (r: Vec<String>)
        ensures
            r@.len() == self@.len(),
            forall|i: int| 0 <= i < r@.len() ==> r@[i]@ == self@[i].1,
    {
        let mut r: Vec<String> = Vec::new();
        let mut i: usize = 0;
        while i < self.entries.len()
            invariant
                i <= self.entries@.len(),
                r@.len() == i,
                forall|j: int| 0 <= j < i ==> r@[j]@ == self@[j].1,
            decreases self.entries@.len() - i,
        {
            r.push(self.entries[i].text.clone());
            i = i + 1;
        }
        r
    }

    /// The text of the buffer: each line followed by a newline.
    pub fn text(&self) -> (r: String)
        ensures
            r@ == render(self@),
    {
        let mut r = String::new();
        let mut i: usize = 0;
        while i < self.entries.len()
            invariant
                i <= self.entries@.len(),
                r@ == render(self@.subrange(0, i as int)),
            decreases self.entries@.len() - i,
        {
            proof {
                let s = self@.subrange(0, i + 1);
                assert(s.drop_last() =~= self@.subrange(0, i as int));
            }
            r.append(self.entries[i].text.as_str());
            r.append("\n");
            proof {
                reveal_strlit("\n");
            }
            i = i + 1;
        }
        assert(self@.subrange(0, i as int) =~= self@);
        r
    }

    /// What a run appends to its log file: the text of the buffer and one
    /// more newline, so that each run ends in a blank line.
    pub fn log_block(&self) -> (r: String)
        ensures
            r@ == block_of(self@),
    {
        let mut r = self.text();
        r.append("\n");
        proof {
            reveal_strlit("\n");
        }
        r
    }
}

/// Whatever order the two streams' lines arrive in, the lines of one stream
/// stand in the log in the order in which that stream wrote them, with those
/// that are not kept left out.
pub proof fn lemma_stream_order_kept(events: Seq<EntryView>, error_only: bool, source: Stream)
    ensures
        lines_from(replay(events, error_only), source) == keep_lines(
            lines_from(events, source),
            error_only,
        ),
    decreases events.len(),
{
    if events.len() > 0 {
        let prev = events.drop_last();
        let e = events.last();
        lemma_stream_order_kept(prev, error_only, source);
        let log = replay(prev, error_only);
        let l = lines_from(prev, source);
        if kept(e.1, error_only) {
            assert(log.push(e).drop_last() =~= log);
        }
        if e.0 == source {
            assert(l.push(e.1).drop_last() =~= l);
        }
    }
}

/// With only errors wanted, every line in the log is an error line, and every
/// error line that arrived is in it.
pub proof fn lemma_error_only_keeps_errors(events: Seq<EntryView>)
    ensures
        forall|i: int|
            0 <= i < replay(events, true).len() ==> kind_of(#[trigger] replay(events, true)[i].1)
                == LineKind::Error,
        forall|i: int|
            0 <= i < events.len() && kind_of(events[i].1) == LineKind::Error ==> replay(
                events,
                true,
            ).contains(#[trigger] events[i]),
    decreases events.len(),
{
    if events.len() > 0 {
        let prev = events.drop_last();
        lemma_error_only_keeps_errors(prev);
        let log = replay(prev, true);
        assert forall|i: int|
            0 <= i < events.len() && kind_of(events[i].1) == LineKind::Error implies replay(
            events,
            true,
        ).contains(#[trigger] events[i]) by {
            if i < events.len() - 1 {
                assert(prev[i] == events[i]);
                let k = choose|k: int| 0 <= k < log.len() && log[k] == prev[i];
                assert(replay(events, true)[k] == events[i]);
            } else {
                assert(replay(events, true)[log.len() as int] == events[i]);
            }
        }
    }
}

/// With nothing filtered, every line of both streams reaches the log, in the
/// order of arrival: as many lines as the two streams wrote together.
pub proof fn lemma_all_lines_reach_log(events: Seq<EntryView>)
    ensures
        replay(events, false) == events,
        replay(events, false).len() == lines_from(events, Stream::Stdout).len() + lines_from(
            events,
            Stream::Stderr,
        ).len(),
    decreases events.len(),
{
    if events.len() > 0 {
        lemma_all_lines_reach_log(events.drop_last());
        assert(events.drop_last().push(events.last()) =~= events);
    }
}

/// With filtering, the log holds as many lines as the two streams' kept lines.
pub proof fn lemma_log_counts_kept_lines(events: Seq<EntryView>, error_only: bool)
    ensures
        replay(events, error_only).len() == keep_lines(
            lines_from(events, Stream::Stdout),
            error_only,
        ).len() + keep_lines(lines_from(events, Stream::Stderr), error_only).len(),
    decreases events.len(),
{
    if events.len() > 0 {
        lemma_log_counts_kept_lines(events.drop_last(), error_only);
        let e = events.last();
        let prev = events.drop_last();
        if e.0 == Stream::Stdout {
            assert(lines_from(events, Stream::Stdout).drop_last() =~= lines_from(prev, Stream::Stdout));
        } else {
            assert(lines_from(events, Stream::Stderr).drop_last() =~= lines_from(prev, Stream::Stderr));
        }
    }
}

} // verus!
