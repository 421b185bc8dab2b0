//! The streaming completion engine: it takes the body of a streamed reply as
//! it arrives, forwards every content fragment once and in order, and puts the
//! whole reply together. The body is a sequence of lines; where the network
//! cut it into reads does not matter, because a line that a read leaves
//! unfinished is kept until its line feed, or the end of the body, arrives.

use crate::chunk::{line_outcome, process_chunk, LineOutcome, LineOutcomeView};
use crate::error::{CompletionError, CompletionErrorView};
use crate::text::{
    decode, decoded, first_line_len, lemma_first_line_len_concat, split_lines, LINE_FEED,
};
use vstd::prelude::*;
use vstd::string::StringExecFns;

verus! {

/// How far a streamed reply has come.
#[derive(Debug, PartialEq, Eq)]
pub enum StreamPhase {
    /// Lines are still taken.
    Streaming,
    /// The termination sentinel was seen.
    Finished,
    /// The call has failed.
    Failed(CompletionError),
}

/// How far a streamed reply has come, with the failure as a mathematical
/// value.
pub enum StreamPhaseView {
    Streaming,
    Finished,
    Failed(CompletionErrorView),
}

impl View for StreamPhase {
    type V = StreamPhaseView;

    open spec fn view(&self) -> StreamPhaseView {
        match *self {
            StreamPhase::Streaming => StreamPhaseView::Streaming,
            StreamPhase::Finished => StreamPhaseView::Finished,
            StreamPhase::Failed(error) => StreamPhaseView::Failed(error@),
        }
    }
}

/// What the consumer of a streamed reply is handed: a content fragment, or
/// the failure that ended the call.
pub type StreamItemView = Result<Seq<char>, CompletionErrorView>;

/// The view of one item.
pub open spec fn item_view(item: Result<String, CompletionError>) -> StreamItemView {
    match item {
        Ok(fragment) => Ok(fragment@),
        Err(error) => Err(error@),
    }
}

/// The views of a sequence of items, in the same order.
pub open spec fn item_views(items: Seq<Result<String, CompletionError>>) -> Seq<StreamItemView> {
    items.map_values(|item: Result<String, CompletionError>| item_view(item))
}

/// The reply put together so far, and how far the stream has come.
pub struct LineState {
    pub reply: Seq<char>,
    pub phase: StreamPhaseView,
}

/// A state of the line-by-line course of a stream together with the items
/// handed out on the way to it.
pub struct Progress {
    pub state: LineState,
    pub items: Seq<StreamItemView>,
}

/// The state of the engine: the reply put together so far, the bytes of the
/// line that has not ended yet, and how far the stream has come.
pub struct AssemblerView {
    pub reply: Seq<char>,
    pub pending: Seq<u8>,
    pub phase: StreamPhaseView,
}

/// A state of the engine together with the items handed out on the way to
/// it.
pub struct Advance {
    pub state: AssemblerView,
    pub items: Seq<StreamItemView>,
}

/// What a streamed call leaves behind: the items handed to the consumer, in
/// order, and the result of the call.
#[derive(Debug, PartialEq, Eq)]
pub struct StreamReport {
    pub items: Vec<Result<String, CompletionError>>,
    pub result: Result<String, CompletionError>,
}

/// A report with its items and its result as mathematical values.
pub struct StreamReportView {
    pub items: Seq<StreamItemView>,
    pub result: Result<Seq<char>, CompletionErrorView>,
}

impl View for StreamReport {
    type V = StreamReportView;

    open spec fn view(&self) -> StreamReportView {
        StreamReportView {
            items: item_views(self.items@),
            result: match self.result {
                Ok(reply) => Ok(reply@),
                Err(error) => Err(error@),
            },
        }
    }
}

/// The state before anything has arrived.
pub open spec fn fresh() -> AssemblerView {
    AssemblerView { reply: Seq::empty(), pending: Seq::empty(), phase: StreamPhaseView::Streaming }
}

/// `state` with nothing handed out yet.
pub open spec fn starting(state: AssemblerView) -> Advance {
    Advance { state, items: Seq::empty() }
}

/// The course of a stream before its first line.
pub open spec fn outset() -> Progress {
    Progress {
        state: LineState { reply: Seq::empty(), phase: StreamPhaseView::Streaming },
        items: Seq::empty(),
    }
}

/// The line-by-line course that a state of the engine has come to.
pub open spec fn course(a: Advance) -> Progress {
    Progress { state: LineState { reply: a.state.reply, phase: a.state.phase }, items: a.items }
}

/// The state of the engine at the course `p` with `pending` as the bytes of
/// the unfinished line.
pub open spec fn at(p: Progress, pending: Seq<u8>) -> Advance {
    Advance {
        state: AssemblerView { reply: p.state.reply, pending, phase: p.state.phase },
        items: p.items,
    }
}

/// The effect of a failure: while lines are still taken, the call fails and
/// the consumer is handed the failure; after the end it has no effect.
pub open spec fn step_failure(p: Progress, error: CompletionErrorView) -> Progress {
    if p.state.phase is Streaming {
        Progress {
            state: LineState { reply: p.state.reply, phase: StreamPhaseView::Failed(error) },
            items: p.items.push(Err(error)),
        }
    } else {
        p
    }
}

/// The effect of one line. Blank lines are ignored, and so is every line
/// after the end of the stream. The sentinel ends the stream. A fragment is
/// handed to the consumer and appended to the reply. A rejected line fails the
/// call.
pub open spec fn step_line(p: Progress, line: Seq<char>) -> Progress {
    if !(p.state.phase is Streaming) || line.len() == 0 {
        p
    } else {
        match line_outcome(line) {
            LineOutcomeView::Done => Progress {
                state: LineState { reply: p.state.reply, phase: StreamPhaseView::Finished },
                items: p.items,
            },
            LineOutcomeView::Silent => p,
            LineOutcomeView::Fragment(content) => Progress {
                state: LineState {
                    reply: p.state.reply + content,
                    phase: StreamPhaseView::Streaming,
                },
                items: p.items.push(Ok(content)),
            },
            LineOutcomeView::Rejected(fault) => step_failure(
                p,
                CompletionErrorView::MalformedChunk(fault),
            ),
        }
    }
}

/// The effect of the bytes of one line: they are decoded and taken as a
/// line. Bytes that are not UTF-8 fail the call.
pub open spec fn step_byte_line(p: Progress, line: Seq<u8>) -> Progress {
    if !(p.state.phase is Streaming) {
        p
    } else {
        match decoded(line) {
            Some(text) => step_line(p, text),
            None => step_failure(p, CompletionErrorView::InvalidEncoding),
        }
    }
}

/// The effect of a run of lines, taken in order.
pub open spec fn run_lines(p: Progress, lines: Seq<Seq<u8>>) -> Progress
    decreases lines.len(),
{
    if lines.len() == 0 {
        p
    } else {
        run_lines(step_byte_line(p, lines[0]), lines.drop_first())
    }
}

/// The course of a stream whose whole body is `body`: the body is cut into
/// lines at its line feeds, and the lines are taken in order. What follows
/// the last line feed is the last line.
pub open spec fn run_body(body: Seq<u8>) -> Progress {
    run_lines(outset(), split_lines(body))
}

/// The effect of one read of the body, wherever the body was cut. The bytes
/// up to the first line feed end the unfinished line, which is then taken;
/// so is every further line that the read ends. What follows the last line
/// feed is kept as the unfinished line.
pub open spec fn step_bytes(a: Advance, bytes: Seq<u8>) -> Advance
    decreases bytes.len(),
{
    if !(a.state.phase is Streaming) {
        a
    } else {
        let n = first_line_len(bytes);
        if n >= bytes.len() {
            at(course(a), a.state.pending + bytes)
        } else {
            step_bytes(
                at(
                    step_byte_line(course(a), a.state.pending + bytes.take(n as int)),
                    Seq::empty(),
                ),
                bytes.skip(n as int + 1),
            )
        }
    }
}

/// The effect of a run of reads, taken in order.
pub open spec fn run_reads(a: Advance, reads: Seq<Seq<u8>>) -> Advance
    decreases reads.len(),
{
    if reads.len() == 0 {
        a
    } else {
        run_reads(step_bytes(a, reads[0]), reads.drop_first())
    }
}

/// The effect of the end of the body: the unfinished line is the last line.
pub open spec fn step_end(a: Advance) -> Advance {
    if a.state.phase is Streaming {
        at(step_byte_line(course(a), a.state.pending), Seq::empty())
    } else {
        a
    }
}

/// The effect of a failure outside the body on the engine.
pub open spec fn step_abort(a: Advance, error: CompletionErrorView) -> Advance {
    at(step_failure(course(a), error), a.state.pending)
}

/// All the bytes of `reads`, in order.
pub open spec fn joined(reads: Seq<Seq<u8>>) -> Seq<u8>
    decreases reads.len(),
{
    if reads.len() == 0 {
        Seq::empty()
    } else {
        reads[0] + joined(reads.drop_first())
    }
}

/// How a call that ends in `state` ends: with the failure, where it failed,
/// and with the whole reply otherwise. What a failed call had put together is
/// not part of its result.
pub open spec fn closing(state: LineState) -> Result<Seq<char>, CompletionErrorView> {
    match state.phase {
        StreamPhaseView::Failed(error) => Err(error),
        _ => Ok(state.reply),
    }
}

/// What is left to hand out at the end of the body, and the result of the
/// call.
pub open spec fn conclusion(state: AssemblerView) -> StreamReportView {
    let end = step_end(starting(state));
    StreamReportView { items: end.items, result: closing(course(end).state) }
}

/// The fragments among `items`, joined in order.
pub open spec fn fragments_text(items: Seq<StreamItemView>) -> Seq<char>
    decreases items.len(),
{
    if items.len() == 0 {
        Seq::empty()
    } else {
        match items.last() {
            Ok(fragment) => fragments_text(items.drop_last()) + fragment,
            Err(_) => fragments_text(items.drop_last()),
        }
    }
}

/// No failure stands among `items`, except in the last place where the state
/// is a failed one, and then it is that state's failure.
pub open spec fn failure_is_final(p: Progress) -> bool {
    &&& forall|i: int| 0 <= i < p.items.len() - 1 ==> (#[trigger] p.items[i]) is Ok
    &&& match p.state.phase {
        StreamPhaseView::Failed(error) => p.items.len() > 0 && p.items.last() == Err::<
            Seq<char>,
            CompletionErrorView,
        >(error),
        _ => forall|i: int| 0 <= i < p.items.len() ==> (#[trigger] p.items[i]) is Ok,
    }
}

/// The reply is what the forwarded fragments add to `base`, and a failure is
/// the last item.
pub open spec fn consistent(p: Progress, base: Seq<char>) -> bool {
    &&& p.state.reply == base + fragments_text(p.items)
    &&& failure_is_final(p)
}

/// Once the stream has ended, lines have no effect.
pub proof fn lemma_run_lines_after_end(p: Progress, lines: Seq<Seq<u8>>)
    requires
        !(p.state.phase is Streaming),
    ensures
        run_lines(p, lines) == p,
    decreases lines.len(),
{
    if lines.len() > 0 {
        lemma_run_lines_after_end(p, lines.drop_first());
    }
}

/// Once the stream has ended, reads have no effect.
pub proof fn lemma_run_reads_after_end(a: Advance, reads: Seq<Seq<u8>>)
    requires
        !(a.state.phase is Streaming),
    ensures
        run_reads(a, reads) == a,
    decreases reads.len(),
{
    if reads.len() > 0 {
        lemma_run_reads_after_end(a, reads.drop_first());
    }
}

/// A failure keeps the reply equal to the forwarded fragments, joined in
/// order, and stands in the last place.
pub proof fn lemma_step_failure_consistent(
    p: Progress,
    base: Seq<char>,
    error: CompletionErrorView,
)
    requires
        consistent(p, base),
    ensures
        consistent(step_failure(p, error), base),
{
    let q = step_failure(p, error);
    if q != p {
        assert(q.items.drop_last() =~= p.items);
        assert(forall|i: int| 0 <= i < p.items.len() ==> q.items[i] == p.items[i]);
    }
}

/// One line keeps the reply equal to the forwarded fragments, joined in
/// order, and keeps a failure in the last place.
pub proof fn lemma_step_line_consistent(p: Progress, base: Seq<char>, line: Seq<char>)
    requires
        consistent(p, base),
    ensures
        consistent(step_line(p, line), base),
{
    let q = step_line(p, line);
    if p.state.phase is Streaming && line.len() > 0 {
        match line_outcome(line) {
            LineOutcomeView::Fragment(content) => {
                assert(q.items.drop_last() =~= p.items);
                assert(forall|i: int| 0 <= i < p.items.len() ==> q.items[i] == p.items[i]);
                assert(base + (fragments_text(p.items) + content) =~= (base + fragments_text(
                    p.items,
                )) + content);
            },
            LineOutcomeView::Rejected(fault) => {
                lemma_step_failure_consistent(p, base, CompletionErrorView::MalformedChunk(fault));
            },
            _ => {},
        }
    }
}

/// The bytes of one line keep the reply equal to the forwarded fragments,
/// joined in order, and keep a failure in the last place.
pub proof fn lemma_step_byte_line_consistent(p: Progress, base: Seq<char>, line: Seq<u8>)
    requires
        consistent(p, base),
    ensures
        consistent(step_byte_line(p, line), base),
{
    if p.state.phase is Streaming {
        match decoded(line) {
            Some(text) => {
                lemma_step_line_consistent(p, base, text);
            },
            None => {
                lemma_step_failure_consistent(p, base, CompletionErrorView::InvalidEncoding);
            },
        }
    }
}

/// The exactly-once law for lines: after any run of lines, the reply is the
/// concatenation, in arrival order, of the fragments handed to the consumer,
/// and a failure, if there is one, is the last item handed out.
pub proof fn lemma_run_lines_consistent(p: Progress, base: Seq<char>, lines: Seq<Seq<u8>>)
    requires
        consistent(p, base),
    ensures
        consistent(run_lines(p, lines), base),
    decreases lines.len(),
{
    if lines.len() > 0 {
        lemma_step_byte_line_consistent(p, base, lines[0]);
        lemma_run_lines_consistent(step_byte_line(p, lines[0]), base, lines.drop_first());
    }
}

/// The exactly-once law for a whole body: the reply is the concatenation, in
/// arrival order, of the fragments handed to the consumer, and a failure, if
/// there is one, is the last item handed out.
pub proof fn lemma_run_body_consistent(body: Seq<u8>)
    ensures
        consistent(run_body(body), Seq::empty()),
{
    assert(outset().state.reply =~= Seq::<char>::empty() + fragments_text(outset().items));
    lemma_run_lines_consistent(outset(), Seq::empty(), split_lines(body));
}

/// The exactly-once law for the engine: one read keeps the reply equal to
/// the forwarded fragments, joined in order, and keeps a failure in the last
/// place.
pub proof fn lemma_step_bytes_consistent(a: Advance, base: Seq<char>, bytes: Seq<u8>)
    requires
        consistent(course(a), base),
    ensures
        consistent(course(step_bytes(a, bytes)), base),
    decreases bytes.len(),
{
    if a.state.phase is Streaming {
        let n = first_line_len(bytes);
        if n < bytes.len() {
            let line = a.state.pending + bytes.take(n as int);
            lemma_step_byte_line_consistent(course(a), base, line);
            lemma_step_bytes_consistent(
                at(step_byte_line(course(a), line), Seq::empty()),
                base,
                bytes.skip(n as int + 1),
            );
        }
    }
}

/// What one read adds to the reply is the fragments that it hands out,
/// joined in order, whatever the state it comes upon.
pub proof fn lemma_step_bytes_adds_fragments(a: Advance, base: Seq<char>, bytes: Seq<u8>)
    requires
        a.state.reply == base + fragments_text(a.items),
    ensures
        step_bytes(a, bytes).state.reply == base + fragments_text(step_bytes(a, bytes).items),
    decreases bytes.len(),
{
    if a.state.phase is Streaming {
        let n = first_line_len(bytes);
        if n < bytes.len() {
            let line = a.state.pending + bytes.take(n as int);
            lemma_step_byte_line_adds_fragments(course(a), base, line);
            lemma_step_bytes_adds_fragments(
                at(step_byte_line(course(a), line), Seq::empty()),
                base,
                bytes.skip(n as int + 1),
            );
        }
    }
}

/// What the bytes of one line add to the reply is the fragment that they
/// hand out, whatever the state they come upon.
pub proof fn lemma_step_byte_line_adds_fragments(p: Progress, base: Seq<char>, line: Seq<u8>)
    requires
        p.state.reply == base + fragments_text(p.items),
    ensures
        step_byte_line(p, line).state.reply == base + fragments_text(
            step_byte_line(p, line).items,
        ),
{
    let q = step_byte_line(p, line);
    if p.state.phase is Streaming {
        match decoded(line) {
            Some(text) => {
                if text.len() > 0 {
                    match line_outcome(text) {
                        LineOutcomeView::Fragment(content) => {
                            assert(q.items.drop_last() =~= p.items);
                            assert(base + (fragments_text(p.items) + content) =~= (base
                                + fragments_text(p.items)) + content);
                        },
                        LineOutcomeView::Rejected(_) => {
                            assert(q.items.drop_last() =~= p.items);
                        },
                        _ => {},
                    }
                }
            },
            None => {
                assert(q.items.drop_last() =~= p.items);
            },
        }
    }
}

/// Two reads, one after the other, amount to one read of their bytes
/// together: where the body is cut does not matter.
pub proof fn lemma_step_bytes_compose(a: Advance, first: Seq<u8>, second: Seq<u8>)
    ensures
        step_bytes(step_bytes(a, first), second) == step_bytes(a, first + second),
    decreases first.len(),
{
    if a.state.phase is Streaming {
        let whole = first + second;
        let n = first_line_len(first);
        lemma_first_line_len_concat(first, second);
        if n >= first.len() {
            let b = at(course(a), a.state.pending + first);
            let m = first_line_len(second);
            lemma_first_line_len_concat(second, Seq::empty());
            if m >= second.len() {
                assert((a.state.pending + first) + second =~= a.state.pending + whole);
            } else {
                assert((a.state.pending + first) + second.take(m as int) =~= a.state.pending
                    + whole.take(first.len() as int + m));
                assert(whole.skip(first.len() as int + m + 1) =~= second.skip(m as int + 1));
                assert(course(b) == course(a));
            }
        } else {
            assert(whole.take(n as int) =~= first.take(n as int));
            assert(whole.skip(n as int + 1) =~= first.skip(n as int + 1) + second);
            lemma_step_bytes_compose(
                at(
                    step_byte_line(course(a), a.state.pending + first.take(n as int)),
                    Seq::empty(),
                ),
                first.skip(n as int + 1),
                second,
            );
        }
    }
}

/// A run of reads amounts to one read of all their bytes: the engine comes
/// to the same state and hands out the same items however the body was cut
/// into reads.
pub proof fn lemma_run_reads_is_one_read(a: Advance, reads: Seq<Seq<u8>>)
    ensures
        run_reads(a, reads) == step_bytes(a, joined(reads)),
    decreases reads.len(),
{
    if reads.len() == 0 {
        if a.state.phase is Streaming {
            assert(a.state.pending + Seq::<u8>::empty() =~= a.state.pending);
        }
    } else {
        lemma_run_reads_is_one_read(step_bytes(a, reads[0]), reads.drop_first());
        lemma_step_bytes_compose(a, reads[0], joined(reads.drop_first()));
    }
}

/// The lines that a read brings to an engine with `pending` as its
/// unfinished line: the first of them continues that line.
pub open spec fn continued_lines(pending: Seq<u8>, bytes: Seq<u8>) -> Seq<Seq<u8>> {
    seq![pending + split_lines(bytes)[0]] + split_lines(bytes).drop_first()
}

/// What a read and the end of the body after it amount to is the lines of
/// the read, the first of them after the unfinished line, taken in order.
pub proof fn lemma_read_to_the_end(a: Advance, bytes: Seq<u8>)
    ensures
        course(step_end(step_bytes(a, bytes))) == run_lines(
            course(a),
            continued_lines(a.state.pending, bytes),
        ),
    decreases bytes.len(),
{
    let lines = continued_lines(a.state.pending, bytes);
    if !(a.state.phase is Streaming) {
        lemma_run_lines_after_end(course(a), lines);
    } else {
        let n = first_line_len(bytes);
        lemma_first_line_len_concat(bytes, Seq::empty());
        if n >= bytes.len() {
            assert(bytes.take(bytes.len() as int) =~= bytes);
            assert(lines =~= seq![a.state.pending + bytes]);
            assert(lines.drop_first() =~= Seq::<Seq<u8>>::empty());
            let last = step_byte_line(course(a), a.state.pending + bytes);
            assert(run_lines(last, lines.drop_first()) == last);
        } else {
            let line = a.state.pending + bytes.take(n as int);
            let next = at(step_byte_line(course(a), line), Seq::empty());
            let rest = bytes.skip(n as int + 1);
            lemma_read_to_the_end(next, rest);
            assert(split_lines(bytes) =~= seq![bytes.take(n as int)] + split_lines(rest));
            assert(lines[0] == line);
            assert(Seq::<u8>::empty() + split_lines(rest)[0] =~= split_lines(rest)[0]);
            assert(lines.drop_first() =~= continued_lines(Seq::empty(), rest));
        }
    }
}

/// The incremental engine and the body agree: reads taken one by one from
/// the fresh state, and then the end of the body, amount to the lines of the
/// joined body, taken in order.
pub proof fn lemma_reads_amount_to_body(reads: Seq<Seq<u8>>)
    ensures
        course(step_end(run_reads(starting(fresh()), reads))) == run_body(joined(reads)),
{
    let start = starting(fresh());
    let body = joined(reads);
    lemma_run_reads_is_one_read(start, reads);
    lemma_read_to_the_end(start, body);
    assert(Seq::<u8>::empty() + split_lines(body)[0] =~= split_lines(body)[0]);
    assert(continued_lines(Seq::empty(), body) =~= split_lines(body));
    assert(course(start) == outset());
}

/// All the bytes of a run of reads and one more are the bytes of the run and
/// then those of the one.
pub proof fn lemma_joined_push(reads: Seq<Seq<u8>>, last: Seq<u8>)
    ensures
        joined(reads.push(last)) == joined(reads) + last,
    decreases reads.len(),
{
    let all = reads.push(last);
    if reads.len() == 0 {
        assert(all[0] == last);
        assert(all.drop_first() =~= Seq::<Seq<u8>>::empty());
        assert(joined(all.drop_first()) =~= Seq::<u8>::empty());
        assert(joined(reads) =~= Seq::<u8>::empty());
        assert(joined(all) =~= last + Seq::<u8>::empty());
        assert(joined(all) =~= joined(reads) + last);
    } else {
        assert(all[0] == reads[0]);
        assert(all.drop_first() =~= reads.drop_first().push(last));
        lemma_joined_push(reads.drop_first(), last);
        assert(joined(all) =~= reads[0] + (joined(reads.drop_first()) + last));
        assert(joined(all) =~= joined(reads) + last);
    }
}

/// `p` with nothing handed out yet.
pub open spec fn bare(p: Progress) -> Progress {
    Progress { state: p.state, items: Seq::empty() }
}

/// What the bytes of a line add does not depend on what was handed out
/// before them.
pub proof fn lemma_step_byte_line_appends(p: Progress, line: Seq<u8>)
    ensures
        step_byte_line(p, line) == (Progress {
            state: step_byte_line(bare(p), line).state,
            items: p.items + step_byte_line(bare(p), line).items,
        }),
{
    let q = step_byte_line(p, line);
    let r = step_byte_line(bare(p), line);
    assert(q.items =~= p.items + r.items);
}

/// What a read adds does not depend on what was handed out before it.
pub proof fn lemma_step_bytes_appends(a: Advance, bytes: Seq<u8>)
    ensures
        step_bytes(a, bytes) == (Advance {
            state: step_bytes(starting(a.state), bytes).state,
            items: a.items + step_bytes(starting(a.state), bytes).items,
        }),
    decreases bytes.len(),
{
    let s = starting(a.state);
    if a.state.phase is Streaming {
        let n = first_line_len(bytes);
        if n >= bytes.len() {
            assert(a.items + s.items =~= a.items);
        } else {
            let line = a.state.pending + bytes.take(n as int);
            let rest = bytes.skip(n as int + 1);
            let a1 = at(step_byte_line(course(a), line), Seq::empty());
            let s1 = at(step_byte_line(course(s), line), Seq::empty());
            lemma_step_byte_line_appends(course(a), line);
            assert(bare(course(a)) == course(s));
            assert(a1.state == s1.state);
            lemma_step_bytes_appends(a1, rest);
            lemma_step_bytes_appends(s1, rest);
            let x = step_bytes(starting(a1.state), rest);
            assert(s1.items =~= Seq::<StreamItemView>::empty() + s1.items);
            assert((a.items + s1.items) + x.items =~= a.items + (s1.items + x.items));
        }
    } else {
        assert(a.items + s.items =~= a.items);
    }
}

/// What the end of the body adds does not depend on what was handed out
/// before it.
pub proof fn lemma_step_end_appends(a: Advance)
    ensures
        step_end(a) == (Advance {
            state: step_end(starting(a.state)).state,
            items: a.items + step_end(starting(a.state)).items,
        }),
{
    let s = starting(a.state);
    if a.state.phase is Streaming {
        lemma_step_byte_line_appends(course(a), a.state.pending);
        assert(bare(course(a)) == course(s));
    } else {
        assert(a.items + s.items =~= a.items);
    }
}

/// A line that announces a role or marks the end of the turn hands nothing to
/// the consumer and adds nothing to the reply.
pub proof fn lemma_silent_line_changes_nothing(p: Progress, line: Seq<char>)
    requires
        line_outcome(line) is Silent,
    ensures
        step_line(p, line) == p,
{
}

/// A stream whose first line is rejected fails as a whole: the consumer is
/// handed the failure and nothing else, and the reply is empty.
pub proof fn lemma_rejected_first_line(lines: Seq<Seq<u8>>)
    requires
        lines.len() > 0,
        decoded(lines[0]) is Some,
        decoded(lines[0])->Some_0.len() > 0,
        line_outcome(decoded(lines[0])->Some_0) is Rejected,
    ensures
        run_lines(outset(), lines).items == seq![
            Err::<Seq<char>, CompletionErrorView>(
                CompletionErrorView::MalformedChunk(
                    line_outcome(decoded(lines[0])->Some_0)->Rejected_0,
                ),
            ),
        ],
        closing(run_lines(outset(), lines).state) == Err::<Seq<char>, CompletionErrorView>(
            CompletionErrorView::MalformedChunk(
                line_outcome(decoded(lines[0])->Some_0)->Rejected_0,
            ),
        ),
{
    let first = step_byte_line(outset(), lines[0]);
    lemma_run_lines_after_end(first, lines.drop_first());
    assert(first.items =~= seq![
        Err::<Seq<char>, CompletionErrorView>(
            CompletionErrorView::MalformedChunk(
                line_outcome(decoded(lines[0])->Some_0)->Rejected_0,
            ),
        ),
    ]);
}

/// Puts a streamed reply together from the body as it arrives. A line that a
/// read leaves unfinished is kept until a later read, or the end of the
/// body, finishes it.
pub struct ReplyAssembler {
    reply: String,
    pending: Vec<u8>,
    phase: StreamPhase,
}

impl View for ReplyAssembler {
    type V = AssemblerView;

    closed spec fn view(&self) -> AssemblerView {
        AssemblerView { reply: self.reply@, pending: self.pending@, phase: self.phase@ }
    }
}

impl ReplyAssembler {
    /// An engine that has taken nothing yet.
    pub fn new() -> (assembler: Self)
        ensures
            assembler@ == fresh(),
    {
        ReplyAssembler { reply: String::new(), pending: Vec::new(), phase: StreamPhase::Streaming }
    }

    /// Whether lines are still taken.
    pub fn is_streaming(&self) -> (streaming: bool)
        ensures
            streaming == (self@.phase is Streaming),
    {
        match self.phase {
            StreamPhase::Streaming => true,
            _ => false,
        }
    }

    /// Takes one line and appends to `items` what the consumer is to be
    /// handed for it.
    fn take_line(&mut self, line: &str, items: &mut Vec<Result<String, CompletionError>>)
        ensures
            course(Advance { state: final(self)@, items: item_views(final(items)@) }) == step_line(
                course(Advance { state: old(self)@, items: item_views(old(items)@) }),
                line@,
            ),
            final(self)@.pending == old(self)@.pending,
    {
        if !self.is_streaming() || line.is_empty() {
            return ;
        }
        let ghost before = item_views(items@);
        match process_chunk(line) {
            LineOutcome::Done => {
                self.phase = StreamPhase::Finished;
            },
            LineOutcome::Silent => {},
            LineOutcome::Fragment(content) => {
                self.reply.append(content.as_str());
                items.push(Ok(content));
                assert(item_views(items@) =~= before.push(Ok(content@)));
            },
            LineOutcome::Rejected(fault) => {
                self.phase = StreamPhase::Failed(CompletionError::MalformedChunk(fault));
                items.push(Err(CompletionError::MalformedChunk(fault)));
                assert(item_views(items@) =~= before.push(
                    Err(CompletionErrorView::MalformedChunk(fault)),
                ));
            },
        }
    }

    /// Fails the call with `error`, unless the stream has ended already, and
    /// appends to `items` the failure that the consumer is to be handed.
    fn take_failure(
        &mut self,
        error: CompletionError,
        items: &mut Vec<Result<String, CompletionError>>,
    )
        ensures
            course(Advance { state: final(self)@, items: item_views(final(items)@) })
                == step_failure(
                course(Advance { state: old(self)@, items: item_views(old(items)@) }),
                error@,
            ),
            final(self)@.pending == old(self)@.pending,
    {
        if !self.is_streaming() {
            return ;
        }
        let ghost before = item_views(items@);
        let copy = error.clone();
        self.phase = StreamPhase::Failed(error);
        items.push(Err(copy));
        assert(item_views(items@) =~= before.push(Err(error@)));
    }

    /// Takes the unfinished line as a line that has ended, and appends to
    /// `items` what the consumer is to be handed for it.
    fn take_pending(&mut self, items: &mut Vec<Result<String, CompletionError>>)
        ensures
            (Advance { state: final(self)@, items: item_views(final(items)@) }) == at(
                step_byte_line(
                    course(Advance { state: old(self)@, items: item_views(old(items)@) }),
                    old(self)@.pending,
                ),
                Seq::empty(),
            ),
    {
        let mut line: Vec<u8> = Vec::new();
        core::mem::swap(&mut self.pending, &mut line);
        if !self.is_streaming() {
            return ;
        }
        match decode(line.as_slice()) {
            Some(text) => {
                self.take_line(text, items);
            },
            None => {
                self.take_failure(CompletionError::InvalidEncoding, items);
            },
        }
    }

    /// Takes one read of the body, in the order of arrival, and returns what
    /// the consumer is to be handed for it, in order: the content fragments of
    /// the lines that the read ends and, where the call fails on one of them,
    /// the failure as the last item. The line that the read leaves unfinished
    /// is kept. After the sentinel or a failure nothing is taken any more.
    pub fn feed(&mut self, bytes: &[u8]) -> (items: Vec<Result<String, CompletionError>>)
        ensures
            (Advance { state: final(self)@, items: item_views(items@) }) == step_bytes(
                starting(old(self)@),
                bytes@,
            ),
            final(self)@.reply == old(self)@.reply + fragments_text(item_views(items@)),
    {
        let mut items: Vec<Result<String, CompletionError>> = Vec::new();
        let ghost start = starting(self@);
        assert(item_views(items@) =~= Seq::<StreamItemView>::empty());
        proof {
            assert(start.state.reply =~= start.state.reply + fragments_text(start.items));
            lemma_step_bytes_adds_fragments(start, start.state.reply, bytes@);
        }
        let mut i: usize = 0;
        assert(bytes@.skip(0) =~= bytes@);
        while i < bytes.len()
            invariant_except_break
                i <= bytes.len(),
                step_bytes(start, bytes@) == step_bytes(
                    Advance { state: self@, items: item_views(items@) },
                    bytes@.skip(i as int),
                ),
            ensures
                (Advance { state: self@, items: item_views(items@) }) == step_bytes(
                    start,
                    bytes@,
                ),
            decreases bytes.len() - i,
        {
            if !self.is_streaming() {
                break ;
            }
            let ghost here = Advance { state: self@, items: item_views(items@) };
            let ghost left = bytes@.skip(i as int);
            let byte = bytes[i];
            proof {
                assert(left[0] == byte);
                assert(left.drop_first() =~= bytes@.skip(i + 1));
                lemma_first_line_len_concat(left.drop_first(), Seq::empty());
            }
            if byte == LINE_FEED {
                proof {
                    assert(first_line_len(left) == 0);
                    assert(here.state.pending + left.take(0) =~= here.state.pending);
                    assert(left.skip(1) =~= bytes@.skip(i + 1));
                }
                self.take_pending(&mut items);
            } else {
                proof {
                    lemma_step_bytes_push(here, byte, left.drop_first());
                    assert(seq![byte] + left.drop_first() =~= left);
                }
                self.pending.push(byte);
            }
            i = i + 1;
        }
        proof {
            if self@.phase is Streaming {
                assert(bytes@.skip(bytes.len() as int) =~= Seq::<u8>::empty());
                assert(self@.pending + Seq::<u8>::empty() =~= self@.pending);
            }
        }
        items
    }

    /// Fails the call for a reason that lies outside the body, such as a
    /// failed read, and returns the failure for the consumer; after the
    /// sentinel or an earlier failure it does nothing and returns nothing.
    pub fn fail(&mut self, error: CompletionError) -> (items: Vec<Result<String, CompletionError>>)
        ensures
            (Advance { state: final(self)@, items: item_views(items@) }) == step_abort(
                starting(old(self)@),
                error@,
            ),
    {
        let mut items: Vec<Result<String, CompletionError>> = Vec::new();
        assert(item_views(items@) =~= Seq::<StreamItemView>::empty());
        self.take_failure(error, &mut items);
        items
    }

    /// Ends the call at the end of the body. The line that the last read
    /// left unfinished is taken as the last line; what the consumer is still
    /// to be handed for it comes with the result, which is the whole reply or
    /// the failure.
    pub fn finish(self) -> (report: StreamReport)
        ensures
            report@ == conclusion(self@),
    {
        let mut assembler = self;
        let mut items: Vec<Result<String, CompletionError>> = Vec::new();
        assert(item_views(items@) =~= Seq::<StreamItemView>::empty());
        if assembler.is_streaming() {
            assembler.take_pending(&mut items);
        }
        let result = match assembler.phase {
            StreamPhase::Failed(error) => Err(error),
            _ => Ok(assembler.reply),
        };
        StreamReport { items, result }
    }
}

/// A byte that is no line feed joins the unfinished line.
pub proof fn lemma_step_bytes_push(a: Advance, byte: u8, rest: Seq<u8>)
    requires
        a.state.phase is Streaming,
        byte != LINE_FEED,
    ensures
        step_bytes(a, seq![byte] + rest) == step_bytes(
            at(course(a), a.state.pending.push(byte)),
            rest,
        ),
{
    let bytes = seq![byte] + rest;
    let b = at(course(a), a.state.pending.push(byte));
    assert(bytes[0] == byte);
    assert(bytes.drop_first() =~= rest);
    let m = first_line_len(rest);
    lemma_first_line_len_concat(rest, Seq::empty());
    if m >= rest.len() {
        assert(a.state.pending + bytes =~= a.state.pending.push(byte) + rest);
    } else {
        assert(a.state.pending + bytes.take(m as int + 1) =~= a.state.pending.push(byte) + rest.take(
            m as int,
        ));
        assert(bytes.skip(m as int + 2) =~= rest.skip(m as int + 1));
        assert(course(b) == course(a));
    }
}

} // verus!
