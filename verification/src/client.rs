//! The two completion clients, as far as they decide: which call shape is
//! allowed, what is sent, and what the endpoint's answer amounts to. The
//! network sits with the caller, who hands in what it received.

use crate::completion::{
    completion_result_of, decode_completion, CompletionResult, CompletionResultView,
};
use crate::error::{CompletionError, CompletionErrorView, DecodeFault};
use crate::json::{from_str, json_document};
use crate::options::Options;
use crate::stream::{
    closing, fragments_text, fresh, item_views, joined, lemma_joined_push,
    lemma_reads_amount_to_body, lemma_run_body_consistent, lemma_step_bytes_appends,
    lemma_step_end_appends, run_body, run_reads, starting, Advance, ReplyAssembler,
    StreamItemView, StreamReport, StreamReportView,
};
use crate::text::{decode, decoded};
use vstd::prelude::*;
use vstd::string::StringExecFns;

verus! {

/// Whether an HTTP status lies in the success range.
pub open spec fn is_success(status: u16) -> bool {
    200 <= status < 300
}

/// Whether an HTTP status lies in the success range.
pub fn status_is_success(status: u16) -> (success: bool)
    ensures
        success == is_success(status),
{
    200 <= status && status < 300
}

/// What goes in front of the body of a completion request.
#[derive(Debug, PartialEq, Eq)]
pub struct RequestHead {
    pub url: String,
    pub authorization: String,
    pub content_type: String,
}

/// The address of the completion endpoint.
pub open spec fn endpoint() -> Seq<char> {
    "https://api.openai.com/v1/chat/completions"@
}

/// The head of a completion request made with the credential `api_key`: the
/// endpoint, a bearer authorization and the JSON content type.
pub fn request_head(api_key: &str) -> (head: RequestHead)
    ensures
        head.url@ == endpoint(),
        head.authorization@ == "Bearer "@ + api_key@,
        head.content_type@ == "application/json"@,
{
    RequestHead {
        url: "https://api.openai.com/v1/chat/completions".to_owned(),
        authorization: "Bearer ".to_owned().concat(api_key),
        content_type: "application/json".to_owned(),
    }
}

/// The single-shot client takes only requests that do not ask for a stream.
/// It is asked before anything is sent: on `Err` no request is made.
pub fn check_completion_mode(options: &Options) -> (allowed: Result<(), CompletionError>)
    ensures
        allowed is Ok <==> !options.streams(),
        allowed matches Err(error) ==> error@ == CompletionErrorView::ModeViolation,
{
    if options.is_streaming() {
        Err(CompletionError::ModeViolation)
    } else {
        Ok(())
    }
}

/// The streaming client takes only requests that ask for a stream. It is
/// asked before anything is sent: on `Err` no request is made.
pub fn check_stream_mode(options: &Options) -> (allowed: Result<(), CompletionError>)
    ensures
        allowed is Ok <==> options.streams(),
        allowed matches Err(error) ==> error@ == CompletionErrorView::ModeViolation,
{
    if options.is_streaming() {
        Ok(())
    } else {
        Err(CompletionError::ModeViolation)
    }
}

/// The failure that an answer outside the success range amounts to: it
/// carries the status and the body as it came, as text where the body is
/// UTF-8 text and as bytes where it is not.
pub open spec fn upstream_failure_of(status: u16, body: Seq<u8>) -> CompletionErrorView {
    match decoded(body) {
        Some(text) => CompletionErrorView::UpstreamHttp { status, body: text },
        None => CompletionErrorView::UpstreamHttpBinary { status, bytes: body },
    }
}

/// The failure that an answer outside the success range amounts to.
pub fn upstream_failure(status: u16, body: &[u8]) -> (error: CompletionError)
    ensures
        error@ == upstream_failure_of(status, body@),
{
    match decode(body) {
        Some(text) => CompletionError::UpstreamHttp { status, body: text.to_owned() },
        None => CompletionError::UpstreamHttpBinary { status, bytes: copy_bytes(body) },
    }
}

/// A copy of `bytes`.
fn copy_bytes(bytes: &[u8]) -> (copy: Vec<u8>)
    ensures
        copy@ == bytes@,
{
    let mut copy: Vec<u8> = Vec::new();
    let mut i: usize = 0;
    while i < bytes.len()
        invariant
            i <= bytes.len(),
            copy@ == bytes@.take(i as int),
        decreases bytes.len() - i,
    {
        copy.push(bytes[i]);
        assert(copy@ =~= bytes@.take(i + 1));
        i = i + 1;
    }
    assert(bytes@.take(bytes.len() as int) =~= bytes@);
    copy
}

/// What the body of a successful single-shot answer amounts to.
pub open spec fn completion_body_outcome(body: Seq<u8>) -> Result<
    CompletionResultView,
    CompletionErrorView,
> {
    match decoded(body) {
        None => Err(CompletionErrorView::InvalidEncoding),
        Some(text) => match json_document(text) {
            None => Err(CompletionErrorView::MalformedBody(DecodeFault::InvalidJson)),
            Some(json) => match completion_result_of(json) {
                None => Err(CompletionErrorView::MalformedBody(DecodeFault::UnexpectedShape)),
                Some(result) => Ok(result),
            },
        },
    }
}

/// What a single-shot completion call amounts to, given the request and the
/// endpoint's answer. A request that asks for a stream is refused. A status
/// outside the success range fails the call with the status and the body.
/// Otherwise the body is read as a completed reply.
pub open spec fn completion_outcome(streams: bool, status: u16, body: Seq<u8>) -> Result<
    CompletionResultView,
    CompletionErrorView,
> {
    if streams {
        Err(CompletionErrorView::ModeViolation)
    } else if !is_success(status) {
        Err(upstream_failure_of(status, body))
    } else {
        completion_body_outcome(body)
    }
}

/// The view of the result of a single-shot call.
pub open spec fn completion_view(result: Result<CompletionResult, CompletionError>) -> Result<
    CompletionResultView,
    CompletionErrorView,
> {
    match result {
        Ok(reply) => Ok(reply@),
        Err(error) => Err(error@),
    }
}

/// Reads the body of a successful single-shot answer.
pub fn read_completion(body: &[u8]) -> (result: Result<CompletionResult, CompletionError>)
    ensures
        completion_view(result) == completion_body_outcome(body@),
{
    let text = match decode(body) {
        Some(text) => text,
        None => {
            return Err(CompletionError::InvalidEncoding);
        },
    };
    let document = match from_str(text) {
        Some(document) => document,
        None => {
            return Err(CompletionError::MalformedBody(DecodeFault::InvalidJson));
        },
    };
    match decode_completion(&document) {
        Some(reply) => Ok(reply),
        None => Err(CompletionError::MalformedBody(DecodeFault::UnexpectedShape)),
    }
}

/// The single-shot completion client over a given answer of the endpoint:
/// `status` and `body` are what the endpoint returned for `options`.
pub fn complete_chat(options: &Options, status: u16, body: &[u8]) -> (result: Result<
    CompletionResult,
    CompletionError,
>)
    ensures
        completion_view(result) == completion_outcome(options.streams(), status, body@),
{
    match check_completion_mode(options) {
        Err(error) => {
            return Err(error);
        },
        Ok(_) => {},
    }
    if !status_is_success(status) {
        return Err(upstream_failure(status, body));
    }
    read_completion(body)
}

/// The views of a sequence of reads.
pub open spec fn read_views(reads: Seq<Vec<u8>>) -> Seq<Seq<u8>> {
    reads.map_values(|read: Vec<u8>| read@)
}

/// A call that fails before the body is read: the consumer is handed the
/// failure and nothing else.
pub open spec fn failed_report(error: CompletionErrorView) -> StreamReportView {
    StreamReportView { items: seq![Err(error)], result: Err(error) }
}

/// What a streamed completion call amounts to, given the request and the
/// endpoint's answer. A request that does not ask for a stream is refused. A
/// status outside the success range fails the call with the status and the
/// whole body. Otherwise the body is cut into lines and the lines are taken
/// in order. Only the bytes of the body count, not the reads in which they
/// came.
pub open spec fn stream_outcome(streams: bool, status: u16, reads: Seq<Seq<u8>>) -> StreamReportView {
    if !streams {
        failed_report(CompletionErrorView::ModeViolation)
    } else if !is_success(status) {
        failed_report(upstream_failure_of(status, joined(reads)))
    } else {
        let end = run_body(joined(reads));
        StreamReportView { items: end.items, result: closing(end.state) }
    }
}

/// The delivery contract of a streamed call. Every item but the last is a
/// content fragment. A call that succeeds hands out fragments only, and its
/// reply is their concatenation in the order of arrival: no fragment is
/// handed out twice, skipped or moved. A call that fails hands out its
/// failure as the last item.
pub open spec fn delivered_exactly_once(report: StreamReportView) -> bool {
    &&& forall|i: int| 0 <= i < report.items.len() - 1 ==> (#[trigger] report.items[i]) is Ok
    &&& match report.result {
        Ok(reply) => {
            &&& reply == fragments_text(report.items)
            &&& forall|i: int| 0 <= i < report.items.len() ==> (#[trigger] report.items[i]) is Ok
        },
        Err(error) => report.items.len() > 0 && report.items.last() == Err::<
            Seq<char>,
            CompletionErrorView,
        >(error),
    }
}

/// Whatever the request and whatever the endpoint answers, a streamed call
/// keeps the delivery contract.
pub proof fn lemma_stream_outcome_delivers_exactly_once(
    streams: bool,
    status: u16,
    reads: Seq<Seq<u8>>,
)
    ensures
        delivered_exactly_once(stream_outcome(streams, status, reads)),
{
    if streams && is_success(status) {
        lemma_run_body_consistent(joined(reads));
        let end = run_body(joined(reads));
        assert(end.state.reply =~= fragments_text(end.items));
    }
}

/// What a streamed call amounts to depends on the bytes of the body alone:
/// however the body is cut into reads, the result and the items are those of
/// the body in one read.
pub proof fn lemma_stream_outcome_depends_on_body(streams: bool, status: u16, reads: Seq<Seq<u8>>)
    ensures
        stream_outcome(streams, status, reads) == stream_outcome(
            streams,
            status,
            seq![joined(reads)],
        ),
{
    let whole = seq![joined(reads)];
    assert(whole[0] == joined(reads));
    assert(whole.drop_first() =~= Seq::<Seq<u8>>::empty());
    assert(joined(whole.drop_first()) =~= Seq::<u8>::empty());
    assert(joined(whole) =~= joined(reads) + Seq::<u8>::empty());
    assert(joined(whole) =~= joined(reads));
}

/// All the bytes of `reads`, in order.
pub fn join_reads(reads: &Vec<Vec<u8>>) -> (bytes: Vec<u8>)
    ensures
        bytes@ == joined(read_views(reads@)),
{
    let mut bytes: Vec<u8> = Vec::new();
    let mut i: usize = 0;
    assert(read_views(reads@).take(0) =~= Seq::<Seq<u8>>::empty());
    while i < reads.len()
        invariant
            i <= reads.len(),
            bytes@ == joined(read_views(reads@).take(i as int)),
        decreases reads.len() - i,
    {
        let read = &reads[i];
        let ghost before = bytes@;
        let mut j: usize = 0;
        while j < read.len()
            invariant
                j <= read.len(),
                bytes@ == before + read@.take(j as int),
            decreases read.len() - j,
        {
            bytes.push(read[j]);
            assert(read@.take(j + 1) =~= read@.take(j as int).push(read@[j as int]));
            j = j + 1;
        }
        proof {
            let views = read_views(reads@);
            assert(read@.take(read.len() as int) =~= read@);
            assert(views.take(i + 1) =~= views.take(i as int).push(read@));
            lemma_joined_push(views.take(i as int), read@);
        }
        i = i + 1;
    }
    assert(read_views(reads@).take(reads.len() as int) =~= read_views(reads@));
    bytes
}

/// A report of a call that failed before the body was read.
fn report_failure(error: CompletionError) -> (report: StreamReport)
    ensures
        report@ == failed_report(error@),
{
    let mut items: Vec<Result<String, CompletionError>> = Vec::new();
    items.push(Err(error.clone()));
    assert(item_views(items@) =~= seq![Err::<Seq<char>, CompletionErrorView>(error@)]);
    StreamReport { items, result: Err(error) }
}

/// The streaming completion client over a given answer of the endpoint:
/// `status` is what the endpoint returned for `options`, and `reads` is its
/// body in the pieces in which it arrived.
pub fn complete_chat_stream(options: &Options, status: u16, reads: &Vec<Vec<u8>>) -> (report:
    StreamReport)
    ensures
        report@ == stream_outcome(options.streams(), status, read_views(reads@)),
        report@ == stream_outcome(
            options.streams(),
            status,
            seq![joined(read_views(reads@))],
        ),
        delivered_exactly_once(report@),
{
    proof {
        lemma_stream_outcome_delivers_exactly_once(
            options.streams(),
            status,
            read_views(reads@),
        );
        lemma_stream_outcome_depends_on_body(options.streams(), status, read_views(reads@));
    }
    match check_stream_mode(options) {
        Err(error) => {
            return report_failure(error);
        },
        Ok(_) => {},
    }
    if !status_is_success(status) {
        let body = join_reads(reads);
        return report_failure(upstream_failure(status, body.as_slice()));
    }
    let ghost views = read_views(reads@);
    let mut assembler = ReplyAssembler::new();
    let mut items: Vec<Result<String, CompletionError>> = Vec::new();
    let mut i: usize = 0;
    assert(item_views(items@) =~= Seq::<StreamItemView>::empty());
    assert(views.skip(0) =~= views);
    while i < reads.len()
        invariant
            i <= reads.len(),
            views == read_views(reads@),
            run_reads(starting(fresh()), views) == run_reads(
                Advance { state: assembler@, items: item_views(items@) },
                views.skip(i as int),
            ),
        decreases reads.len() - i,
    {
        let ghost here = Advance { state: assembler@, items: item_views(items@) };
        let ghost left = views.skip(i as int);
        assert(left[0] == reads@[i as int]@);
        assert(left.drop_first() =~= views.skip(i + 1));
        let mut fresh_items = assembler.feed(reads[i].as_slice());
        proof {
            lemma_step_bytes_appends(here, reads@[i as int]@);
            assert(item_views(items@ + fresh_items@) =~= item_views(items@) + item_views(
                fresh_items@,
            ));
        }
        items.append(&mut fresh_items);
        i = i + 1;
    }
    assert(views.skip(reads.len() as int) =~= Seq::<Seq<u8>>::empty());
    let ghost last = Advance { state: assembler@, items: item_views(items@) };
    let end = assembler.finish();
    let StreamReport { items: mut last_items, result } = end;
    proof {
        lemma_step_end_appends(last);
        lemma_reads_amount_to_body(views);
        assert(item_views(items@ + last_items@) =~= item_views(items@) + item_views(last_items@));
    }
    items.append(&mut last_items);
    StreamReport { items, result }
}

} // verus!
