//! The session: the one shared record of a conversation, and what each kind
//! of request does to it before and after the completion call. A request
//! holds the session exclusively from the first step to the last, so the
//! steps of two requests never interleave.

use crate::client::completion_view;
use crate::completion::{CompletionResult, CompletionResultView};
use crate::error::{CompletionError, CompletionErrorView, TurnError, TurnErrorView};
use crate::function_call::{
    extract_call, extraction_of, text_views, ExtractedCall, ExtractedCallView, ExtractionError,
    ExtractionView,
};
use crate::memory::{after_appends, lemma_appends_keep_newest, retain_last, FiniteQueueMemory};
use crate::message::{
    message_views, plain_message, request_messages, system_message, FunctionCall,
    FunctionCallView, Message, MessageView, Role,
};
use crate::options::{Function, FunctionCallingSpecification, Model, Options};
use crate::retrieval::{
    datetime_pattern, model_party, payload_of, payload_views, record_failure, timestamp_text,
    DataBase, MetaData, PointPlan, RecordError,
};
use crate::text::text_view;
use vstd::prelude::*;

verus! {

/// The shared state of a conversation: the model, the system prompt, the
/// bounded history and, where the deployment has them, the function catalog
/// and the bookkeeping of the collection in which turns are recorded for
/// retrieval.
pub struct SessionState {
    pub model: Model,
    pub prompt: String,
    pub context_memory: FiniteQueueMemory,
    pub functions: Option<Vec<Function>>,
    pub retrieval: Option<DataBase>,
}

/// Whether a function-call turn becomes part of the shared history.
#[derive(Clone, Copy, Debug, PartialEq, Eq, Structural)]
pub enum RecordingPolicy {
    /// The user message and the function call are recorded.
    Record,
    /// The call is a side query on a snapshot: the shared history stays as it
    /// is.
    SideQuery,
}

/// The message that records a function call of the model.
pub open spec fn function_message(call: FunctionCallView) -> MessageView {
    MessageView { role: Role::Function, content: None, name: None, function_call: Some(call) }
}

/// What a chat turn answers: the content of the first choice.
pub open spec fn turn_reply(outcome: Result<CompletionResultView, CompletionErrorView>) -> Result<
    Seq<char>,
    TurnErrorView,
> {
    match outcome {
        Err(error) => Err(TurnErrorView::Completion(error)),
        Ok(reply) => if reply.choices.len() == 0 {
            Err(TurnErrorView::NoChoices)
        } else {
            match reply.choices[0].message.content {
                Some(content) => Ok(content),
                None => Err(TurnErrorView::NoContent),
            }
        },
    }
}

/// The function call that a reply makes in its first choice.
pub open spec fn first_function_call(
    outcome: Result<CompletionResultView, CompletionErrorView>,
) -> Option<FunctionCallView> {
    match outcome {
        Ok(reply) => if reply.choices.len() == 0 {
            None
        } else {
            reply.choices[0].message.function_call
        },
        Err(_) => None,
    }
}

/// What a function-call turn answers: the call of the first choice with its
/// arguments read against `shape`.
pub open spec fn function_turn_reply(
    outcome: Result<CompletionResultView, CompletionErrorView>,
    shape: Seq<Seq<char>>,
) -> Result<ExtractedCallView, TurnErrorView> {
    match outcome {
        Err(error) => Err(TurnErrorView::Completion(error)),
        Ok(reply) => match extraction_of(reply, shape) {
            Ok(ExtractionView::Call(call)) => Ok(call),
            Ok(ExtractionView::Absent) => Err(TurnErrorView::NoFunctionCall),
            Err(ExtractionError::NoChoices) => Err(TurnErrorView::NoChoices),
            Err(error) => Err(TurnErrorView::Extraction(error)),
        },
    }
}

/// What a function-call query answers where the caller wants the call as the
/// model made it: the name and the argument text of the first choice, not
/// read against any shape.
pub open spec fn function_query_reply(
    outcome: Result<CompletionResultView, CompletionErrorView>,
) -> Result<FunctionCallView, TurnErrorView> {
    match outcome {
        Err(error) => Err(TurnErrorView::Completion(error)),
        Ok(reply) => if reply.choices.len() == 0 {
            Err(TurnErrorView::NoChoices)
        } else {
            match reply.choices[0].message.function_call {
                Some(call) => Ok(call),
                None => Err(TurnErrorView::NoFunctionCall),
            }
        },
    }
}

/// Answers a function-call query with the call as the model made it. Nothing
/// is recorded: this is the last step of a side query whose caller reads the
/// arguments itself.
pub fn read_function_call(outcome: Result<CompletionResult, CompletionError>) -> (reply: Result<
    FunctionCall,
    TurnError,
>)
    ensures
        match reply {
            Ok(call) => function_query_reply(completion_view(outcome)) == Ok::<
                FunctionCallView,
                TurnErrorView,
            >(call@),
            Err(error) => function_query_reply(completion_view(outcome)) == Err::<
                FunctionCallView,
                TurnErrorView,
            >(error@),
        },
{
    let reply = match outcome {
        Ok(reply) => reply,
        Err(error) => {
            return Err(TurnError::Completion(error));
        },
    };
    if reply.choices.len() == 0 {
        return Err(TurnError::NoChoices);
    }
    let first = &reply.choices[0];
    assert(reply@.choices[0] == first@);
    match &first.message.function_call {
        Some(call) => Ok(call.clone()),
        None => Err(TurnError::NoFunctionCall),
    }
}

/// The messages of a request without retrieved context: the system prompt,
/// then the history.
pub fn build_messages(prompt: String, context: Vec<Message>) -> (messages: Vec<Message>)
    ensures
        message_views(messages@) == request_messages(prompt@, None, message_views(context@)),
{
    let mut messages: Vec<Message> = Vec::new();
    messages.push(Message::plain(Role::System, prompt));
    let mut context = context;
    let ghost first = messages@;
    let ghost rest = context@;
    messages.append(&mut context);
    assert(message_views(first + rest) =~= seq![system_message(prompt@)] + message_views(rest));
    messages
}

/// A copy of a function catalog.
fn copy_functions(functions: &Option<Vec<Function>>) -> (copy: Option<Vec<Function>>)
    ensures
        match (copy, *functions) {
            (Some(made), Some(given)) => made@ == given@,
            (None, None) => true,
            _ => false,
        },
{
    match functions {
        None => None,
        Some(given) => {
            let mut made: Vec<Function> = Vec::new();
            let mut i: usize = 0;
            while i < given.len()
                invariant
                    i <= given.len(),
                    made@ == given@.take(i as int),
                decreases given.len() - i,
            {
                made.push(given[i].clone());
                assert(made@ =~= given@.take(i + 1));
                i = i + 1;
            }
            assert(given@.take(given.len() as int) =~= given@);
            Some(made)
        },
    }
}

impl SessionState {
    /// A session for `model` under `prompt` whose history keeps at most
    /// `capacity` messages and starts empty. `functions` and `retrieval` are
    /// the optional capabilities of the deployment.
    pub fn new(
        model: Model,
        prompt: String,
        capacity: usize,
        functions: Option<Vec<Function>>,
        retrieval: Option<DataBase>,
    ) -> (session: Self)
        ensures
            session.model == model,
            session.prompt == prompt,
            session.functions == functions,
            session.retrieval == retrieval,
            session.context_memory@ == Seq::<MessageView>::empty(),
            session.context_memory.capacity() == capacity,
    {
        SessionState {
            model,
            prompt,
            context_memory: FiniteQueueMemory::new(capacity),
            functions,
            retrieval,
        }
    }

    /// The model, the prompt, the catalog and the capacity of the history are
    /// the same in both.
    pub open spec fn same_settings(&self, other: &SessionState) -> bool {
        &&& self.model == other.model
        &&& self.prompt == other.prompt
        &&& self.functions == other.functions
        &&& self.context_memory.capacity() == other.context_memory.capacity()
    }

    /// What a turn of the dialogue leaves as it is: the settings and the
    /// bookkeeping of the recorded turns.
    pub open spec fn same_setup(&self, other: &SessionState) -> bool {
        &&& self.same_settings(other)
        &&& self.retrieval == other.retrieval
    }

    /// What recording leaves as it is: the settings, the history, and the
    /// name of the collection.
    pub open spec fn same_dialogue(&self, other: &SessionState) -> bool {
        &&& self.same_settings(other)
        &&& self.context_memory@ == other.context_memory@
        &&& match (self.retrieval, other.retrieval) {
            (Some(mine), Some(theirs)) => mine.name == theirs.name,
            (None, None) => true,
            _ => false,
        }
    }

    /// Plans the recording of a turn with what is known of it. `None` where
    /// the session records nothing. Otherwise the point gets the next
    /// identifier of the collection, unless the turn cannot be recorded, and
    /// then the bookkeeping stays as it is.
    pub fn plan_record(&mut self, meta: &MetaData) -> (plan: Option<Result<PointPlan, RecordError>>)
        ensures
            final(self).same_dialogue(old(self)),
            plan is None <==> old(self).retrieval is None,
            match plan {
                Some(Ok(point)) => {
                    &&& point.id == old(self).retrieval->Some_0.index
                    &&& final(self).retrieval->Some_0.index == point.id + 1
                    &&& timestamp_text(meta.datetime, datetime_pattern()) is Some
                    &&& payload_views(point.payload@) == payload_of(
                        timestamp_text(meta.datetime, datetime_pattern())->Some_0,
                        meta.author@,
                        meta.addressee@,
                    )
                },
                Some(Err(error)) => {
                    &&& final(self).retrieval == old(self).retrieval
                    &&& error == record_failure(meta.datetime)
                    &&& (error == RecordError::Exhausted ==> old(self).retrieval->Some_0.index
                        == u64::MAX)
                },
                None => true,
            },
    {
        match &mut self.retrieval {
            None => None,
            Some(database) => Some(database.upsert(meta)),
        }
    }

    /// Plans the recording of a turn that the user `author` said at
    /// `datetime`: it is addressed to the model.
    pub fn plan_user_record(&mut self, datetime: i64, author: String) -> (plan: Option<
        Result<PointPlan, RecordError>,
    >)
        ensures
            final(self).same_dialogue(old(self)),
            plan is None <==> old(self).retrieval is None,
            plan matches Some(Ok(point)) ==> {
                &&& point.id == old(self).retrieval->Some_0.index
                &&& final(self).retrieval->Some_0.index == point.id + 1
                &&& timestamp_text(datetime, datetime_pattern()) is Some
                &&& payload_views(point.payload@) == payload_of(
                    timestamp_text(datetime, datetime_pattern())->Some_0,
                    author@,
                    model_party(),
                )
            },
            plan matches Some(Err(error)) ==> {
                &&& final(self).retrieval == old(self).retrieval
                &&& error == record_failure(datetime)
                &&& (error == RecordError::Exhausted ==> old(self).retrieval->Some_0.index
                    == u64::MAX)
            },
    {
        let meta = MetaData::of_user_turn(datetime, author);
        self.plan_record(&meta)
    }

    /// Plans the recording of a turn that the model said to the user
    /// `addressee` at `datetime`.
    pub fn plan_model_record(&mut self, datetime: i64, addressee: String) -> (plan: Option<
        Result<PointPlan, RecordError>,
    >)
        ensures
            final(self).same_dialogue(old(self)),
            plan is None <==> old(self).retrieval is None,
            plan matches Some(Ok(point)) ==> {
                &&& point.id == old(self).retrieval->Some_0.index
                &&& final(self).retrieval->Some_0.index == point.id + 1
                &&& timestamp_text(datetime, datetime_pattern()) is Some
                &&& payload_views(point.payload@) == payload_of(
                    timestamp_text(datetime, datetime_pattern())->Some_0,
                    model_party(),
                    addressee@,
                )
            },
            plan matches Some(Err(error)) ==> {
                &&& final(self).retrieval == old(self).retrieval
                &&& error == record_failure(datetime)
                &&& (error == RecordError::Exhausted ==> old(self).retrieval->Some_0.index
                    == u64::MAX)
            },
    {
        let meta = MetaData::of_model_turn(datetime, addressee);
        self.plan_record(&meta)
    }

    /// The history after `message` was added to it.
    pub open spec fn history_with(&self, message: MessageView) -> Seq<MessageView> {
        retain_last(self.context_memory@.push(message), self.context_memory.capacity())
    }

    /// The first step of a chat turn: the user message joins the history, and
    /// the request is made of the prompt, the retrieved context where the
    /// caller has some, and the history. `stream` says which client the
    /// request is for.
    pub fn begin_turn(&mut self, user_message: String, retrieved: Option<String>, stream: bool) -> (options:
        Options)
        ensures
            final(self).same_setup(old(self)),
            final(self).context_memory@ == old(self).history_with(
                plain_message(Role::User, user_message@),
            ),
            options.model@ == old(self).model.name(),
            message_views(options.messages@) == request_messages(
                old(self).prompt@,
                text_view(retrieved),
                final(self).context_memory@,
            ),
            options.stream == (if stream {
                Some(true)
            } else {
                None::<bool>
            }),
            options.functions is None,
            options.function_call is None,
            options.n is None,
            options.stop is None,
            options.max_tokens is None,
            options.user is None,
    {
        self.context_memory.add(Message::plain(Role::User, user_message));
        let context = self.context_memory.get();
        let messages = match retrieved {
            Some(memory) => crate::retrieval::build_messages(self.prompt.clone(), memory, context),
            None => build_messages(self.prompt.clone(), context),
        };
        let mut options = Options::new(self.model.parse_to_string(), messages);
        if stream {
            options.stream = Some(true);
        }
        options
    }

    /// The last step of a single-shot chat turn: the content of the first
    /// choice is the answer, and it joins the history as the assistant's
    /// turn. A failed call, a reply without a choice and a choice without
    /// content leave the history as it is.
    pub fn complete_turn(&mut self, outcome: Result<CompletionResult, CompletionError>) -> (reply:
        Result<String, TurnError>)
        ensures
            final(self).same_setup(old(self)),
            match reply {
                Ok(content) => turn_reply(completion_view(outcome)) == Ok::<Seq<char>, TurnErrorView>(
                    content@,
                ) && final(self).context_memory@ == old(self).history_with(
                    plain_message(Role::Assistant, content@),
                ),
                Err(error) => turn_reply(completion_view(outcome)) == Err::<Seq<char>, TurnErrorView>(
                    error@,
                ) && final(self).context_memory@ == old(self).context_memory@,
            },
    {
        let reply = match outcome {
            Ok(reply) => reply,
            Err(error) => {
                return Err(TurnError::Completion(error));
            },
        };
        if reply.choices.len() == 0 {
            return Err(TurnError::NoChoices);
        }
        let first = &reply.choices[0];
        assert(reply@.choices[0] == first@);
        match &first.message.content {
            None => Err(TurnError::NoContent),
            Some(content) => {
                self.context_memory.add(Message::plain(Role::Assistant, content.clone()));
                Ok(content.clone())
            },
        }
    }

    /// The last step of a streamed chat turn: the whole reply joins the
    /// history as the assistant's turn. A failed call leaves the history as it
    /// is.
    pub fn complete_stream_turn(&mut self, outcome: &Result<String, CompletionError>)
        ensures
            final(self).same_setup(old(self)),
            match *outcome {
                Ok(total) => final(self).context_memory@ == old(self).history_with(
                    plain_message(Role::Assistant, total@),
                ),
                Err(_) => final(self).context_memory@ == old(self).context_memory@,
            },
    {
        match outcome {
            Ok(total) => {
                self.context_memory.add(Message::plain(Role::Assistant, total.clone()));
            },
            Err(_) => {},
        }
    }

    /// The first step of a function-call turn. The request is made of the
    /// prompt and the history with the user message, and carries the catalog
    /// and `directive`. Under `Record` the user message joins the shared
    /// history; under `SideQuery` it joins a snapshot only.
    pub fn begin_function_turn(
        &mut self,
        user_message: String,
        directive: FunctionCallingSpecification,
        policy: RecordingPolicy,
    ) -> (options: Options)
        ensures
            final(self).same_setup(old(self)),
            final(self).context_memory@ == (match policy {
                RecordingPolicy::Record => old(self).history_with(
                    plain_message(Role::User, user_message@),
                ),
                RecordingPolicy::SideQuery => old(self).context_memory@,
            }),
            options.model@ == old(self).model.name(),
            message_views(options.messages@) == request_messages(
                old(self).prompt@,
                None,
                old(self).history_with(plain_message(Role::User, user_message@)),
            ),
            options.stream is None,
            match (options.functions, old(self).functions) {
                (Some(sent), Some(catalog)) => sent@ == catalog@,
                (None, None) => true,
                _ => false,
            },
            options.function_call == Some(directive),
            options.n is None,
            options.stop is None,
            options.max_tokens is None,
            options.user is None,
    {
        let context = match policy {
            RecordingPolicy::Record => {
                self.context_memory.add(Message::plain(Role::User, user_message));
                self.context_memory.get()
            },
            RecordingPolicy::SideQuery => {
                let mut snapshot = self.context_memory.clone();
                snapshot.add(Message::plain(Role::User, user_message));
                snapshot.get()
            },
        };
        let messages = build_messages(self.prompt.clone(), context);
        let mut options = Options::new(self.model.parse_to_string(), messages);
        options.functions = copy_functions(&self.functions);
        options.function_call = Some(directive);
        options
    }

    /// The last step of a function-call turn: the call of the first choice is
    /// read against `shape`. Under `Record` the call joins the shared history
    /// as soon as the reply makes one, whether or not its arguments can be
    /// read; under `SideQuery` the history stays as it is.
    pub fn complete_function_turn(
        &mut self,
        outcome: Result<CompletionResult, CompletionError>,
        shape: &Vec<String>,
        policy: RecordingPolicy,
    ) -> (reply: Result<ExtractedCall, TurnError>)
        ensures
            final(self).same_setup(old(self)),
            final(self).context_memory@ == (match (
                policy,
                first_function_call(completion_view(outcome)),
            ) {
                (RecordingPolicy::Record, Some(call)) => old(self).history_with(
                    function_message(call),
                ),
                _ => old(self).context_memory@,
            }),
            match reply {
                Ok(call) => function_turn_reply(completion_view(outcome), text_views(shape@)) == Ok::<
                    ExtractedCallView,
                    TurnErrorView,
                >(call@),
                Err(error) => function_turn_reply(completion_view(outcome), text_views(shape@))
                    == Err::<ExtractedCallView, TurnErrorView>(error@),
            },
    {
        let reply = match outcome {
            Ok(reply) => reply,
            Err(error) => {
                return Err(TurnError::Completion(error));
            },
        };
        if reply.choices.len() == 0 {
            return Err(TurnError::NoChoices);
        }
        let first = &reply.choices[0];
        assert(reply@.choices[0] == first@);
        let call = match &first.message.function_call {
            Some(call) => call,
            None => {
                return Err(TurnError::NoFunctionCall);
            },
        };
        match policy {
            RecordingPolicy::Record => {
                self.context_memory.add(
                    Message {
                        role: Role::Function,
                        content: None,
                        name: None,
                        function_call: Some(call.clone()),
                    },
                );
            },
            RecordingPolicy::SideQuery => {},
        }
        match extract_call(call, shape) {
            Ok(extracted) => Ok(extracted),
            Err(error) => Err(TurnError::Extraction(error)),
        }
    }
}

/// Requests that hold the session one after the other lose and repeat
/// nothing: after two of them the history holds what it held before, then
/// what the first added, then what the second added, cut to the newest
/// entries that the capacity `k` admits. Where the capacity admits them all,
/// the history holds every message exactly once, in that order.
pub proof fn lemma_serialized_requests<T>(start: Seq<T>, first: Seq<T>, second: Seq<T>, k: nat)
    requires
        start.len() <= k,
    ensures
        after_appends(after_appends(start, first, k), second, k) == retain_last(
            start + first + second,
            k,
        ),
        start.len() + first.len() + second.len() <= k ==> after_appends(
            after_appends(start, first, k),
            second,
            k,
        ) == start + first + second,
{
    lemma_appends_keep_newest(start, first, k);
    let middle = after_appends(start, first, k);
    lemma_appends_keep_newest(middle, second, k);
    lemma_appends_keep_newest(start, first + second, k);
    lemma_appends_compose(start, first, second, k);
    assert(start + (first + second) =~= start + first + second);
}

/// Adding two runs of entries one after the other is adding their
/// concatenation.
pub proof fn lemma_appends_compose<T>(start: Seq<T>, first: Seq<T>, second: Seq<T>, k: nat)
    ensures
        after_appends(after_appends(start, first, k), second, k) == after_appends(
            start,
            first + second,
            k,
        ),
    decreases second.len(),
{
    if second.len() == 0 {
        assert(first + second =~= first);
    } else {
        lemma_appends_compose(start, first, second.drop_last(), k);
        assert((first + second).drop_last() =~= first + second.drop_last());
        assert((first + second).last() == second.last());
    }
}

} // verus!
