//! Retrieval augmentation, as far as the session decides: how retrieved
//! turns are put into a request, what is recorded with a turn, and under
//! which identifier. Embedding and the vector store sit with the caller.

use crate::message::{message_views, request_messages, system_message, Message, Role};
use crate::text::text_view;
use vstd::prelude::*;
use vstd::string::StringExecFns;

verus! {

/// How many earlier turns a query retrieves.
pub const RETRIEVAL_LIMIT: u64 = 5;

/// The party that stands for the model in recorded turns.
pub open spec fn model_party() -> Seq<char> {
    "AI"@
}

/// The pattern in which the time of a turn is recorded.
pub open spec fn datetime_pattern() -> Seq<char> {
    "%Y-%m-%dT%H:%M:%S%.3f"@
}

/// The text of the moment `millis` milliseconds after the Unix epoch, in UTC,
/// under `pattern`; `None` where the moment is out of range.
pub uninterp spec fn timestamp_text(millis: i64, pattern: Seq<char>) -> Option<Seq<char>>;

/// Renders a moment under the recording pattern.
///
/// Trusted: `chrono::DateTime::from_timestamp_millis`, which gives `None` on
/// an out-of-range number, and `chrono::DateTime::format`, rendered to a
/// string. The text depends on the number and the pattern alone; the contract
/// names it. Other patterns are left out: rendering panics on a pattern that
/// is not well formed.
#[verifier::external_body]
pub(crate) fn format_timestamp(millis: i64, pattern: &str) -> (text: Option<String>)
    requires
        pattern@ == datetime_pattern(),
    ensures
        text_view(text) == timestamp_text(millis, pattern@),
{
    match chrono::DateTime::from_timestamp_millis(millis) {
        Some(moment) => Some(moment.format(pattern).to_string()),
        None => None,
    }
}

/// One entry of the payload that is stored with a recorded turn.
#[derive(Debug, PartialEq, Eq)]
pub struct PayloadField {
    pub key: String,
    pub value: String,
}

/// A payload entry with its strings as sequences of characters.
pub struct PayloadFieldView {
    pub key: Seq<char>,
    pub value: Seq<char>,
}

impl View for PayloadField {
    type V = PayloadFieldView;

    open spec fn view(&self) -> PayloadFieldView {
        PayloadFieldView { key: self.key@, value: self.value@ }
    }
}

/// The views of a payload, in the same order.
pub open spec fn payload_views(fields: Seq<PayloadField>) -> Seq<PayloadFieldView> {
    fields.map_values(|f: PayloadField| f@)
}

/// What is known of a recorded turn: when it was said, in milliseconds after
/// the Unix epoch, by whom and to whom.
#[derive(Debug, PartialEq, Eq)]
pub struct MetaData {
    pub datetime: i64,
    pub author: String,
    pub addressee: String,
}

/// The payload of a turn said at the moment whose text is `moment`.
pub open spec fn payload_of(
    moment: Seq<char>,
    author: Seq<char>,
    addressee: Seq<char>,
) -> Seq<PayloadFieldView> {
    seq![
        PayloadFieldView { key: "datetime"@, value: moment },
        PayloadFieldView { key: "author"@, value: author },
        PayloadFieldView { key: "addressee"@, value: addressee },
    ]
}

impl MetaData {
    /// What is recorded with a turn of the user `author`: it is addressed to
    /// the model.
    pub fn of_user_turn(datetime: i64, author: String) -> (meta: MetaData)
        ensures
            meta.datetime == datetime,
            meta.author == author,
            meta.addressee@ == model_party(),
    {
        MetaData { datetime, author, addressee: "AI".to_owned() }
    }

    /// What is recorded with a turn of the model: it is addressed to the user
    /// `addressee`.
    pub fn of_model_turn(datetime: i64, addressee: String) -> (meta: MetaData)
        ensures
            meta.datetime == datetime,
            meta.author@ == model_party(),
            meta.addressee == addressee,
    {
        MetaData { datetime, author: "AI".to_owned(), addressee }
    }

    /// The payload stored with the turn: the moment as text, the author and
    /// the addressee, under the keys `datetime`, `author` and `addressee`.
    /// `None` where the moment is out of range.
    pub fn to_payload(&self) -> (payload: Option<Vec<PayloadField>>)
        ensures
            match payload {
                Some(fields) => timestamp_text(self.datetime, datetime_pattern()) is Some
                    && payload_views(fields@) == payload_of(
                    timestamp_text(self.datetime, datetime_pattern())->Some_0,
                    self.author@,
                    self.addressee@,
                ),
                None => timestamp_text(self.datetime, datetime_pattern()) is None,
            },
    {
        let moment = match format_timestamp(self.datetime, "%Y-%m-%dT%H:%M:%S%.3f") {
            Some(moment) => moment,
            None => {
                return None;
            },
        };
        let mut fields: Vec<PayloadField> = Vec::new();
        fields.push(PayloadField { key: "datetime".to_owned(), value: moment });
        fields.push(PayloadField { key: "author".to_owned(), value: self.author.clone() });
        fields.push(PayloadField { key: "addressee".to_owned(), value: self.addressee.clone() });
        assert(payload_views(fields@) =~= payload_of(moment@, self.author@, self.addressee@));
        Some(fields)
    }
}

/// Why a turn could not be recorded.
#[derive(Clone, Copy, Debug, PartialEq, Eq, Structural)]
pub enum RecordError {
    /// The moment of the turn is out of range.
    InvalidMoment,
    /// The collection has run out of identifiers.
    Exhausted,
}

/// Why a turn said at `datetime` is not recorded, where it is not: its
/// moment is out of range or, with a moment in range, the collection has run
/// out of identifiers.
pub open spec fn record_failure(datetime: i64) -> RecordError {
    if timestamp_text(datetime, datetime_pattern()) is None {
        RecordError::InvalidMoment
    } else {
        RecordError::Exhausted
    }
}

/// A point that is ready to be stored, but for its vector.
#[derive(Debug, PartialEq, Eq)]
pub struct PointPlan {
    pub id: u64,
    pub payload: Vec<PayloadField>,
}

/// The bookkeeping of one collection of the vector store: its name and the
/// identifier of the next point.
#[derive(Debug, PartialEq, Eq)]
pub struct DataBase {
    pub name: String,
    pub index: u64,
}

impl DataBase {
    /// The bookkeeping of an empty collection.
    pub fn new(name: String) -> (database: DataBase)
        ensures
            database.name == name,
            database.index == 0,
    {
        DataBase { name, index: 0 }
    }

    /// Plans the storing of one turn: the point gets the next identifier and
    /// the payload of `meta`, and the identifier after it becomes the next.
    /// Identifiers are handed out in order and never twice. Where the turn
    /// cannot be recorded the bookkeeping stays as it is.
    pub fn upsert(&mut self, meta: &MetaData) -> (plan: Result<PointPlan, RecordError>)
        ensures
            final(self).name == old(self).name,
            match plan {
                Ok(point) => {
                    &&& point.id == old(self).index
                    &&& final(self).index == old(self).index + 1
                    &&& timestamp_text(meta.datetime, datetime_pattern()) is Some
                    &&& payload_views(point.payload@) == payload_of(
                        timestamp_text(meta.datetime, datetime_pattern())->Some_0,
                        meta.author@,
                        meta.addressee@,
                    )
                },
                Err(error) => {
                    &&& final(self).index == old(self).index
                    &&& error == record_failure(meta.datetime)
                    &&& (error == RecordError::Exhausted ==> old(self).index == u64::MAX)
                },
            },
            old(self).index < u64::MAX && timestamp_text(meta.datetime, datetime_pattern())
                is Some ==> plan is Ok,
    {
        let payload = match meta.to_payload() {
            Some(payload) => payload,
            None => {
                return Err(RecordError::InvalidMoment);
            },
        };
        if self.index == u64::MAX {
            return Err(RecordError::Exhausted);
        }
        let id = self.index;
        self.index = self.index + 1;
        Ok(PointPlan { id, payload })
    }
}

/// The largest token of the vocabulary. Every number up to it is a token.
pub const MAX_TOKEN: usize = 50280;

/// The text that a run of tokens of the vocabulary stands for; `None` where
/// the tokenizer gives none, because their bytes are not UTF-8 text.
pub uninterp spec fn token_text(tokens: Seq<usize>) -> Option<Seq<char>>;

/// Whether every one of `tokens` belongs to the vocabulary.
pub open spec fn all_known(tokens: Seq<usize>) -> bool {
    forall|i: int| 0 <= i < tokens.len() ==> (#[trigger] tokens[i]) <= MAX_TOKEN
}

/// Turns tokens back into text.
///
/// Trusted: `tiktoken_rs::p50k_base`, which builds the tokenizer from the
/// vocabulary that the crate carries, and `tiktoken_rs::CoreBPE::decode`. The
/// text depends on the tokens alone; the contract names it. Tokens outside
/// the vocabulary are left out: decoding panics on them.
#[verifier::external_body]
pub(crate) fn detokenize_raw(tokens: Vec<usize>) -> (text: Option<String>)
    requires
        all_known(tokens@),
    ensures
        text_view(text) == token_text(tokens@),
{
    match tiktoken_rs::p50k_base() {
        Ok(bpe) => bpe.decode(tokens).ok(),
        Err(_) => None,
    }
}

/// Why tokens could not be turned back into text.
#[derive(Clone, Copy, Debug, PartialEq, Eq, Structural)]
pub enum TokenError {
    /// A number among them is no token of the vocabulary.
    UnknownToken,
    /// Their bytes are not UTF-8 text.
    NotText,
}

/// The text that a run of numbers stands for, where every one of them is a
/// token and their bytes are text.
pub open spec fn detokenized(tokens: Seq<usize>) -> Result<Seq<char>, TokenError> {
    if !all_known(tokens) {
        Err(TokenError::UnknownToken)
    } else {
        match token_text(tokens) {
            Some(text) => Ok(text),
            None => Err(TokenError::NotText),
        }
    }
}

/// Turns tokens back into the text that they stand for.
pub fn detokenize(tokens: &Vec<usize>) -> (text: Result<String, TokenError>)
    ensures
        match text {
            Ok(found) => detokenized(tokens@) == Ok::<Seq<char>, TokenError>(found@),
            Err(error) => detokenized(tokens@) == Err::<Seq<char>, TokenError>(error),
        },
{
    let mut copy: Vec<usize> = Vec::new();
    let mut i: usize = 0;
    while i < tokens.len()
        invariant
            i <= tokens.len(),
            copy@ == tokens@.take(i as int),
            all_known(copy@),
        decreases tokens.len() - i,
    {
        let token = tokens[i];
        if token > MAX_TOKEN {
            return Err(TokenError::UnknownToken);
        }
        copy.push(token);
        assert(copy@ =~= tokens@.take(i + 1));
        i = i + 1;
    }
    assert(tokens@.take(tokens.len() as int) =~= tokens@);
    match detokenize_raw(copy) {
        Some(found) => Ok(found),
        None => Err(TokenError::NotText),
    }
}

/// One retrieved turn: how well it matches, as text, who said it to whom,
/// and what was said, as tokens.
#[derive(Debug, PartialEq, Eq)]
pub struct RetrievedTurn {
    pub score: String,
    pub author: String,
    pub addressee: String,
    pub tokens: Vec<usize>,
}

/// A retrieved turn with its strings as sequences of characters.
pub struct RetrievedTurnView {
    pub score: Seq<char>,
    pub author: Seq<char>,
    pub addressee: Seq<char>,
    pub tokens: Seq<usize>,
}

impl View for RetrievedTurn {
    type V = RetrievedTurnView;

    open spec fn view(&self) -> RetrievedTurnView {
        RetrievedTurnView {
            score: self.score@,
            author: self.author@,
            addressee: self.addressee@,
            tokens: self.tokens@,
        }
    }
}

/// The views of a sequence of retrieved turns, in the same order.
pub open spec fn turn_views(turns: Seq<RetrievedTurn>) -> Seq<RetrievedTurnView> {
    turns.map_values(|t: RetrievedTurn| t@)
}

/// The line of context that stands for one retrieved turn whose tokens stand
/// for `text`.
pub open spec fn retrieved_line(turn: RetrievedTurnView, text: Seq<char>) -> Seq<char> {
    "Score = "@ + turn.score + ", "@ + turn.author + " -> "@ + turn.addressee + ": "@ + text
        + "\n"@
}

/// The context that stands for the retrieved turns: their lines, best match
/// first as the store ranked them. The first turn whose tokens cannot be
/// turned into text fails the whole.
pub open spec fn retrieved_text(turns: Seq<RetrievedTurnView>) -> Result<Seq<char>, TokenError>
    decreases turns.len(),
{
    if turns.len() == 0 {
        Ok(Seq::empty())
    } else {
        match detokenized(turns[0].tokens) {
            Err(error) => Err(error),
            Ok(text) => match retrieved_text(turns.drop_first()) {
                Err(error) => Err(error),
                Ok(rest) => Ok(retrieved_line(turns[0], text) + rest),
            },
        }
    }
}

/// `text`, where the rest of the turns gives one, after `done`.
pub open spec fn continued(done: Seq<char>, rest: Result<Seq<char>, TokenError>) -> Result<
    Seq<char>,
    TokenError,
> {
    match rest {
        Ok(text) => Ok(done + text),
        Err(error) => Err(error),
    }
}

/// Puts the retrieved turns into the context text of a request.
pub fn format_vector_memory(turns: &Vec<RetrievedTurn>) -> (combined: Result<String, TokenError>)
    ensures
        match combined {
            Ok(text) => retrieved_text(turn_views(turns@)) == Ok::<Seq<char>, TokenError>(text@),
            Err(error) => retrieved_text(turn_views(turns@)) == Err::<Seq<char>, TokenError>(
                error,
            ),
        },
{
    let ghost views = turn_views(turns@);
    let mut combined = String::new();
    let mut i: usize = 0;
    assert(views.skip(0) =~= views);
    assert(continued(combined@, retrieved_text(views)) == retrieved_text(views)) by {
        match retrieved_text(views) {
            Ok(text) => {
                assert(combined@ + text =~= text);
            },
            Err(_) => {},
        }
    }
    while i < turns.len()
        invariant
            i <= turns.len(),
            views == turn_views(turns@),
            retrieved_text(views) == continued(combined@, retrieved_text(views.skip(i as int))),
        decreases turns.len() - i,
    {
        let turn = &turns[i];
        let ghost before = combined@;
        let ghost left = views.skip(i as int);
        assert(left[0] == turn@);
        assert(left.drop_first() =~= views.skip(i + 1));
        let text = match detokenize(&turn.tokens) {
            Ok(text) => text,
            Err(error) => {
                return Err(error);
            },
        };
        combined.append("Score = ");
        combined.append(turn.score.as_str());
        combined.append(", ");
        combined.append(turn.author.as_str());
        combined.append(" -> ");
        combined.append(turn.addressee.as_str());
        combined.append(": ");
        combined.append(text.as_str());
        combined.append("\n");
        proof {
            assert(combined@ =~= before + retrieved_line(turn@, text@));
            match retrieved_text(views.skip(i + 1)) {
                Ok(rest) => {
                    assert(before + (retrieved_line(turn@, text@) + rest) =~= combined@ + rest);
                },
                Err(_) => {},
            }
        }
        i = i + 1;
    }
    assert(views.skip(turns.len() as int) =~= Seq::<RetrievedTurnView>::empty());
    assert(combined@ + Seq::<char>::empty() =~= combined@);
    Ok(combined)
}

/// The messages of a request with retrieved context: the system prompt, the
/// retrieved context as a second system message, then the history.
pub fn build_messages(prompt: String, memory: String, context: Vec<Message>) -> (messages: Vec<
    Message,
>)
    ensures
        message_views(messages@) == request_messages(
            prompt@,
            Some(memory@),
            message_views(context@),
        ),
{
    let mut messages: Vec<Message> = Vec::new();
    messages.push(Message::plain(Role::System, prompt));
    messages.push(Message::plain(Role::System, memory));
    let mut context = context;
    let ghost first = messages@;
    let ghost rest = context@;
    messages.append(&mut context);
    assert(message_views(first + rest) =~= message_views(first) + message_views(rest));
    assert(message_views(first) =~= seq![system_message(prompt@), system_message(memory@)]);
    messages
}

} // verus!
