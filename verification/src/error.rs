//! The ways in which a completion call fails.

use crate::function_call::ExtractionError;
use vstd::prelude::*;
use vstd::string::StringExecFns;

verus! {

/// Why a reply body could not be read as the expected value.
#[derive(Clone, Copy, Debug, PartialEq, Eq, Structural)]
pub enum DecodeFault {
    /// The text is not a JSON document.
    InvalidJson,
    /// The document does not have the expected shape.
    UnexpectedShape,
}

/// Why a line of a streamed reply was rejected.
#[derive(Clone, Copy, Debug, PartialEq, Eq, Structural)]
pub enum ChunkFault {
    /// The line, without its event prefix, is not a JSON document.
    InvalidJson,
    /// The document is not a stream chunk.
    UnexpectedShape,
    /// The chunk has no choice.
    NoChoices,
    /// The first choice has neither a finish reason, nor a role, nor content.
    NoContent,
}

/// Why a completion call failed. Every failure ends the call it occurs in;
/// nothing is retried.
#[derive(Debug, PartialEq, Eq)]
pub enum CompletionError {
    /// The streaming client was used without the stream flag, or the
    /// single-shot client with it.
    ModeViolation,
    /// The transport could not deliver the request or the reply.
    Transport(String),
    /// The endpoint answered with a status outside the success range.
    UpstreamHttp { status: u16, body: String },
    /// The endpoint answered with a status outside the success range and a
    /// body that is not UTF-8 text.
    UpstreamHttpBinary { status: u16, bytes: Vec<u8> },
    /// The reply is not UTF-8 text.
    InvalidEncoding,
    /// The body of a single-shot reply could not be read.
    MalformedBody(DecodeFault),
    /// A line of a streamed reply was rejected.
    MalformedChunk(ChunkFault),
}

/// A failed call with its strings as sequences of characters.
pub enum CompletionErrorView {
    ModeViolation,
    Transport(Seq<char>),
    UpstreamHttp { status: u16, body: Seq<char> },
    UpstreamHttpBinary { status: u16, bytes: Seq<u8> },
    InvalidEncoding,
    MalformedBody(DecodeFault),
    MalformedChunk(ChunkFault),
}

impl View for CompletionError {
    type V = CompletionErrorView;

    open spec fn view(&self) -> CompletionErrorView {
        match *self {
            CompletionError::ModeViolation => CompletionErrorView::ModeViolation,
            CompletionError::Transport(reason) => CompletionErrorView::Transport(reason@),
            CompletionError::UpstreamHttp { status, body } => CompletionErrorView::UpstreamHttp {
                status,
                body: body@,
            },
            CompletionError::UpstreamHttpBinary { status, bytes } => {
                CompletionErrorView::UpstreamHttpBinary { status, bytes: bytes@ }
            },
            CompletionError::InvalidEncoding => CompletionErrorView::InvalidEncoding,
            CompletionError::MalformedBody(fault) => CompletionErrorView::MalformedBody(fault),
            CompletionError::MalformedChunk(fault) => CompletionErrorView::MalformedChunk(fault),
        }
    }
}

impl Clone for CompletionError {
    fn clone(&self) -> (copy: Self)
        ensures
            copy@ == self@,
    {
        match self {
            CompletionError::ModeViolation => CompletionError::ModeViolation,
            CompletionError::Transport(reason) => CompletionError::Transport(reason.clone()),
            CompletionError::UpstreamHttp { status, body } => CompletionError::UpstreamHttp {
                status: *status,
                body: body.clone(),
            },
            CompletionError::UpstreamHttpBinary { status, bytes } => {
                let copy = bytes.clone();
                assert(copy@ =~= bytes@);
                CompletionError::UpstreamHttpBinary { status: *status, bytes: copy }
            },
            CompletionError::InvalidEncoding => CompletionError::InvalidEncoding,
            CompletionError::MalformedBody(fault) => CompletionError::MalformedBody(*fault),
            CompletionError::MalformedChunk(fault) => CompletionError::MalformedChunk(*fault),
        }
    }
}

/// Why a turn of the dialogue failed.
#[derive(Debug, PartialEq, Eq)]
pub enum TurnError {
    /// The completion call failed.
    Completion(CompletionError),
    /// The reply has no choice.
    NoChoices,
    /// The first choice has no content.
    NoContent,
    /// The first choice has no function call.
    NoFunctionCall,
    /// The function call could not be extracted.
    Extraction(ExtractionError),
}

/// A failed turn with its strings as sequences of characters.
pub enum TurnErrorView {
    Completion(CompletionErrorView),
    NoChoices,
    NoContent,
    NoFunctionCall,
    Extraction(ExtractionError),
}

impl View for TurnError {
    type V = TurnErrorView;

    open spec fn view(&self) -> TurnErrorView {
        match *self {
            TurnError::Completion(error) => TurnErrorView::Completion(error@),
            TurnError::NoChoices => TurnErrorView::NoChoices,
            TurnError::NoContent => TurnErrorView::NoContent,
            TurnError::NoFunctionCall => TurnErrorView::NoFunctionCall,
            TurnError::Extraction(error) => TurnErrorView::Extraction(error),
        }
    }
}

/// The character of a decimal digit.
pub open spec fn digit_text(digit: nat) -> Seq<char> {
    if digit == 0 {
        "0"@
    } else if digit == 1 {
        "1"@
    } else if digit == 2 {
        "2"@
    } else if digit == 3 {
        "3"@
    } else if digit == 4 {
        "4"@
    } else if digit == 5 {
        "5"@
    } else if digit == 6 {
        "6"@
    } else if digit == 7 {
        "7"@
    } else if digit == 8 {
        "8"@
    } else {
        "9"@
    }
}

/// A number in decimal digits, without leading zeros.
pub open spec fn decimal_text(n: nat) -> Seq<char>
    decreases n,
{
    if n < 10 {
        digit_text(n)
    } else {
        decimal_text(n / 10) + digit_text(n % 10)
    }
}

/// The text of one decimal digit.
fn digit(value: u16) -> (text: &'static str)
    requires
        value < 10,
    ensures
        text@ == digit_text(value as nat),
{
    if value == 0 {
        "0"
    } else if value == 1 {
        "1"
    } else if value == 2 {
        "2"
    } else if value == 3 {
        "3"
    } else if value == 4 {
        "4"
    } else if value == 5 {
        "5"
    } else if value == 6 {
        "6"
    } else if value == 7 {
        "7"
    } else if value == 8 {
        "8"
    } else {
        "9"
    }
}

/// Writes a number in decimal digits.
pub fn decimal(n: u16) -> (text: String)
    ensures
        text@ == decimal_text(n as nat),
    decreases n,
{
    if n < 10 {
        digit(n).to_owned()
    } else {
        decimal(n / 10).concat(digit(n % 10))
    }
}

/// What a rejected line is called.
pub open spec fn chunk_fault_text(fault: ChunkFault) -> Seq<char> {
    match fault {
        ChunkFault::InvalidJson => "Failed to parse JSON"@,
        ChunkFault::UnexpectedShape => "Unexpected shape of chunk"@,
        ChunkFault::NoChoices => "No choices"@,
        ChunkFault::NoContent => "No content"@,
    }
}

/// What an unreadable body is called.
pub open spec fn decode_fault_text(fault: DecodeFault) -> Seq<char> {
    match fault {
        DecodeFault::InvalidJson => "Failed to parse JSON"@,
        DecodeFault::UnexpectedShape => "Unexpected shape of response"@,
    }
}

/// What a failed extraction is called.
pub open spec fn extraction_error_text(error: ExtractionError) -> Seq<char> {
    match error {
        ExtractionError::NoChoices => "No choices in response"@,
        ExtractionError::MalformedArguments => "Failed to parse function arguments"@,
        ExtractionError::ShapeMismatch => "Function arguments do not match the expected shape"@,
    }
}

/// A failed completion call in words. A failure of the endpoint is told with
/// its status and its body as they came.
pub open spec fn completion_error_text(error: CompletionErrorView) -> Seq<char> {
    match error {
        CompletionErrorView::ModeViolation => "The stream flag of the request does not fit the client"@,
        CompletionErrorView::Transport(reason) => "Failed to make request: "@ + reason,
        CompletionErrorView::UpstreamHttp { status, body } => "HTTP request failed: "@
            + decimal_text(status as nat) + "\nResponse body: "@ + body,
        CompletionErrorView::UpstreamHttpBinary { status, bytes } => "HTTP request failed: "@
            + decimal_text(status as nat) + "\nResponse body is not UTF-8 text"@,
        CompletionErrorView::InvalidEncoding => "Response is not UTF-8 text"@,
        CompletionErrorView::MalformedBody(fault) => decode_fault_text(fault),
        CompletionErrorView::MalformedChunk(fault) => chunk_fault_text(fault),
    }
}

/// A failed turn in words.
pub open spec fn turn_error_text(error: TurnErrorView) -> Seq<char> {
    match error {
        TurnErrorView::Completion(inner) => completion_error_text(inner),
        TurnErrorView::NoChoices => "No choices in response"@,
        TurnErrorView::NoContent => "No content in response"@,
        TurnErrorView::NoFunctionCall => "No function calling in response"@,
        TurnErrorView::Extraction(inner) => extraction_error_text(inner),
    }
}

impl ChunkFault {
    /// The fault in words.
    pub fn describe(&self) -> (text: String)
        ensures
            text@ == chunk_fault_text(*self),
    {
        match self {
            ChunkFault::InvalidJson => "Failed to parse JSON".to_owned(),
            ChunkFault::UnexpectedShape => "Unexpected shape of chunk".to_owned(),
            ChunkFault::NoChoices => "No choices".to_owned(),
            ChunkFault::NoContent => "No content".to_owned(),
        }
    }
}

impl DecodeFault {
    /// The fault in words.
    pub fn describe(&self) -> (text: String)
        ensures
            text@ == decode_fault_text(*self),
    {
        match self {
            DecodeFault::InvalidJson => "Failed to parse JSON".to_owned(),
            DecodeFault::UnexpectedShape => "Unexpected shape of response".to_owned(),
        }
    }
}

impl CompletionError {
    /// The failure in words.
    pub fn describe(&self) -> (text: String)
        ensures
            text@ == completion_error_text(self@),
    {
        match self {
            CompletionError::ModeViolation => {
                "The stream flag of the request does not fit the client".to_owned()
            },
            CompletionError::Transport(reason) => {
                "Failed to make request: ".to_owned().concat(reason.as_str())
            },
            CompletionError::UpstreamHttp { status, body } => {
                let number = decimal(*status);
                "HTTP request failed: ".to_owned().concat(number.as_str()).concat(
                    "\nResponse body: ",
                ).concat(body.as_str())
            },
            CompletionError::UpstreamHttpBinary { status, bytes } => {
                let number = decimal(*status);
                "HTTP request failed: ".to_owned().concat(number.as_str()).concat(
                    "\nResponse body is not UTF-8 text",
                )
            },
            CompletionError::InvalidEncoding => "Response is not UTF-8 text".to_owned(),
            CompletionError::MalformedBody(fault) => fault.describe(),
            CompletionError::MalformedChunk(fault) => fault.describe(),
        }
    }
}

impl TurnError {
    /// The failure in words.
    pub fn describe(&self) -> (text: String)
        ensures
            text@ == turn_error_text(self@),
    {
        match self {
            TurnError::Completion(inner) => inner.describe(),
            TurnError::NoChoices => "No choices in response".to_owned(),
            TurnError::NoContent => "No content in response".to_owned(),
            TurnError::NoFunctionCall => "No function calling in response".to_owned(),
            TurnError::Extraction(inner) => match inner {
                ExtractionError::NoChoices => "No choices in response".to_owned(),
                ExtractionError::MalformedArguments => {
                    "Failed to parse function arguments".to_owned()
                },
                ExtractionError::ShapeMismatch => {
                    "Function arguments do not match the expected shape".to_owned()
                },
            },
        }
    }
}

} // verus!
