//! The numeric error taxonomy and the channel that carries the last failure's
//! message and suggestion.

use vstd::prelude::*;

verus! {

/// Result code of a boundary call. The numbers are stable.
#[derive(Debug, Clone, Copy, PartialEq, Eq, Structural)]
pub enum GblnErrorCode {
    Success,
    ErrorUnexpectedChar,
    ErrorUnterminatedString,
    ErrorUnexpectedToken,
    ErrorUnexpectedEof,
    ErrorInvalidSyntax,
    ErrorIntOutOfRange,
    ErrorStringTooLong,
    ErrorTypeMismatch,
    ErrorInvalidTypeHint,
    ErrorDuplicateKey,
    ErrorNullPointer,
    ErrorIo,
}

impl GblnErrorCode {
    /// The stable number of this code.
    pub open spec fn spec_code(self) -> u32 {
        match self {
            GblnErrorCode::Success => 0,
            GblnErrorCode::ErrorUnexpectedChar => 1,
            GblnErrorCode::ErrorUnterminatedString => 2,
            GblnErrorCode::ErrorUnexpectedToken => 3,
            GblnErrorCode::ErrorUnexpectedEof => 4,
            GblnErrorCode::ErrorInvalidSyntax => 5,
            GblnErrorCode::ErrorIntOutOfRange => 6,
            GblnErrorCode::ErrorStringTooLong => 7,
            GblnErrorCode::ErrorTypeMismatch => 8,
            GblnErrorCode::ErrorInvalidTypeHint => 9,
            GblnErrorCode::ErrorDuplicateKey => 10,
            GblnErrorCode::ErrorNullPointer => 11,
            GblnErrorCode::ErrorIo => 12,
        }
    }

    /// The stable number of this code.
    pub fn code(self) -> (c: u32)
        ensures
            c == self.spec_code(),
    {
        match self {
            GblnErrorCode::Success => 0,
            GblnErrorCode::ErrorUnexpectedChar => 1,
            GblnErrorCode::ErrorUnterminatedString => 2,
            GblnErrorCode::ErrorUnexpectedToken => 3,
            GblnErrorCode::ErrorUnexpectedEof => 4,
            GblnErrorCode::ErrorInvalidSyntax => 5,
            GblnErrorCode::ErrorIntOutOfRange => 6,
            GblnErrorCode::ErrorStringTooLong => 7,
            GblnErrorCode::ErrorTypeMismatch => 8,
            GblnErrorCode::ErrorInvalidTypeHint => 9,
            GblnErrorCode::ErrorDuplicateKey => 10,
            GblnErrorCode::ErrorNullPointer => 11,
            GblnErrorCode::ErrorIo => 12,
        }
    }

    /// The code with the given number, if there is one.
    pub fn from_code(c: u32) -> (code: Option<GblnErrorCode>)
        ensures
            c <= 12 <==> code is Some,
            code is Some ==> code->Some_0.spec_code() == c,
    {
        match c {
            0 => Some(GblnErrorCode::Success),
            1 => Some(GblnErrorCode::ErrorUnexpectedChar),
            2 => Some(GblnErrorCode::ErrorUnterminatedString),
            3 => Some(GblnErrorCode::ErrorUnexpectedToken),
            4 => Some(GblnErrorCode::ErrorUnexpectedEof),
            5 => Some(GblnErrorCode::ErrorInvalidSyntax),
            6 => Some(GblnErrorCode::ErrorIntOutOfRange),
            7 => Some(GblnErrorCode::ErrorStringTooLong),
            8 => Some(GblnErrorCode::ErrorTypeMismatch),
            9 => Some(GblnErrorCode::ErrorInvalidTypeHint),
            10 => Some(GblnErrorCode::ErrorDuplicateKey),
            11 => Some(GblnErrorCode::ErrorNullPointer),
            12 => Some(GblnErrorCode::ErrorIo),
            _ => None,
        }
    }
}

/// The kinds of failure that the engine reports.
#[derive(Debug, Clone, Copy, PartialEq, Eq, Structural)]
pub enum ErrorKind {
    UnexpectedCharacter,
    UnterminatedString,
    UnexpectedToken,
    UnexpectedEof,
    InvalidSyntax,
    IntegerOutOfRange,
    StringTooLong,
    TypeMismatch,
    InvalidTypeHint,
    DuplicateKey,
    IoError,
}

/// A failure reported by the engine: its kind, its rendered message and the
/// remediation hint, where it gave one.
#[derive(Debug, PartialEq)]
pub struct EngineError {
    pub kind: ErrorKind,
    pub message: String,
    pub suggestion: Option<String>,
}

/// What the channel holds after a failure.
pub ghost struct ErrorRecord {
    pub message: Seq<char>,
    pub suggestion: Option<Seq<char>>,
}

/// The characters of an optional text.
pub open spec fn text_view(text: Option<String>) -> Option<Seq<char>> {
    match text {
        Some(s) => Some(s@),
        None => None,
    }
}

/// The record made of a message and an optional suggestion.
pub open spec fn record_of(message: Seq<char>, suggestion: Option<Seq<char>>) -> Option<
    ErrorRecord,
> {
    Some(ErrorRecord { message, suggestion })
}

/// The record made of a message alone.
pub open spec fn message_only(message: Seq<char>) -> Option<ErrorRecord> {
    record_of(message, None)
}

/// The channel holds a record whose message is not empty.
pub open spec fn has_message(record: Option<ErrorRecord>) -> bool {
    record is Some && record->Some_0.message.len() > 0
}

/// The model of what `get_last_error` hands out.
pub open spec fn pair_view(pair: Option<(String, Option<String>)>) -> Option<ErrorRecord> {
    match pair {
        Some((message, suggestion)) => record_of(message@, text_view(suggestion)),
        None => None,
    }
}

impl EngineError {
    /// The record that this failure leaves in the channel.
    pub open spec fn record(&self) -> Option<ErrorRecord> {
        record_of(self.message@, text_view(self.suggestion))
    }
}

/// The code that stands for an engine failure kind.
pub open spec fn kind_code(kind: ErrorKind) -> GblnErrorCode {
    match kind {
        ErrorKind::UnexpectedCharacter => GblnErrorCode::ErrorUnexpectedChar,
        ErrorKind::UnterminatedString => GblnErrorCode::ErrorUnterminatedString,
        ErrorKind::UnexpectedToken => GblnErrorCode::ErrorUnexpectedToken,
        ErrorKind::UnexpectedEof => GblnErrorCode::ErrorUnexpectedEof,
        ErrorKind::InvalidSyntax => GblnErrorCode::ErrorInvalidSyntax,
        ErrorKind::IntegerOutOfRange => GblnErrorCode::ErrorIntOutOfRange,
        ErrorKind::StringTooLong => GblnErrorCode::ErrorStringTooLong,
        ErrorKind::TypeMismatch => GblnErrorCode::ErrorTypeMismatch,
        ErrorKind::InvalidTypeHint => GblnErrorCode::ErrorInvalidTypeHint,
        ErrorKind::DuplicateKey => GblnErrorCode::ErrorDuplicateKey,
        ErrorKind::IoError => GblnErrorCode::ErrorIo,
    }
}

/// Maps an engine failure kind to its code.
pub fn map_error_kind(kind: &ErrorKind) -> (code: GblnErrorCode)
    ensures
        code == kind_code(*kind),
{
    match kind {
        ErrorKind::UnexpectedCharacter => GblnErrorCode::ErrorUnexpectedChar,
        ErrorKind::UnterminatedString => GblnErrorCode::ErrorUnterminatedString,
        ErrorKind::UnexpectedToken => GblnErrorCode::ErrorUnexpectedToken,
        ErrorKind::UnexpectedEof => GblnErrorCode::ErrorUnexpectedEof,
        ErrorKind::InvalidSyntax => GblnErrorCode::ErrorInvalidSyntax,
        ErrorKind::IntegerOutOfRange => GblnErrorCode::ErrorIntOutOfRange,
        ErrorKind::StringTooLong => GblnErrorCode::ErrorStringTooLong,
        ErrorKind::TypeMismatch => GblnErrorCode::ErrorTypeMismatch,
        ErrorKind::InvalidTypeHint => GblnErrorCode::ErrorInvalidTypeHint,
        ErrorKind::DuplicateKey => GblnErrorCode::ErrorDuplicateKey,
        ErrorKind::IoError => GblnErrorCode::ErrorIo,
    }
}

/// An engine failure never maps to success nor to the null-pointer code, and
/// the ten kinds other than I/O take the numbers one to ten.
pub proof fn lemma_kind_code_range(kind: ErrorKind)
    ensures
        kind_code(kind) != GblnErrorCode::Success,
        kind_code(kind) != GblnErrorCode::ErrorNullPointer,
        kind != ErrorKind::IoError ==> 1 <= kind_code(kind).spec_code() <= 10,
        kind == ErrorKind::IoError <==> kind_code(kind) == GblnErrorCode::ErrorIo,
{
}

/// Distinct engine failure kinds have distinct codes.
pub proof fn lemma_kind_code_injective(a: ErrorKind, b: ErrorKind)
    requires
        kind_code(a) == kind_code(b),
    ensures
        a == b,
{
}

/// Distinct codes have distinct numbers.
pub proof fn lemma_code_number_injective(a: GblnErrorCode, b: GblnErrorCode)
    requires
        a.spec_code() == b.spec_code(),
    ensures
        a == b,
{
}

/// The slot that holds the last failure of one thread of calls: empty until
/// the first failure, overwritten by each later one.
#[derive(Debug)]
pub struct ErrorChannel {
    last: Option<(String, Option<String>)>,
}

impl View for ErrorChannel {
    type V = Option<ErrorRecord>;

    closed spec fn view(&self) -> Option<ErrorRecord> {
        pair_view(self.last)
    }
}

impl ErrorChannel {
    /// A channel on which nothing has failed yet.
    pub fn new() -> (channel: ErrorChannel)
        ensures
            channel@ is None,
    {
        ErrorChannel { last: None }
    }
}

/// Overwrites the channel with a message and an optional suggestion.
pub fn set_last_error(channel: &mut ErrorChannel, msg: String, suggestion: Option<String>)
    ensures
        final(channel)@ == record_of(msg@, text_view(suggestion)),
{
    channel.last = Some((msg, suggestion));
}

/// A copy of the message and suggestion that the channel holds.
pub fn get_last_error(channel: &ErrorChannel) -> (last: Option<(String, Option<String>)>)
    ensures
        pair_view(last) == channel@,
{
    match &channel.last {
        Some((message, suggestion)) => {
            let hint = match suggestion {
                Some(s) => Some(s.clone()),
                None => None,
            };
            Some((message.clone(), hint))
        },
        None => None,
    }
}

} // verus!
