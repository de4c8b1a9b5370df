//! JSON: how a failed column-oriented parse is answered, and which encoder a JSON
//! write uses.
use vstd::prelude::*;
use crate::text::{contains, contains_text};

verus! {

#[verifier::external_type_specification]
#[verifier::external_body]
pub struct ExJsonError(serde_json::Error);

/// The text that marks a column-oriented parse whose input was well-formed JSON but
/// did not describe a data frame.
pub open spec fn invalid_data_marker() -> Seq<char> {
    "successful parse invalid data"@
}

/// What the JSON reader does after the column-oriented parse failed with a message.
#[derive(Debug, PartialEq, Eq)]
pub enum JsonReadStep {
    /// Give up with a compute error that carries the message.
    Fail(String),
    /// Read the same bytes again as row-oriented JSON.
    ReadRowOriented,
}

/// The step that follows a failed column-oriented parse whose error reads `message`:
/// a failure carrying the message when the message holds the invalid-data marker,
/// a row-oriented read otherwise.
pub fn json_read_step(message: String) -> (step: JsonReadStep)
    ensures
        contains_text(message@, invalid_data_marker()) ==> step == JsonReadStep::Fail(message),
        !contains_text(message@, invalid_data_marker()) ==> step == JsonReadStep::ReadRowOriented,
{
    if contains(message.as_str(), "successful parse invalid data") {
        JsonReadStep::Fail(message)
    } else {
        JsonReadStep::ReadRowOriented
    }
}

/// The text that `Display` writes for a `serde_json::Error`: its code's message, then
/// " at line L column C" where the error has a line. It depends on the error alone.
pub uninterp spec fn json_error_display(e: serde_json::Error) -> Seq<char>;

/// Whether a `serde_json::Error` wraps an I/O error (what `Error::is_io` reports).
/// Such an error displays the operating system's message, which is not a function
/// of the error value; `serde_json::from_slice` never gives one.
pub uninterp spec fn json_error_io(e: serde_json::Error) -> bool;

/// Whether `e` wraps an I/O error: `serde_json::Error::is_io`.
#[verifier::external_body]
fn json_error_is_io(e: &serde_json::Error) -> (io: bool)
    ensures
        io == json_error_io(*e),
{
    e.is_io()
}

/// The text that `Display` gives for a `serde_json::Error` (what `format!("{e}")`
/// writes). For an error that does not wrap an I/O error it is
/// [`json_error_display`] of the error; for one that does, the operating system's
/// message, of which nothing is stated.
#[verifier::external_body]
fn json_error_text(e: &serde_json::Error) -> (text: String)
    ensures
        !json_error_io(*e) ==> text@ == json_error_display(*e),
{
    format!("{}", e)
}

/// The encoder that a JSON write uses.
#[derive(Debug, Clone, Copy, PartialEq, Eq)]
pub enum JsonWriteMode {
    /// The engine's row-oriented JSON writer (an array of records).
    RowOriented,
    /// The column-oriented serialisation of the data frame, indented.
    ColumnsPretty,
    /// The column-oriented serialisation of the data frame, compact.
    ColumnsCompact,
}

/// The encoder for the `pretty` and `row_oriented` flags: row orientation wins over
/// pretty printing, which the row-oriented writer does not offer.
pub fn json_write_mode(pretty: bool, row_oriented: bool) -> (mode: JsonWriteMode)
    ensures
        row_oriented ==> mode == JsonWriteMode::RowOriented,
        !row_oriented && pretty ==> mode == JsonWriteMode::ColumnsPretty,
        !row_oriented && !pretty ==> mode == JsonWriteMode::ColumnsCompact,
{
    if row_oriented {
        JsonWriteMode::RowOriented
    } else if pretty {
        JsonWriteMode::ColumnsPretty
    } else {
        JsonWriteMode::ColumnsCompact
    }
}

/// Where a JSON read stands: the column-oriented parse is under way, the
/// row-oriented read is under way, or the read has ended.
#[derive(Debug, Clone, Copy, PartialEq, Eq)]
pub enum JsonReadState {
    Columns,
    Rows,
    Done,
}

/// What the outside work of a JSON read reported.
#[derive(Debug, PartialEq, Eq)]
pub enum JsonReadEvent {
    /// The column-oriented parse gave a data frame.
    ColumnsParsed,
    /// The column-oriented parse failed; the text of its error.
    ColumnsFailed(String),
    /// The row-oriented read gave a data frame.
    RowsParsed,
    /// The row-oriented read failed; the debug text of its error.
    RowsFailed(String),
}

/// What a JSON read does next.
#[derive(Debug, PartialEq, Eq)]
pub enum JsonReadAction {
    /// Read the same bytes as row-oriented JSON.
    ReadRows,
    /// Return the data frame that was read.
    ReturnFrame,
    /// Raise a compute error with the text.
    RaiseCompute(String),
    /// Raise a generic error with the text.
    RaiseOther(String),
}

/// The transition table of a JSON read: for a state and an event, the next state and
/// action, or `None` for an event that cannot happen in that state. A read starts in
/// `Columns`.
pub open spec fn json_read_transition(state: JsonReadState, event: JsonReadEvent) -> Option<
    (JsonReadState, JsonReadAction),
> {
    match (state, event) {
        (JsonReadState::Columns, JsonReadEvent::ColumnsParsed) => Some(
            (JsonReadState::Done, JsonReadAction::ReturnFrame),
        ),
        (JsonReadState::Columns, JsonReadEvent::ColumnsFailed(m)) => if contains_text(
            m@,
            invalid_data_marker(),
        ) {
            Some((JsonReadState::Done, JsonReadAction::RaiseCompute(m)))
        } else {
            Some((JsonReadState::Rows, JsonReadAction::ReadRows))
        },
        (JsonReadState::Rows, JsonReadEvent::RowsParsed) => Some(
            (JsonReadState::Done, JsonReadAction::ReturnFrame),
        ),
        (JsonReadState::Rows, JsonReadEvent::RowsFailed(t)) => Some(
            (JsonReadState::Done, JsonReadAction::RaiseOther(t)),
        ),
        _ => None,
    }
}

/// One step of a JSON read, by [`json_read_transition`].
pub fn json_read_next(state: JsonReadState, event: JsonReadEvent) -> (r: Option<(JsonReadState, JsonReadAction)>)
    ensures
        r == json_read_transition(state, event),
{
    match state {
        JsonReadState::Columns => match event {
            JsonReadEvent::ColumnsParsed => Some((JsonReadState::Done, JsonReadAction::ReturnFrame)),
            JsonReadEvent::ColumnsFailed(message) => match json_read_step(message) {
                JsonReadStep::Fail(m) => Some((JsonReadState::Done, JsonReadAction::RaiseCompute(m))),
                JsonReadStep::ReadRowOriented => Some((JsonReadState::Rows, JsonReadAction::ReadRows)),
            },
            _ => None,
        },
        JsonReadState::Rows => match event {
            JsonReadEvent::RowsParsed => Some((JsonReadState::Done, JsonReadAction::ReturnFrame)),
            JsonReadEvent::RowsFailed(text) => Some((JsonReadState::Done, JsonReadAction::RaiseOther(text))),
            _ => None,
        },
        JsonReadState::Done => None,
    }
}

/// The first step of a JSON read whose column-oriented parse failed with `e`: the
/// transition for the event that carries the error's text, and whether the error
/// wraps an I/O error. For an error that does not, the text is
/// [`json_error_display`] of the error: the step is a compute error carrying exactly
/// that text when it holds the invalid-data marker, a row-oriented read otherwise.
/// Whatever the text is, the step is one the table gives for some text, and a
/// compute error carries a message that holds the marker.
pub fn json_parse_failed(e: &serde_json::Error) -> (r: (JsonReadState, JsonReadAction, bool))
    ensures
        r.2 == json_error_io(*e),
        !r.2 && contains_text(json_error_display(*e), invalid_data_marker()) ==> (r.0
            == JsonReadState::Done && (r.1 matches JsonReadAction::RaiseCompute(m) && m@
            == json_error_display(*e))),
        !r.2 && !contains_text(json_error_display(*e), invalid_data_marker()) ==> r.0
            == JsonReadState::Rows && r.1 == JsonReadAction::ReadRows,
        exists|text: String|
            #[trigger] json_read_transition(JsonReadState::Columns, JsonReadEvent::ColumnsFailed(text))
                == Some((r.0, r.1)),
        r.1 matches JsonReadAction::RaiseCompute(m) ==> contains_text(m@, invalid_data_marker()),
{
    let io = json_error_is_io(e);
    let text = json_error_text(e);
    let ghost event = JsonReadEvent::ColumnsFailed(text);
    match json_read_next(JsonReadState::Columns, JsonReadEvent::ColumnsFailed(text)) {
        Some((state, action)) => {
            assert(json_read_transition(JsonReadState::Columns, event) == Some((state, action)));
            (state, action, io)
        },
        None => {
            proof {
                assert(false);
            }
            (JsonReadState::Done, JsonReadAction::ReadRows, io)
        },
    }
}

} // verus!
