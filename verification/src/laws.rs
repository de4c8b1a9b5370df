//! Properties of the decisions above that hold for all inputs.
use vstd::prelude::*;
use vstd::utf8::{encode_utf8, is_ascii_chars, is_ascii_chars_encode_utf8};
use crate::json::{
    invalid_data_marker, json_read_transition, JsonReadAction, JsonReadEvent, JsonReadState,
};
use crate::reader::quote_byte;
use crate::text::{
    contains_bytes, contains_text, leading_byte, lemma_encode_utf8_concat, lemma_encode_utf8_empty,
    occurs_at,
};

verus! {

/// An empty quote argument asks for no quote character, exactly as an absent one.
pub proof fn law_empty_quote_is_no_quote(q: String)
    requires
        q@.len() == 0,
    ensures
        quote_byte(Some(q)) == quote_byte(None),
{
    assert(encode_utf8(q@).len() == 0);
}

/// A text that occurs in a message still occurs when the message is embedded in a
/// longer one. In particular, a parse error whose message holds the invalid-data
/// marker still fails the read when the line and column are appended to it.
pub proof fn law_marker_survives_embedding(prefix: Seq<char>, message: Seq<char>, suffix: Seq<char>)
    requires
        contains_text(message, invalid_data_marker()),
    ensures
        contains_text(prefix + message + suffix, invalid_data_marker()),
{
    let k = encode_utf8(invalid_data_marker());
    let p = encode_utf8(prefix);
    let m = encode_utf8(message);
    let s = encode_utf8(suffix);
    lemma_encode_utf8_concat(prefix, message);
    lemma_encode_utf8_concat(prefix + message, suffix);
    let whole = encode_utf8(prefix + message + suffix);
    assert(whole == p + m + s);
    let i = choose|i: int| #[trigger] occurs_at(m, k, i);
    let j = i + p.len();
    assert(whole.subrange(j, j + k.len()) =~= m.subrange(i, i + k.len()));
    assert(occurs_at(whole, k, j));
    assert(contains_bytes(whole, k));
}

/// A JSON read ends within two steps: after the first event, the state is either
/// `Done` or one whose every possible event leads to `Done`.
pub proof fn law_json_read_ends_within_two_steps(first: JsonReadEvent, second: JsonReadEvent)
    ensures
        json_read_transition(JsonReadState::Columns, first) matches Some((s, a)) ==> (s
            == JsonReadState::Done || json_read_transition(s, second) is None || (json_read_transition(
            s,
            second,
        ) matches Some((t, b)) && t == JsonReadState::Done)),
{
}

/// A JSON read raises a compute error only with a message that holds the
/// invalid-data marker, and only that message.
pub proof fn law_json_compute_error_only_on_marker(state: JsonReadState, event: JsonReadEvent)
    ensures
        json_read_transition(state, event) matches Some((s, JsonReadAction::RaiseCompute(m))) ==> (
        contains_text(m@, invalid_data_marker()) && event == JsonReadEvent::ColumnsFailed(m)),
{
}

/// A JSON read turns to the row-oriented reader only after the column-oriented parse
/// failed with a message that lacks the invalid-data marker.
pub proof fn law_json_rows_only_after_plain_failure(state: JsonReadState, event: JsonReadEvent)
    ensures
        json_read_transition(state, event) matches Some((s, JsonReadAction::ReadRows)) ==> (state
            == JsonReadState::Columns && (event matches JsonReadEvent::ColumnsFailed(m)
            && !contains_text(m@, invalid_data_marker()))),
{
}

/// A text has a leading byte exactly when it is not empty; only its first character
/// decides that byte: whatever follows it leaves the byte unchanged.
pub proof fn law_leading_byte_depends_on_first_char(a: Seq<char>, b: Seq<char>)
    ensures
        leading_byte(a) is None <==> a.len() == 0,
        a.len() > 0 ==> leading_byte(a + b) == leading_byte(a),
        a.len() > 0 ==> leading_byte(a + b) == leading_byte(a.take(1)),
{
    lemma_encode_utf8_empty(a);
    if a.len() > 0 {
        lemma_encode_utf8_concat(a, b);
        lemma_encode_utf8_empty(a.take(1));
        assert(a =~= a.take(1) + a.skip(1));
        lemma_encode_utf8_concat(a.take(1), a.skip(1));
        assert(encode_utf8(a) == encode_utf8(a.take(1)) + encode_utf8(a.skip(1)));
        assert((encode_utf8(a) + encode_utf8(b))[0] == encode_utf8(a)[0]);
        assert((encode_utf8(a.take(1)) + encode_utf8(a.skip(1)))[0] == encode_utf8(a.take(1))[0]);
    }
}

/// For a text of ASCII characters (the usual separator, end-of-line or quote
/// argument, such as "," or "'"), the leading byte is its first character's code.
pub proof fn law_leading_byte_of_ascii_text(s: Seq<char>)
    requires
        is_ascii_chars(s),
        s.len() > 0,
    ensures
        leading_byte(s) == Some(s[0] as u8),
{
    is_ascii_chars_encode_utf8(s);
}

/// A non-empty quote argument makes its own first byte the quote character: for an
/// ASCII argument, its first character. Two quote arguments that start with the
/// same character give the same quote character.
pub proof fn law_quote_char_is_the_arguments_first_byte(q: String, r: String)
    ensures
        q@.len() > 0 ==> quote_byte(Some(q)) == Some(encode_utf8(q@)[0]),
        q@.len() > 0 && is_ascii_chars(q@) ==> quote_byte(Some(q)) == Some(q@[0] as u8),
        q@.len() > 0 && r@.len() > 0 && q@[0] == r@[0] ==> quote_byte(Some(q)) == quote_byte(
            Some(r),
        ),
        quote_byte(None) is None,
{
    lemma_encode_utf8_empty(q@);
    if q@.len() > 0 {
        if is_ascii_chars(q@) {
            law_leading_byte_of_ascii_text(q@);
        }
        if r@.len() > 0 && q@[0] == r@[0] {
            law_leading_byte_depends_on_first_char(q@, Seq::empty());
            law_leading_byte_depends_on_first_char(r@, Seq::empty());
            assert(q@.take(1) =~= r@.take(1));
        }
    }
}

/// A failed row-oriented read always ends the read with an error that carries the
/// reader's text, whatever that text is.
pub proof fn law_json_row_failure_raises_its_text(text: String)
    ensures
        json_read_transition(JsonReadState::Rows, JsonReadEvent::RowsFailed(text)) == Some(
            (JsonReadState::Done, JsonReadAction::RaiseOther(text)),
        ),
{
}

/// A JSON read returns a frame only right after one of its parses gave a frame,
/// and every such parse returns it at once.
pub proof fn law_json_frame_only_after_a_parse(state: JsonReadState, event: JsonReadEvent)
    ensures
        json_read_transition(state, event) matches Some((s, JsonReadAction::ReturnFrame)) ==> (
        event == JsonReadEvent::ColumnsParsed || event == JsonReadEvent::RowsParsed),
        json_read_transition(JsonReadState::Columns, JsonReadEvent::ColumnsParsed) == Some(
            (JsonReadState::Done, JsonReadAction::ReturnFrame),
        ),
        json_read_transition(JsonReadState::Rows, JsonReadEvent::RowsParsed) == Some(
            (JsonReadState::Done, JsonReadAction::ReturnFrame),
        ),
{
}

/// A generic error is raised only for a failed row-oriented read, with its text; an
/// ended read takes no further event.
pub proof fn law_json_other_error_only_after_row_failure(state: JsonReadState, event: JsonReadEvent)
    ensures
        json_read_transition(state, event) matches Some((s, JsonReadAction::RaiseOther(t))) ==> (
        state == JsonReadState::Rows && event == JsonReadEvent::RowsFailed(t)),
        json_read_transition(JsonReadState::Done, event) is None,
{
}

/// Substring search: every text occurs in itself and in any text that embeds it,
/// the empty text occurs everywhere, and a text occurs only in texts whose encoding
/// is at least as long.
pub proof fn law_contains_text_embedding(prefix: Seq<char>, needle: Seq<char>, suffix: Seq<char>, haystack: Seq<char>)
    ensures
        contains_text(prefix + needle + suffix, needle),
        contains_text(needle, needle),
        contains_text(haystack, Seq::empty()),
        contains_text(haystack, needle) ==> encode_utf8(needle).len() <= encode_utf8(haystack).len(),
{
    let p = encode_utf8(prefix);
    let n = encode_utf8(needle);
    lemma_encode_utf8_concat(prefix, needle);
    lemma_encode_utf8_concat(prefix + needle, suffix);
    let whole = encode_utf8(prefix + needle + suffix);
    assert(whole.subrange(p.len() as int, (p.len() + n.len()) as int) =~= n);
    assert(occurs_at(whole, n, p.len() as int));
    assert(n.subrange(0, n.len() as int) =~= n);
    assert(occurs_at(n, n, 0));
    lemma_encode_utf8_empty(Seq::<char>::empty());
    assert(encode_utf8(haystack).subrange(0, 0) =~= encode_utf8(Seq::<char>::empty()));
    assert(occurs_at(encode_utf8(haystack), encode_utf8(Seq::<char>::empty()), 0));
}

} // verus!
