use polars_rb_io::json::{json_read_next, JsonReadAction, JsonReadEvent, JsonReadState};
use polars_rb_io::json::{json_parse_failed, json_read_step, json_write_mode, JsonReadStep, JsonWriteMode};

#[test]
fn read_step_fails_on_marker() {
    let msg = String::from("successful parse invalid data at line 1 column 10");
    assert_eq!(json_read_step(msg.clone()), JsonReadStep::Fail(msg));
}

#[test]
fn read_step_falls_back_otherwise() {
    let msg = String::from("expected value at line 1 column 1");
    assert_eq!(json_read_step(msg), JsonReadStep::ReadRowOriented);
    assert_eq!(json_read_step(String::new()), JsonReadStep::ReadRowOriented);
}

#[test]
fn parse_failed_from_serde_syntax_error() {
    let e = serde_json::from_str::<u8>("[").unwrap_err();
    assert_eq!(
        json_parse_failed(&e),
        (JsonReadState::Rows, JsonReadAction::ReadRows, false)
    );
}

#[test]
fn parse_failed_from_serde_data_error_with_marker() {
    // A data error whose text quotes the marker: not an I/O error, so its text is
    // the error's display, and the read fails with exactly that text.
    let e = serde_json::from_str::<u8>("\"successful parse invalid data\"").unwrap_err();
    let text = format!("{e}");
    assert!(text.contains("successful parse invalid data"));
    assert_eq!(
        json_parse_failed(&e),
        (JsonReadState::Done, JsonReadAction::RaiseCompute(text), false)
    );
}

#[test]
fn write_mode_table() {
    assert_eq!(json_write_mode(false, true), JsonWriteMode::RowOriented);
    assert_eq!(json_write_mode(true, true), JsonWriteMode::RowOriented);
    assert_eq!(json_write_mode(true, false), JsonWriteMode::ColumnsPretty);
    assert_eq!(json_write_mode(false, false), JsonWriteMode::ColumnsCompact);
}

#[test]
fn read_machine_happy_columns() {
    assert_eq!(
        json_read_next(JsonReadState::Columns, JsonReadEvent::ColumnsParsed),
        Some((JsonReadState::Done, JsonReadAction::ReturnFrame))
    );
}

#[test]
fn read_machine_marker_raises_compute() {
    let m = String::from("error: successful parse invalid data at line 3 column 1");
    assert_eq!(
        json_read_next(JsonReadState::Columns, JsonReadEvent::ColumnsFailed(m.clone())),
        Some((JsonReadState::Done, JsonReadAction::RaiseCompute(m)))
    );
}

#[test]
fn read_machine_falls_back_to_rows() {
    let step = json_read_next(
        JsonReadState::Columns,
        JsonReadEvent::ColumnsFailed(String::from("expected value at line 1 column 1")),
    );
    assert_eq!(step, Some((JsonReadState::Rows, JsonReadAction::ReadRows)));
    assert_eq!(
        json_read_next(JsonReadState::Rows, JsonReadEvent::RowsParsed),
        Some((JsonReadState::Done, JsonReadAction::ReturnFrame))
    );
    assert_eq!(
        json_read_next(JsonReadState::Rows, JsonReadEvent::RowsFailed(String::from("ComputeError"))),
        Some((JsonReadState::Done, JsonReadAction::RaiseOther(String::from("ComputeError"))))
    );
}

#[test]
fn read_machine_rejects_foreign_events() {
    assert_eq!(json_read_next(JsonReadState::Columns, JsonReadEvent::RowsParsed), None);
    assert_eq!(json_read_next(JsonReadState::Rows, JsonReadEvent::ColumnsParsed), None);
    assert_eq!(json_read_next(JsonReadState::Done, JsonReadEvent::ColumnsParsed), None);
    assert_eq!(
        json_read_next(JsonReadState::Done, JsonReadEvent::RowsFailed(String::from("x"))),
        None
    );
}

#[test]
fn read_machine_ends_within_two_steps() {
    let first = JsonReadEvent::ColumnsFailed(String::from("bad"));
    let (s, _) = json_read_next(JsonReadState::Columns, first).unwrap();
    for second in [JsonReadEvent::RowsParsed, JsonReadEvent::RowsFailed(String::from("e"))] {
        let (t, _) = json_read_next(s, second).unwrap();
        assert_eq!(t, JsonReadState::Done);
    }
}
