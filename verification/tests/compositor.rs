use nsticky::compositor::{
    decode_event, event_in, event_stream_request, focused_window, frame_request, move_command,
    move_request, parse_focused_window, parse_window_list, window_ids, CompositorError,
    CompositorEvent,
};
use std::collections::HashSet;

fn value(text: &str) -> serde_json::Value {
    serde_json::from_str(text).unwrap()
}

fn set(ids: &[u64]) -> HashSet<u64> {
    ids.iter().copied().collect()
}

#[test]
fn a_window_list_names_the_ids_of_its_elements() {
    let text = r#"[{"id": 1, "title": "a"}, {"id": 3, "workspace_id": 2}, {"id": 18446744073709551615}]"#;
    assert_eq!(parse_window_list(text), Ok(set(&[1, 3, u64::MAX])));
    assert_eq!(window_ids(&value(text)), set(&[1, 3, u64::MAX]));
}

#[test]
fn elements_without_a_usable_id_are_passed_over() {
    let text = r#"[{"id": 1}, {"title": "no id"}, {"id": -4}, {"id": 2.5}, {"id": "7"}, {"id": null}, 9, [8], null, {"id": 1}, {"id": 6}]"#;
    assert_eq!(parse_window_list(text), Ok(set(&[1, 6])));
}

#[test]
fn a_document_that_is_no_array_names_no_window() {
    assert_eq!(parse_window_list("[]"), Ok(set(&[])));
    assert_eq!(parse_window_list(r#"{"id": 1}"#), Ok(set(&[])));
    assert_eq!(parse_window_list("5"), Ok(set(&[])));
    assert_eq!(parse_window_list("null"), Ok(set(&[])));
    assert_eq!(parse_window_list(" [ ] \n"), Ok(set(&[])));
}

#[test]
fn a_window_list_that_is_no_json_fails() {
    assert_eq!(parse_window_list(""), Err(CompositorError::QueryFailed));
    assert_eq!(parse_window_list("[{\"id\": 1}"), Err(CompositorError::QueryFailed));
    assert_eq!(parse_window_list("[1] [2]"), Err(CompositorError::QueryFailed));
    assert_eq!(parse_window_list("windows"), Err(CompositorError::QueryFailed));
}

#[test]
fn the_focused_window_is_read_from_its_id() {
    assert_eq!(parse_focused_window(r#"{"id": 12, "title": "t"}"#), Ok(12));
    assert_eq!(parse_focused_window(r#"{"id": 0}"#), Ok(0));
    assert_eq!(focused_window(&value(r#"{"title": "t", "id": 7}"#)), Ok(7));
}

#[test]
fn an_answer_without_a_focused_window_says_so() {
    assert_eq!(parse_focused_window("null"), Err(CompositorError::NoFocus));
    assert_eq!(parse_focused_window("{}"), Err(CompositorError::NoFocus));
    assert_eq!(parse_focused_window(r#"{"id": -1}"#), Err(CompositorError::NoFocus));
    assert_eq!(parse_focused_window(r#"{"id": "12"}"#), Err(CompositorError::NoFocus));
    assert_eq!(parse_focused_window(r#"[{"id": 12}]"#), Err(CompositorError::NoFocus));
    assert_eq!(parse_focused_window("12"), Err(CompositorError::NoFocus));
    assert_eq!(focused_window(&value(r#"{"Id": 7}"#)), Err(CompositorError::NoFocus));
}

#[test]
fn a_focused_window_answer_that_is_no_json_fails() {
    assert_eq!(parse_focused_window(""), Err(CompositorError::QueryFailed));
    assert_eq!(parse_focused_window("{\"id\": 12"), Err(CompositorError::QueryFailed));
}

#[test]
fn a_workspace_activation_is_decoded() {
    assert_eq!(
        decode_event("{\"WorkspaceActivated\":{\"id\":4,\"focused\":true}}\n"),
        CompositorEvent::WorkspaceActivated(4)
    );
    assert_eq!(
        event_in(&value(r#"{"WorkspaceActivated": {"focused": false, "id": 18446744073709551615}}"#)),
        CompositorEvent::WorkspaceActivated(u64::MAX)
    );
}

#[test]
fn other_events_are_told_apart_from_lines_that_are_no_json() {
    assert_eq!(decode_event("{\"WindowFocusChanged\":{\"id\":4}}\n"), CompositorEvent::Other);
    assert_eq!(decode_event("{\"Ok\":\"Handled\"}\n"), CompositorEvent::Other);
    assert_eq!(decode_event("{\"WorkspaceActivated\":{\"focused\":true}}\n"), CompositorEvent::Other);
    assert_eq!(decode_event("{\"WorkspaceActivated\":{\"id\":-4}}\n"), CompositorEvent::Other);
    assert_eq!(decode_event("{\"WorkspaceActivated\":4}\n"), CompositorEvent::Other);
    assert_eq!(decode_event("[{\"WorkspaceActivated\":{\"id\":4}}]\n"), CompositorEvent::Other);
    assert_eq!(decode_event("7\n"), CompositorEvent::Other);
    assert_eq!(decode_event("\n"), CompositorEvent::Undecodable);
    assert_eq!(decode_event("{\"WorkspaceActivated\":\n"), CompositorEvent::Undecodable);
    assert_eq!(decode_event("not json\n"), CompositorEvent::Undecodable);
}

fn object(entries: Vec<(&str, serde_json::Value)>) -> serde_json::Value {
    entries.into_iter().map(|(key, member)| (key.to_string(), member)).collect()
}

fn expected_move(window: u64, workspace: u64) -> serde_json::Value {
    object(vec![(
        "Action",
        object(vec![(
            "MoveWindowToWorkspace",
            object(vec![
                ("window_id", serde_json::Value::from(window)),
                ("focus", serde_json::Value::from(false)),
                ("reference", object(vec![("Id", serde_json::Value::from(workspace))])),
            ]),
        )]),
    )])
}

#[test]
fn a_move_request_names_window_workspace_and_focus() {
    assert_eq!(move_request(3, 5), expected_move(3, 5));
    assert_eq!(move_request(0, u64::MAX), expected_move(0, u64::MAX));
    let request = move_request(3, 5);
    let fields = &request["Action"]["MoveWindowToWorkspace"];
    assert_eq!(fields["window_id"].as_u64(), Some(3));
    assert_eq!(fields["focus"].as_bool(), Some(false));
    assert_eq!(fields["reference"]["Id"].as_u64(), Some(5));
    assert_eq!(fields.as_object().unwrap().len(), 3);
}

#[test]
fn a_move_command_is_one_line_of_json() {
    let line = move_command(3, 5).unwrap();
    assert_eq!(
        line,
        "{\"Action\":{\"MoveWindowToWorkspace\":{\"focus\":false,\"reference\":{\"Id\":5},\"window_id\":3}}}\n"
    );
    let line = move_command(u64::MAX, 0).unwrap();
    assert!(line.ends_with('\n'));
    assert_eq!(line.matches('\n').count(), 1);
    assert_eq!(value(&line), expected_move(u64::MAX, 0));
    assert_eq!(line, serde_json::to_string(&expected_move(u64::MAX, 0)).unwrap() + "\n");
}

#[test]
fn a_move_command_is_written_for_every_window_and_workspace() {
    for window in [0, 1, 9, 10, 4294967296, u64::MAX - 1, u64::MAX] {
        for workspace in [0, 1, 7, 100, u64::MAX] {
            let line = move_command(window, workspace).unwrap();
            assert_eq!(line.matches('\n').count(), 1);
            assert!(line.ends_with('\n'));
            assert_eq!(value(&line), expected_move(window, workspace));
        }
    }
}

#[test]
fn a_written_request_gets_its_newline_and_a_failed_one_fails() {
    assert_eq!(frame_request(Ok("{}".to_string())), Ok("{}\n".to_string()));
    assert_eq!(frame_request(Ok(String::new())), Ok("\n".to_string()));
    let error = serde_json::from_str::<serde_json::Value>("{").unwrap_err();
    assert_eq!(frame_request(Err(error)), Err(CompositorError::CommandFailed));
}

#[test]
fn the_event_stream_is_asked_for_by_name() {
    assert_eq!(event_stream_request(), "\"EventStream\"\n");
    assert_eq!(value(&event_stream_request()), serde_json::Value::from("EventStream"));
}
