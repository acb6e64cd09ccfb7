//! What the daemon asks of the compositor and what it makes of the answers.
//!
//! The caller carries the bytes; this module reads the window list, the focused window
//! and the events out of the JSON that comes back, and writes the request that moves a
//! window.

use crate::json::{
    json_as_array, json_as_u64, json_from_bool, json_from_str, json_from_u64, json_get,
    json_member, json_model, json_object, json_parsed, json_text, json_to_string,
    json_unsigned, Json, JsonNumber,
};
use std::collections::HashSet;
use vstd::prelude::*;
use vstd::string::StringExecFns;

verus! {

broadcast use vstd::std_specs::hash::group_hash_axioms;

/// Why the compositor gave no answer that can be used.
#[derive(Clone, Copy, Debug, PartialEq, Eq, Structural)]
pub enum CompositorError {
    /// The answer to a query is no JSON.
    QueryFailed,
    /// The answer names no focused window.
    NoFocus,
    /// A request could not be written.
    CommandFailed,
}

/// An event of the compositor's stream, as far as the daemon cares.
#[derive(Clone, Copy, Debug, PartialEq, Eq, Structural)]
pub enum CompositorEvent {
    /// The workspace with this id became active.
    WorkspaceActivated(u64),
    /// Any other event.
    Other,
    /// A line that is no JSON.
    Undecodable,
}

/// The id that an object carries under the key `id`.
pub open spec fn id_of(doc: Json) -> Option<u64> {
    match json_member(doc, "id"@) {
        Some(id) => json_unsigned(id),
        None => None,
    }
}

/// The ids of the windows that a window list names: those of the elements that carry
/// one. A document that is no array names none.
pub open spec fn listed_windows(doc: Json) -> Set<u64> {
    match doc {
        Json::Array(items) => Set::new(
            |id: u64| exists|i: int| 0 <= i < items.len() && id_of(#[trigger] items[i]) == Some(id),
        ),
        _ => Set::empty(),
    }
}

/// The focused window that an answer names.
pub open spec fn focused_in(doc: Json) -> Result<u64, CompositorError> {
    match id_of(doc) {
        Some(id) => Ok(id),
        None => Err(CompositorError::NoFocus),
    }
}

/// The event that a document of the stream stands for.
pub open spec fn event_of(doc: Json) -> CompositorEvent {
    match json_member(doc, "WorkspaceActivated"@) {
        Some(workspace) => match id_of(workspace) {
            Some(id) => CompositorEvent::WorkspaceActivated(id),
            None => CompositorEvent::Other,
        },
        None => CompositorEvent::Other,
    }
}

/// The request that moves `window` to `workspace` and leaves the focus where it is.
pub open spec fn move_action(window: u64, workspace: u64) -> Json {
    let reference = Json::Object(map!["Id"@ => Json::Number(JsonNumber::Unsigned(workspace))]);
    let fields = Json::Object(
        map![
            "window_id"@ => Json::Number(JsonNumber::Unsigned(window)),
            "focus"@ => Json::Bool(false),
            "reference"@ => reference,
        ],
    );
    Json::Object(map!["Action"@ => Json::Object(map!["MoveWindowToWorkspace"@ => fields])])
}

/// Reads the id that `doc` carries under the key `id`.
fn read_id(doc: &serde_json::Value) -> (id: Option<u64>)
    ensures
        id == id_of(json_model(*doc)),
{
    match json_get(doc, "id") {
        Some(id) => json_as_u64(id),
        None => None,
    }
}

/// The ids of the windows that the window list `doc` names.
pub fn window_ids(doc: &serde_json::Value) -> (ids: HashSet<u64>)
    ensures
        ids@ == listed_windows(json_model(*doc)),
{
    let mut ids: HashSet<u64> = HashSet::new();
    match json_as_array(doc) {
        Some(items) => {
            let ghost models = Seq::new(items@.len(), |i: int| json_model(items@[i]));
            let mut at: usize = 0;
            while at < items.len()
                invariant
                    at <= items.len(),
                    models == Seq::new(items@.len(), |i: int| json_model(items@[i])),
                    forall|id: u64|
                        ids@.contains(id) <==> exists|i: int|
                            0 <= i < at && id_of(#[trigger] models[i]) == Some(id),
                decreases items.len() - at,
            {
                let ghost before = ids@;
                match read_id(&items[at]) {
                    Some(id) => {
                        ids.insert(id);
                    },
                    None => {},
                }
                assert forall|id: u64|
                    ids@.contains(id) <==> exists|i: int|
                        0 <= i < at + 1 && id_of(#[trigger] models[i]) == Some(id) by {
                    if ids@.contains(id) && !before.contains(id) {
                        assert(id_of(models[at as int]) == Some(id));
                    }
                    if exists|i: int| 0 <= i < at + 1 && id_of(#[trigger] models[i]) == Some(id) {
                        let i = choose|i: int|
                            0 <= i < at + 1 && id_of(#[trigger] models[i]) == Some(id);
                        if i < at {
                            assert(before.contains(id));
                        }
                    }
                }
                at += 1;
            }
            assert(ids@ =~= listed_windows(json_model(*doc)));
        },
        None => {
            assert(ids@ =~= listed_windows(json_model(*doc)));
        },
    }
    ids
}

/// Reads the answer to the query for all windows.
pub fn parse_window_list(text: &str) -> (r: Result<HashSet<u64>, CompositorError>)
    ensures
        match r {
            Ok(ids) => json_parsed(text@) matches Some(doc) && ids@ == listed_windows(doc),
            Err(e) => e == CompositorError::QueryFailed && json_parsed(text@) is None,
        },
{
    match json_from_str(text) {
        Ok(doc) => Ok(window_ids(&doc)),
        Err(_) => Err(CompositorError::QueryFailed),
    }
}

/// The focused window that the answer `doc` names.
pub fn focused_window(doc: &serde_json::Value) -> (r: Result<u64, CompositorError>)
    ensures
        r == focused_in(json_model(*doc)),
{
    match read_id(doc) {
        Some(id) => Ok(id),
        None => Err(CompositorError::NoFocus),
    }
}

/// Reads the answer to the query for the focused window.
pub fn parse_focused_window(text: &str) -> (r: Result<u64, CompositorError>)
    ensures
        r == match json_parsed(text@) {
            Some(doc) => focused_in(doc),
            None => Err(CompositorError::QueryFailed),
        },
{
    match json_from_str(text) {
        Ok(doc) => focused_window(&doc),
        Err(_) => Err(CompositorError::QueryFailed),
    }
}

/// The event that the document `doc` of the stream stands for.
pub fn event_in(doc: &serde_json::Value) -> (event: CompositorEvent)
    ensures
        event == event_of(json_model(*doc)),
{
    match json_get(doc, "WorkspaceActivated") {
        Some(workspace) => match read_id(workspace) {
            Some(id) => CompositorEvent::WorkspaceActivated(id),
            None => CompositorEvent::Other,
        },
        None => CompositorEvent::Other,
    }
}

/// Decodes one line of the event stream.
pub fn decode_event(line: &str) -> (event: CompositorEvent)
    ensures
        event == match json_parsed(line@) {
            Some(doc) => event_of(doc),
            None => CompositorEvent::Undecodable,
        },
{
    match json_from_str(line) {
        Ok(doc) => event_in(&doc),
        Err(_) => CompositorEvent::Undecodable,
    }
}

/// The object with the one member `key`.
fn object_of_one(key: &str, member: serde_json::Value) -> (value: serde_json::Value)
    ensures
        json_model(value) == Json::Object(map![key@ => json_model(member)]),
{
    let mut entries: Vec<(String, serde_json::Value)> = Vec::new();
    entries.push((String::from_str(key), member));
    let value = json_object(entries);
    proof {
        let members = json_model(value)->Object_0;
        assert(entries@[0].0@ == key@);
        assert(members =~= map![key@ => json_model(member)]);
    }
    value
}

/// The request that moves `window` to `workspace`, as a JSON value.
pub fn move_request(window: u64, workspace: u64) -> (value: serde_json::Value)
    ensures
        json_model(value) == move_action(window, workspace),
{
    let reference = object_of_one("Id", json_from_u64(workspace));
    let ghost reference_model = json_model(reference);
    let mut entries: Vec<(String, serde_json::Value)> = Vec::new();
    entries.push((String::from_str("window_id"), json_from_u64(window)));
    entries.push((String::from_str("focus"), json_from_bool(false)));
    entries.push((String::from_str("reference"), reference));
    proof {
        reveal_strlit("window_id");
        reveal_strlit("focus");
        reveal_strlit("reference");
        assert("window_id"@[0] != "reference"@[0]);
    }
    let fields = json_object(entries);
    proof {
        let members = json_model(fields)->Object_0;
        assert(entries@[0].0@ == "window_id"@);
        assert(entries@[1].0@ == "focus"@);
        assert(entries@[2].0@ == "reference"@);
        assert(members =~= map![
            "window_id"@ => Json::Number(JsonNumber::Unsigned(window)),
            "focus"@ => Json::Bool(false),
            "reference"@ => reference_model,
        ]);
    }
    object_of_one("Action", object_of_one("MoveWindowToWorkspace", fields))
}

/// Ends a written request with a newline; a request that was not written fails.
pub fn frame_request(written: Result<String, serde_json::Error>) -> (r: Result<
    String,
    CompositorError,
>)
    ensures
        match written {
            Ok(text) => r matches Ok(line) && line@ == text@ + "\n"@,
            Err(_) => r == Err::<String, CompositorError>(CompositorError::CommandFailed),
        },
{
    match written {
        Ok(text) => Ok(text.concat("\n")),
        Err(_) => Err(CompositorError::CommandFailed),
    }
}

/// The line that asks the compositor to move `window` to `workspace`. There is one for
/// every window and every workspace.
pub fn move_command(window: u64, workspace: u64) -> (r: Result<String, CompositorError>)
    ensures
        r is Ok,
        r matches Ok(line) ==> line@ == json_text(move_action(window, workspace)) + "\n"@,
{
    let value = move_request(window, workspace);
    frame_request(json_to_string(&value))
}

/// The line that asks the compositor for its stream of events.
pub fn event_stream_request() -> (line: String)
    ensures
        line@ == "\"EventStream\"\n"@,
{
    String::from_str("\"EventStream\"\n")
}

} // verus!
