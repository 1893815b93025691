//! Event dispatch: the payload the host sends, the response the plugin
//! answers with, the exact response for every event, and the handler that
//! parses, dispatches and serializes in one step.

use vstd::prelude::*;
use vstd::string::StringExecFns;
use crate::text::{opt_dec_text, opt_raw, quoted, push_opt_dec, push_opt_raw,
    push_quoted};
use crate::jsondata::{JsonData, json_as_str, json_from_str, json_get, json_of};

verus! {

/// What the plugin reads of an event's opaque data payload: the string under
/// its `value` member, where there is one.
pub struct EventData {
    pub value: Option<String>,
}

/// An event sent by the host: the handler it names, the kind of event, and
/// the data payload, if any.
pub struct EventPayload {
    pub id: String,
    pub event_type: String,
    pub data: Option<EventData>,
}

/// One UI update of a response: the element it targets, the kind of update,
/// and the patch as raw JSON text.
pub struct UIUpdate {
    pub target_id: String,
    pub update_type: String,
    pub data: String,
}

/// A transient user-facing message with a severity level and an optional
/// display duration in milliseconds.
pub struct Notification {
    pub level: String,
    pub message: String,
    pub duration: Option<u32>,
}

/// The plugin's answer to an event: UI updates in order, an opaque state
/// snapshot as raw JSON text, and notifications, if any.
pub struct EventResponse {
    pub updates: Vec<UIUpdate>,
    pub state: Option<String>,
    pub notifications: Option<Vec<Notification>>,
}

/// The mathematical shape of an event: handler name, event kind, and the
/// string under the data payload's `value` member, if any.
#[verifier::ext_equal]
pub ghost struct EventView {
    pub id: Seq<char>,
    pub event_type: Seq<char>,
    pub value: Option<Seq<char>>,
}

/// The mathematical shape of one UI update.
#[verifier::ext_equal]
pub ghost struct UpdateView {
    pub target_id: Seq<char>,
    pub update_type: Seq<char>,
    pub data: Seq<char>,
}

/// The mathematical shape of one notification.
#[verifier::ext_equal]
pub ghost struct NoteView {
    pub level: Seq<char>,
    pub message: Seq<char>,
    pub duration: Option<u32>,
}

/// The mathematical shape of a response.
#[verifier::ext_equal]
pub ghost struct ResponseView {
    pub updates: Seq<UpdateView>,
    pub state: Option<Seq<char>>,
    pub notifications: Option<Seq<NoteView>>,
}

impl View for EventPayload {
    type V = EventView;

    open spec fn view(&self) -> EventView {
        EventView {
            id: self.id@,
            event_type: self.event_type@,
            value: match self.data {
                Some(d) => d.value.deep_view(),
                None => None,
            },
        }
    }
}

impl View for UIUpdate {
    type V = UpdateView;

    open spec fn view(&self) -> UpdateView {
        UpdateView { target_id: self.target_id@, update_type: self.update_type@, data: self.data@ }
    }
}

impl DeepView for UIUpdate {
    type V = UpdateView;

    open spec fn deep_view(&self) -> UpdateView {
        self.view()
    }
}

impl View for Notification {
    type V = NoteView;

    open spec fn view(&self) -> NoteView {
        NoteView { level: self.level@, message: self.message@, duration: self.duration }
    }
}

impl DeepView for Notification {
    type V = NoteView;

    open spec fn deep_view(&self) -> NoteView {
        self.view()
    }
}

impl View for EventResponse {
    type V = ResponseView;

    open spec fn view(&self) -> ResponseView {
        ResponseView {
            updates: self.updates.deep_view(),
            state: self.state.deep_view(),
            notifications: self.notifications.deep_view(),
        }
    }
}

/// The string member of a JSON object under `key`, where the document is an
/// object and the member is a string.
pub open spec fn obj_str_member(j: JsonData, key: Seq<char>) -> Option<Seq<char>> {
    match j {
        JsonData::Obj(m) => {
            if m.contains_key(key) && m[key] is Str {
                Some(m[key]->Str_0)
            } else {
                None
            }
        },
        _ => None,
    }
}

/// The event described by a JSON document: an object whose `id` and
/// `event_type` members are strings; its `value` is the string under the
/// `data` member's `value`, where there is one. Every other document is no
/// event.
pub open spec fn event_of_json(j: JsonData) -> Option<EventView> {
    match j {
        JsonData::Obj(m) => {
            if m.contains_key("id"@) && m["id"@] is Str && m.contains_key("event_type"@)
                && m["event_type"@] is Str {
                Some(EventView {
                    id: m["id"@]->Str_0,
                    event_type: m["event_type"@]->Str_0,
                    value: if m.contains_key("data"@) {
                        obj_str_member(m["data"@], "value"@)
                    } else {
                        None
                    },
                })
            } else {
                None
            }
        },
        _ => None,
    }
}

/// The patch replacing a text node's content with `msg`.
pub open spec fn value_patch_text(msg: Seq<char>) -> Seq<char> {
    "{\"value\":"@ + quoted(msg) + "}"@
}

/// The state snapshot recording the last handled event.
pub open spec fn state_snapshot_text(id: Seq<char>) -> Seq<char> {
    "{\"event_count\":1,\"last_event\":"@ + quoted(id) + "}"@
}

/// The update that replaces the welcome text node's content with `msg`.
pub open spec fn welcome_update(msg: Seq<char>) -> UpdateView {
    UpdateView { target_id: "welcome"@, update_type: "replace"@, data: value_patch_text(msg) }
}

/// The exact response to an event with handler name `id` and data value
/// `value`: `handle_click` replaces the welcome text and reports success;
/// `handle_input_change` echoes a typed string, if one came; and
/// `handle_select_change` announces the chosen mode, if one came; every other
/// name draws a warning. The state snapshot always records the handler name.
pub open spec fn spec_response(id: Seq<char>, value: Option<Seq<char>>) -> ResponseView {
    let state = Some(state_snapshot_text(id));
    if id == "handle_click"@ {
        ResponseView {
            updates: seq![
                welcome_update("Button clicked! Thank you for trying the plugin."@),
            ],
            state,
            notifications: Some(
                seq![
                    NoteView {
                        level: "success"@,
                        message: "Button clicked successfully!"@,
                        duration: Some(3000u32),
                    },
                ],
            ),
        }
    } else if id == "handle_input_change"@ {
        ResponseView {
            updates: match value {
                Some(t) => seq![welcome_update("You typed: "@ + t)],
                None => Seq::empty(),
            },
            state,
            notifications: None,
        }
    } else if id == "handle_select_change"@ {
        match value {
            Some(m) => ResponseView {
                updates: seq![welcome_update("Mode changed to: "@ + m)],
                state,
                notifications: Some(
                    seq![
                        NoteView {
                            level: "info"@,
                            message: "Switched to "@ + m + " mode"@,
                            duration: Some(2000u32),
                        },
                    ],
                ),
            },
            None => ResponseView { updates: Seq::empty(), state, notifications: None },
        }
    } else {
        ResponseView {
            updates: Seq::empty(),
            state,
            notifications: Some(
                seq![
                    NoteView {
                        level: "warning"@,
                        message: "Unknown event: "@ + id,
                        duration: Some(2000u32),
                    },
                ],
            ),
        }
    }
}

/// The response to a payload that does not describe an event: no updates, no
/// state, one error notification.
pub open spec fn malformed_response() -> ResponseView {
    ResponseView {
        updates: Seq::empty(),
        state: None,
        notifications: Some(
            seq![
                NoteView {
                    level: "error"@,
                    message: "Failed to parse event"@,
                    duration: Some(3000u32),
                },
            ],
        ),
    }
}

/// The JSON text of one UI update.
pub open spec fn update_text(u: UpdateView) -> Seq<char> {
    "{\"target_id\":"@ + quoted(u.target_id) + ",\"update_type\":"@ + quoted(u.update_type)
        + ",\"data\":"@ + u.data + "}"@
}

/// The JSON texts of a sequence of updates, joined by commas.
pub open spec fn updates_text(s: Seq<UpdateView>) -> Seq<char>
    decreases s.len(),
{
    if s.len() == 0 {
        Seq::empty()
    } else if s.len() == 1 {
        update_text(s[0])
    } else {
        updates_text(s.drop_last()) + seq![','] + update_text(s.last())
    }
}

/// The JSON text of one notification.
pub open spec fn note_text(n: NoteView) -> Seq<char> {
    "{\"level\":"@ + quoted(n.level) + ",\"message\":"@ + quoted(n.message) + ",\"duration\":"@
        + opt_dec_text(n.duration) + "}"@
}

/// The JSON texts of a sequence of notifications, joined by commas.
pub open spec fn notes_text(s: Seq<NoteView>) -> Seq<char>
    decreases s.len(),
{
    if s.len() == 0 {
        Seq::empty()
    } else if s.len() == 1 {
        note_text(s[0])
    } else {
        notes_text(s.drop_last()) + seq![','] + note_text(s.last())
    }
}

/// The notifications member: a JSON array when present, `null` otherwise.
pub open spec fn opt_notes_text(o: Option<Seq<NoteView>>) -> Seq<char> {
    match o {
        Some(s) => seq!['['] + notes_text(s) + seq![']'],
        None => "null"@,
    }
}

/// The JSON text of a response, members in order: updates, state,
/// notifications.
pub open spec fn response_text(r: ResponseView) -> Seq<char> {
    "{\"updates\":["@ + updates_text(r.updates) + "],\"state\":"@ + opt_raw(r.state)
        + ",\"notifications\":"@ + opt_notes_text(r.notifications) + "}"@
}

/// Builds the update that replaces the welcome text node's content.
fn make_welcome_update(msg: &str) -> (u: UIUpdate)
    ensures
        u@ == welcome_update(msg@),
{
    let mut data = String::from_str("{\"value\":");
    push_quoted(&mut data, msg);
    data.append("}");
    proof {
        assert(data@ =~= value_patch_text(msg@));
    }
    let u = UIUpdate {
        target_id: String::from_str("welcome"),
        update_type: String::from_str("replace"),
        data,
    };
    proof {
        assert(u@ =~= welcome_update(msg@));
    }
    u
}

/// Builds a notification.
fn make_notification(level: &str, message: String, duration: u32) -> (n: Notification)
    ensures
        n@ == (NoteView { level: level@, message: message@, duration: Some(duration) }),
{
    Notification { level: String::from_str(level), message, duration: Some(duration) }
}

/// Builds the state snapshot recording the last handled event.
fn make_state_snapshot(id: &str) -> (s: String)
    ensures
        s@ == state_snapshot_text(id@),
{
    let mut s = String::from_str("{\"event_count\":1,\"last_event\":");
    push_quoted(&mut s, id);
    s.append("}");
    proof {
        assert(s@ =~= state_snapshot_text(id@));
    }
    s
}

/// Answers an event: the response is exactly `spec_response` of the handler
/// name and the data value.
#[verifier::rlimit(60)]
pub fn respond_to_event(e: &EventPayload) -> (r: EventResponse)
    ensures
        r@ == spec_response(e.id@, e@.value),
{
    let mut updates: Vec<UIUpdate> = Vec::new();
    let mut notifications: Vec<Notification> = Vec::new();
    if e.id == String::from_str("handle_click") {
        updates.push(make_welcome_update("Button clicked! Thank you for trying the plugin."));
        notifications.push(
            make_notification("success", String::from_str("Button clicked successfully!"), 3000),
        );
    } else if e.id == String::from_str("handle_input_change") {
        if let Some(d) = &e.data {
            if let Some(v) = &d.value {
                let mut msg = String::from_str("You typed: ");
                msg.append(v.as_str());
                updates.push(make_welcome_update(msg.as_str()));
            }
        }
    } else if e.id == String::from_str("handle_select_change") {
        if let Some(d) = &e.data {
            if let Some(v) = &d.value {
                let mut msg = String::from_str("Mode changed to: ");
                msg.append(v.as_str());
                updates.push(make_welcome_update(msg.as_str()));
                let mut note_msg = String::from_str("Switched to ");
                note_msg.append(v.as_str());
                note_msg.append(" mode");
                notifications.push(make_notification("info", note_msg, 2000));
            }
        }
    } else {
        let mut note_msg = String::from_str("Unknown event: ");
        note_msg.append(e.id.as_str());
        notifications.push(make_notification("warning", note_msg, 2000));
    }
    let state = make_state_snapshot(e.id.as_str());
    let has_notes = notifications.len() > 0;
    let r = EventResponse {
        updates,
        state: Some(state),
        notifications: if has_notes {
            Some(notifications)
        } else {
            None
        },
    };
    proof {
        assert(r@ =~~= spec_response(e.id@, e@.value));
    }
    r
}

/// Appends the JSON text of one update.
fn push_update(out: &mut String, u: &UIUpdate)
    ensures
        final(out)@ == old(out)@ + update_text(u@),
{
    out.append("{\"target_id\":");
    push_quoted(out, u.target_id.as_str());
    out.append(",\"update_type\":");
    push_quoted(out, u.update_type.as_str());
    out.append(",\"data\":");
    out.append(u.data.as_str());
    out.append("}");
    proof {
        assert(final(out)@ =~= old(out)@ + update_text(u@));
    }
}

/// Appends the JSON text of one notification.
fn push_note(out: &mut String, n: &Notification)
    ensures
        final(out)@ == old(out)@ + note_text(n@),
{
    out.append("{\"level\":");
    push_quoted(out, n.level.as_str());
    out.append(",\"message\":");
    push_quoted(out, n.message.as_str());
    out.append(",\"duration\":");
    push_opt_dec(out, &n.duration);
    out.append("}");
    proof {
        assert(final(out)@ =~= old(out)@ + note_text(n@));
    }
}

/// Serializes a response to its JSON text.
#[verifier::rlimit(30)]
pub fn event_response_json(r: &EventResponse) -> (out: String)
    ensures
        out@ == response_text(r@),
{
    let mut out = String::new();
    out.append("{\"updates\":[");
    let ghost mid: Seq<char> = out@;
    proof {
        assert(r.updates.deep_view().take(0) =~= Seq::<UpdateView>::empty());
    }
    let mut i: usize = 0;
    while i < r.updates.len()
        invariant
            i <= r.updates.len(),
            out@ == mid + updates_text(r.updates.deep_view().take(i as int)),
        decreases r.updates.len() - i,
    {
        if i > 0 {
            crate::text::push_char(&mut out, ',');
        }
        push_update(&mut out, &r.updates[i]);
        proof {
            let vs = r.updates.deep_view();
            assert(vs.take(i + 1).drop_last() =~= vs.take(i as int));
            assert(vs.take(i + 1).last() == r.updates@[i as int]@);
            assert(out@ =~= mid + updates_text(vs.take(i + 1)));
        }
        i = i + 1;
    }
    proof {
        assert(r.updates.deep_view().take(r.updates@.len() as int) =~= r.updates.deep_view());
    }
    out.append("],\"state\":");
    push_opt_raw(&mut out, &r.state);
    out.append(",\"notifications\":");
    let ghost pre: Seq<char> = out@;
    match &r.notifications {
        Some(ns) => {
            crate::text::push_char(&mut out, '[');
            let ghost nmid: Seq<char> = out@;
            proof {
                assert(ns.deep_view().take(0) =~= Seq::<NoteView>::empty());
            }
            let mut j: usize = 0;
            while j < ns.len()
                invariant
                    j <= ns.len(),
                    out@ == nmid + notes_text(ns.deep_view().take(j as int)),
                decreases ns.len() - j,
            {
                if j > 0 {
                    crate::text::push_char(&mut out, ',');
                }
                push_note(&mut out, &ns[j]);
                proof {
                    let ws = ns.deep_view();
                    assert(ws.take(j + 1).drop_last() =~= ws.take(j as int));
                    assert(ws.take(j + 1).last() == ns@[j as int]@);
                    assert(out@ =~= nmid + notes_text(ws.take(j + 1)));
                }
                j = j + 1;
            }
            proof {
                assert(ns.deep_view().take(ns@.len() as int) =~= ns.deep_view());
            }
            crate::text::push_char(&mut out, ']');
            proof {
                assert(r@.notifications == Some(ns.deep_view()));
                assert(out@ =~= pre + opt_notes_text(r@.notifications));
            }
        },
        None => {
            out.append("null");
            proof {
                assert(out@ =~= pre + opt_notes_text(r@.notifications));
            }
        },
    }
    out.append("}");
    proof {
        assert(out@ =~= response_text(r@));
    }
    out
}

/// Builds and serializes the response to a payload that parsed as no event.
fn malformed_event_json() -> (out: String)
    ensures
        out@ == response_text(malformed_response()),
{
    let mut notifications: Vec<Notification> = Vec::new();
    notifications.push(
        make_notification("error", String::from_str("Failed to parse event"), 3000),
    );
    let r = EventResponse { updates: Vec::new(), state: None, notifications: Some(notifications) };
    proof {
        assert(r@ =~~= malformed_response());
    }
    event_response_json(&r)
}

/// Handles one event from the host: parses the payload, dispatches on the
/// handler name, and serializes the response. A payload that is not valid
/// JSON, or no event, draws the fixed error response; parsing never fails the
/// call.
pub fn handle_event(input: &str) -> (out: String)
    ensures
        match json_of(input@) {
            Some(j) => match event_of_json(j) {
                Some(ev) => out@ == response_text(spec_response(ev.id, ev.value)),
                None => out@ == response_text(malformed_response()),
            },
            None => out@ == response_text(malformed_response()),
        },
{
    let parsed = json_from_str(input);
    let v = match parsed {
        Some(v) => v,
        None => {
            return malformed_event_json();
        },
    };
    let id: String = match json_get(&v, "id") {
        Some(w) => match json_as_str(w) {
            Some(s) => s.to_owned(),
            None => {
                return malformed_event_json();
            },
        },
        None => {
            return malformed_event_json();
        },
    };
    let event_type: String = match json_get(&v, "event_type") {
        Some(w) => match json_as_str(w) {
            Some(s) => s.to_owned(),
            None => {
                return malformed_event_json();
            },
        },
        None => {
            return malformed_event_json();
        },
    };
    let data: Option<EventData> = match json_get(&v, "data") {
        Some(d) => {
            let value: Option<String> = match json_get(d, "value") {
                Some(w) => match json_as_str(w) {
                    Some(s) => Some(s.to_owned()),
                    None => None,
                },
                None => None,
            };
            Some(EventData { value })
        },
        None => None,
    };
    let payload = EventPayload { id, event_type, data };
    proof {
        let j = json_of(input@)->0;
        assert(event_of_json(j) == Some(payload@));
    }
    let r = respond_to_event(&payload);
    event_response_json(&r)
}

/// An event naming the `handle_click` handler always draws exactly one
/// update and exactly one success notification, whatever data came with it.
pub proof fn lemma_click_response(value: Option<Seq<char>>)
    ensures
        ({
            let r = spec_response("handle_click"@, value);
            &&& r.updates.len() == 1
            &&& r.notifications matches Some(ns) && ns.len() == 1 && ns[0].level == "success"@
        }),
{
}

/// An event naming `handle_select_change` with a data value always draws
/// exactly one update whose patch carries the value, and exactly one
/// informational notification naming the value.
pub proof fn lemma_select_change_response(m: Seq<char>)
    ensures
        ({
            let r = spec_response("handle_select_change"@, Some(m));
            &&& r.updates.len() == 1
            &&& r.updates[0].data == value_patch_text("Mode changed to: "@ + m)
            &&& r.notifications matches Some(ns) && ns.len() == 1 && ns[0].level == "info"@
                && ns[0].message == "Switched to "@ + m + " mode"@
        }),
{
    reveal_strlit("handle_select_change");
    reveal_strlit("handle_click");
    reveal_strlit("handle_input_change");
}

/// An event naming no known handler draws no update and exactly one warning
/// notification naming the unknown handler.
pub proof fn lemma_unknown_event_response(id: Seq<char>, value: Option<Seq<char>>)
    requires
        id != "handle_click"@,
        id != "handle_input_change"@,
        id != "handle_select_change"@,
    ensures
        ({
            let r = spec_response(id, value);
            &&& r.updates.len() == 0
            &&& r.notifications matches Some(ns) && ns.len() == 1 && ns[0].level == "warning"@
                && ns[0].message == "Unknown event: "@ + id
        }),
{
}

/// The response to a malformed payload carries no update, no state, and
/// exactly one error notification.
pub proof fn lemma_malformed_response()
    ensures
        malformed_response().updates.len() == 0,
        malformed_response().state is None,
        malformed_response().notifications matches Some(ns) && ns.len() == 1 && ns[0].level
            == "error"@,
{
}

} // verus!
