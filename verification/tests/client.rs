use ramflux_cli_pro::app::TuiApp;
use ramflux_cli_pro::bus::BusRequest;
use ramflux_cli_pro::json::{Json, JsonNumber};
use ramflux_cli_pro::parsing::parse_approvals;
use ramflux_cli_pro::render::{conversation_lines, message_suffix, panel_lines};
use ramflux_cli_pro::state::{
    key_to_input, AttachmentRow, InputMode, KeyCode, MessageReceiptRow, MessageRow, Panel,
    RenderedSurface, TuiInput,
};
use ramflux_cli_pro::task::{Effect, Outcome, Step, Task, Then, TuiError};
use ramflux_cli_pro::text::{i64_to_string, u64_to_string};

// ---------------------------------------------------------------------------
// JSON values by hand.

fn s(x: &str) -> Json {
    Json::Str(x.to_owned())
}

fn u(n: u64) -> Json {
    Json::Number(JsonNumber::PosInt(n))
}

fn obj(entries: Vec<(&str, Json)>) -> Json {
    Json::Object(entries.into_iter().map(|(k, v)| (k.to_owned(), v)).collect())
}

fn arr(items: Vec<Json>) -> Json {
    Json::Array(items)
}

fn same(a: &Json, b: &Json) -> bool {
    match (a, b) {
        (Json::Null, Json::Null) => true,
        (Json::Bool(x), Json::Bool(y)) => x == y,
        (Json::Number(JsonNumber::PosInt(x)), Json::Number(JsonNumber::PosInt(y))) => x == y,
        (Json::Number(JsonNumber::NegInt(x)), Json::Number(JsonNumber::NegInt(y))) => x == y,
        (Json::Number(JsonNumber::Float(x)), Json::Number(JsonNumber::Float(y))) => x == y,
        (Json::Str(x), Json::Str(y)) => x == y,
        (Json::Array(x), Json::Array(y)) => {
            x.len() == y.len() && x.iter().zip(y.iter()).all(|(p, q)| same(p, q))
        }
        (Json::Object(x), Json::Object(y)) => {
            x.len() == y.len()
                && x.iter().zip(y.iter()).all(|(p, q)| p.0 == q.0 && same(&p.1, &q.1))
        }
        _ => false,
    }
}

fn text_at<'a>(j: &'a Json, key: &str) -> Option<&'a str> {
    j.get(key).and_then(|v| v.as_str()).map(|v| v.as_str())
}

fn is_null(j: Option<&Json>) -> bool {
    matches!(j, Some(Json::Null))
}

// ---------------------------------------------------------------------------
// base64url without padding.

const ALPHABET: &[u8; 64] = b"ABCDEFGHIJKLMNOPQRSTUVWXYZabcdefghijklmnopqrstuvwxyz0123456789-_";

fn b64_encode(bytes: &[u8]) -> String {
    let mut out = String::new();
    for chunk in bytes.chunks(3) {
        let b = [chunk[0], *chunk.get(1).unwrap_or(&0), *chunk.get(2).unwrap_or(&0)];
        let n = (u32::from(b[0]) << 16) | (u32::from(b[1]) << 8) | u32::from(b[2]);
        let count = chunk.len() + 1;
        for i in 0..count {
            let index = (n >> (18 - 6 * i)) & 63;
            out.push(char::from(ALPHABET[index as usize]));
        }
    }
    out
}

fn b64_decode(text: &str) -> Option<Vec<u8>> {
    let mut values = Vec::new();
    for c in text.bytes() {
        let v = ALPHABET.iter().position(|&a| a == c)?;
        values.push(v as u32);
    }
    let mut out = Vec::new();
    for chunk in values.chunks(4) {
        if chunk.len() == 1 {
            return None;
        }
        let mut n: u32 = 0;
        for (i, v) in chunk.iter().enumerate() {
            n |= v << (18 - 6 * i);
        }
        let bytes = [(n >> 16) as u8, (n >> 8) as u8, n as u8];
        out.extend_from_slice(&bytes[..chunk.len() - 1]);
    }
    Some(out)
}

// ---------------------------------------------------------------------------
// A daemon that answers as a test needs, and a front end that runs tasks.

#[derive(Default)]
struct MockBus {
    requests: Vec<BusRequest>,
    failing: bool,
    fail_method: String,
}

fn mock_transfer(object_id: &str, direction: &str, state: &str, done: u64, total: u64, percent: u64) -> Json {
    obj(vec![(
        "transfer",
        obj(vec![
            ("transfer_id", s(&format!("{direction}:{object_id}:mock"))),
            ("object_id", s(object_id)),
            ("manifest_hash", s("mock_manifest")),
            ("direction", s(direction)),
            ("state", s(state)),
            ("total_bytes", u(total)),
            ("done_bytes", u(done)),
            ("total_chunks", u(2)),
            ("completed_chunks", u(if percent == 100 { 2 } else { 1 })),
            ("next_chunk_index", if percent == 100 { Json::Null } else { u(1) }),
            ("percent", u(percent)),
            ("last_error", Json::Null),
            ("updated_at", u(1)),
        ]),
    )])
}

fn mock_approvals() -> Json {
    arr(vec![obj(vec![
        ("approval_id", s("approval_tui_1")),
        ("server_id", s("srv")),
        ("tool_name", s("echo")),
        ("risk_level", s("low")),
        ("confirmation_mode", s("attended_local")),
        ("status", s("pending")),
        (
            "details",
            obj(vec![(
                "surface",
                obj(vec![
                    ("surface_id", s("surface_tui_approval")),
                    ("catalog", s("ramflux.basic.v1")),
                    ("catalog_version", s("1")),
                    (
                        "components",
                        arr(vec![obj(vec![
                            ("id", s("approve_button")),
                            ("component_type", s("approval_card")),
                            ("action_permission", s("mcp.approve")),
                            ("children", arr(vec![])),
                        ])]),
                    ),
                ]),
            )]),
        ),
    ])])
}

fn copy_field(body: &Json, key: &str) -> Json {
    body.get(key).map_or(Json::Null, Json::copy)
}

impl MockBus {
    fn failing() -> Self {
        MockBus { requests: Vec::new(), failing: true, fail_method: String::new() }
    }

    fn find(&self, method: &str) -> Option<&BusRequest> {
        self.requests.iter().find(|r| r.method == method)
    }

    fn any(&self, method: &str) -> bool {
        self.find(method).is_some()
    }

    fn request(&mut self, request: BusRequest) -> Result<Json, TuiError> {
        if self.failing {
            return Err(TuiError::LocalBus("boom".to_owned()));
        }
        let method = request.method.clone();
        let body = request.body.copy();
        let requested_account = request.account_id.clone();
        self.requests.push(request);
        if method == self.fail_method {
            return Err(TuiError::LocalBus("boom".to_owned()));
        }
        Ok(match method.as_str() {
            "message.read" => obj(vec![(
                "messages",
                arr(vec![obj(vec![
                    ("message_id", s("msg_tui_1")),
                    ("sender_id", s("alice")),
                    ("body_utf8", s("hello from bus")),
                ])]),
            )]),
            "contact.list" => obj(vec![(
                "contacts",
                arr(vec![obj(vec![
                    ("link_id", s("friend_tui_1")),
                    ("requester_id", s("alice")),
                    ("target_id", s("bob")),
                    ("state", s("accepted")),
                    ("verification_state", s("unverified")),
                ])]),
            )]),
            "contact.safety_number" | "contact.verify" => obj(vec![
                ("contact_identity_commitment", s("bob")),
                ("safety_number", arr(vec![s("12345"), s("67890")])),
                ("fingerprint_hex", s("f00d")),
                (
                    "verification_state",
                    s(if method == "contact.verify" { "verified" } else { "unverified" }),
                ),
            ]),
            "contact.add" | "contact.accept" => obj(vec![
                ("link_id", copy_field(&body, "link_id")),
                ("requester_id", copy_field(&body, "requester_id")),
                ("target_id", copy_field(&body, "target_id")),
                ("state", s("accepted")),
            ]),
            "device.list" => obj(vec![
                ("principal_id", s("principal_tui_alice")),
                ("local_device_id", s("device_tui_alice_b")),
                (
                    "devices",
                    arr(vec![
                        obj(vec![
                            ("device_id", s("device_tui_alice_a")),
                            ("device_epoch", u(1)),
                            ("target_delivery_id", s("target_tui_alice_a")),
                            ("is_local", Json::Bool(false)),
                        ]),
                        obj(vec![
                            ("device_id", s("device_tui_alice_b")),
                            ("device_epoch", u(2)),
                            ("target_delivery_id", s("target_tui_alice_b")),
                            ("is_local", Json::Bool(true)),
                        ]),
                    ]),
                ),
            ]),
            "device.activate" => obj(vec![("device_id", copy_field(&body, "device_id"))]),
            "device.revoke" => {
                obj(vec![("device_id", copy_field(&body, "device_id")), ("revoked", Json::Bool(true))])
            }
            "group.list" => obj(vec![(
                "groups",
                arr(vec![obj(vec![
                    ("group_id", s("group_tui_1")),
                    ("members", arr(vec![s("alice"), s("bob")])),
                    ("ttl_secs", u(60)),
                    ("mute_until", Json::Null),
                ])]),
            )]),
            "mcp.approval.list" => obj(vec![("approvals", mock_approvals())]),
            "a2ui.action" => obj(vec![("accepted", Json::Bool(true))]),
            "grant.approve" | "grant.deny" => obj(vec![("ok", Json::Bool(true))]),
            "message.submit" => obj(vec![("submitted", Json::Bool(true))]),
            "message.receive" => obj(vec![
                ("entries", arr(vec![])),
                (
                    "decrypted_messages",
                    arr(vec![obj(vec![
                        ("message_id", s("env_tui_attach_1")),
                        ("sender_id", s("bob")),
                        ("plaintext_body_base64", s(&b64_encode(b"attachment received"))),
                        (
                            "attachments",
                            arr(vec![obj(vec![
                                ("object_id", s("object_tui_attach_1")),
                                ("plaintext_base64", s(&b64_encode(b"attachment bytes"))),
                            ])]),
                        ),
                    ])]),
                ),
            ]),
            "object.put" => mock_transfer("object_tui_put", "upload", "in_progress", 512, 1024, 50),
            "object.get" => obj(vec![
                ("object_id", s("object_tui_get")),
                ("plaintext_base64", s(&b64_encode(b"object bytes"))),
            ]),
            "object.transfer.status" => {
                let object_id = text_at(&body, "object_id").unwrap_or("object_tui_status").to_owned();
                let direction = text_at(&body, "direction").unwrap_or("upload").to_owned();
                mock_transfer(&object_id, &direction, "in_progress", 512, 1024, 50)
            }
            "object.transfer.resume" => {
                let object_id = text_at(&body, "object_id").unwrap_or("object_tui_resume").to_owned();
                let direction = text_at(&body, "direction").unwrap_or("upload").to_owned();
                mock_transfer(&object_id, &direction, "complete", 1024, 1024, 100)
            }
            "message.delete" => obj(vec![("deleted", Json::Bool(true))]),
            "message.receipt.delivered" | "message.receipt.read" => {
                obj(vec![("scope", s("local_projection"))])
            }
            "group.member.remove" => obj(vec![
                ("group_id", s("group_tui_1")),
                ("members", arr(vec![s("alice")])),
            ]),
            "conversation.disappearing.set" => {
                obj(vec![("conversation_id", s("group_tui_1")), ("ttl_secs", u(30))])
            }
            "conversation.mute" => obj(vec![
                ("conversation_id", s("group_tui_1")),
                ("mute_until", copy_field(&body, "mute_until")),
            ]),
            "subscription.open" => obj(vec![("subscribed", Json::Bool(true))]),
            "account.status" => obj(vec![
                ("local_account_id", s("alice_account")),
                ("principal_id", s("principal_tui_alice")),
                ("device_id", s("device_tui_alice")),
                ("target_delivery_id", s("target_tui_alice")),
            ]),
            "account.switch" => obj(vec![(
                "active_account_id",
                s(&requested_account.unwrap_or_else(|| "unknown".to_owned())),
            )]),
            _ => obj(vec![]),
        })
    }
}

/// Renders a surface document: its components' types, in order, stand for
/// the semantic snapshot; a component of unknown type is rendered by the
/// fallback.
fn mock_render(surface: &Json) -> Option<(Json, Option<RenderedSurface>)> {
    let components = surface.get("components")?.as_array()?;
    let mut kinds = Vec::new();
    let mut fallback = false;
    for c in components {
        let kind = text_at(c, "component_type").unwrap_or("unknown").to_owned();
        if kind != "approval_card" {
            fallback = true;
        }
        kinds.push(kind);
    }
    let hash = format!("hash:{}", text_at(surface, "surface_id").unwrap_or(""));
    Some((
        surface.copy(),
        Some(RenderedSurface { surface_hash: hash, fallback_used: fallback, semantic_snapshot: kinds.join(" ") }),
    ))
}

/// Runs a task to its end, doing the outside work it asks for.
fn drive(app: &mut TuiApp, bus: &mut MockBus, mut task: Task) -> Result<Option<Json>, TuiError> {
    let mut outcome = Outcome::Start;
    loop {
        outcome = match app.advance(&mut task, outcome) {
            Effect::Request(request) => match bus.request(request) {
                Ok(response) => Outcome::Response(response),
                Err(error) => Outcome::Failed(error),
            },
            Effect::Encode(bytes) => Outcome::Encoded(b64_encode(&bytes)),
            Effect::Decode(payloads) => Outcome::Decoded(
                payloads
                    .iter()
                    .map(|p| {
                        p.as_deref().and_then(b64_decode).and_then(|b| String::from_utf8(b).ok())
                    })
                    .collect(),
            ),
            Effect::Render(job) => Outcome::Rendered(
                job.candidates.iter().map(|c| c.as_ref().and_then(mock_render)).collect(),
            ),
            Effect::ReadFile(path) => {
                if path == "./notes.txt" {
                    Outcome::FileRead(b"file bytes".to_vec(), Some("notes.txt".to_owned()))
                } else {
                    Outcome::Failed(TuiError::LocalBus(format!("cannot read {path}")))
                }
            }
            Effect::Clock => Outcome::Clock(1_760_000_000),
            Effect::Done(output) => return Ok(output),
            Effect::Fail(error) => return Err(error),
        };
    }
}

fn input(app: &mut TuiApp, bus: &mut MockBus, event: TuiInput) -> Result<(), TuiError> {
    let task = app.handle_input(event)?;
    drive(app, bus, task)?;
    Ok(())
}

fn type_text(app: &mut TuiApp, bus: &mut MockBus, text: &str) -> Result<(), TuiError> {
    for c in text.chars() {
        input(app, bus, TuiInput::Char(c))?;
    }
    Ok(())
}

fn error_text(error: &TuiError) -> String {
    match error {
        TuiError::LocalBus(message) => message.clone(),
    }
}

/// Handles an input the way the front end does: a failure only shows on the
/// status line.
fn dispatch(app: &mut TuiApp, bus: &mut MockBus, event: TuiInput) {
    if let Err(error) = input(app, bus, event) {
        app.record_input_error(&error_text(&error));
    }
}

fn refreshed(account: &str, bus: &mut MockBus) -> Result<TuiApp, TuiError> {
    let mut app = TuiApp::new(account.to_owned());
    let task = app.refresh_all();
    drive(&mut app, bus, task)?;
    Ok(app)
}

fn screen(app: &TuiApp) -> String {
    panel_lines(&app.state).join("\n")
}

fn submitted_plaintext(bus: &MockBus) -> Option<String> {
    let submit = bus.requests.iter().rev().find(|r| r.method == "message.submit")?;
    let text = text_at(&submit.body, "plaintext_body_base64")?;
    String::from_utf8(b64_decode(text)?).ok()
}


fn compose(app: &mut TuiApp, bus: &mut MockBus, panel: Panel, text: &str) -> Result<(), TuiError> {
    app.state.selected_panel = panel;
    input(app, bus, TuiInput::EnterCompose)?;
    type_text(app, bus, text)?;
    input(app, bus, TuiInput::Enter)
}

fn error_of(result: Result<(), TuiError>) -> String {
    match result {
        Ok(()) => "no error".to_owned(),
        Err(e) => error_text(&e),
    }
}

#[test]
fn tab_visits_the_six_panels_in_order() -> Result<(), TuiError> {
    let mut bus = MockBus::default();
    let mut app = TuiApp::new("alice".to_owned());
    let order = [
        Panel::Messages,
        Panel::Objects,
        Panel::Contacts,
        Panel::Groups,
        Panel::Approvals,
        Panel::Conversations,
    ];
    for expected in order {
        input(&mut app, &mut bus, TuiInput::Tab)?;
        assert_eq!(app.state.selected_panel, expected);
    }
    assert_eq!(Panel::Approvals.index(), 5);
    assert_eq!(Panel::Contacts.title(), "Contacts");
    Ok(())
}

#[test]
fn keys_map_to_inputs() {
    assert_eq!(key_to_input(KeyCode::Char('q')), Some(TuiInput::Quit));
    assert_eq!(key_to_input(KeyCode::Char('i')), Some(TuiInput::EnterCompose));
    assert_eq!(key_to_input(KeyCode::Char('x')), Some(TuiInput::Char('x')));
    assert_eq!(key_to_input(KeyCode::Esc), Some(TuiInput::ExitCompose));
    assert_eq!(key_to_input(KeyCode::Backspace), Some(TuiInput::Backspace));
    assert_eq!(key_to_input(KeyCode::Other), None);
}

#[test]
fn only_quit_outside_the_composer_quits() -> Result<(), TuiError> {
    let mut bus = MockBus::default();
    let mut app = TuiApp::new("alice".to_owned());
    app.state.selected_panel = Panel::Messages;
    input(&mut app, &mut bus, TuiInput::EnterCompose)?;
    input(&mut app, &mut bus, TuiInput::Quit)?;
    assert!(!app.should_quit());
    assert_eq!(app.state.input, "q");
    input(&mut app, &mut bus, TuiInput::ExitCompose)?;
    assert_eq!(app.state.input_mode, InputMode::Normal);
    assert_eq!(app.state.input, "q");
    input(&mut app, &mut bus, TuiInput::Quit)?;
    assert!(app.should_quit());
    Ok(())
}

#[test]
fn backspace_erases_the_last_typed_character() -> Result<(), TuiError> {
    let mut bus = MockBus::default();
    let mut app = TuiApp::new("alice".to_owned());
    app.state.selected_panel = Panel::Messages;
    input(&mut app, &mut bus, TuiInput::EnterCompose)?;
    type_text(&mut app, &mut bus, "hé")?;
    input(&mut app, &mut bus, TuiInput::Char('z'))?;
    input(&mut app, &mut bus, TuiInput::Backspace)?;
    assert_eq!(app.state.input, "hé");
    input(&mut app, &mut bus, TuiInput::Backspace)?;
    input(&mut app, &mut bus, TuiInput::Backspace)?;
    input(&mut app, &mut bus, TuiInput::Backspace)?;
    assert_eq!(app.state.input, "");
    Ok(())
}

#[test]
fn enter_compose_opens_the_composer_on_messages_and_objects() -> Result<(), TuiError> {
    let mut bus = MockBus::default();
    let mut app = TuiApp::new("alice".to_owned());
    for panel in [Panel::Conversations, Panel::Contacts, Panel::Groups, Panel::Approvals] {
        app.state.selected_panel = panel;
        input(&mut app, &mut bus, TuiInput::EnterCompose)?;
        assert_eq!(app.state.input_mode, InputMode::Normal);
    }
    for panel in [Panel::Messages, Panel::Objects] {
        app.state.selected_panel = panel;
        input(&mut app, &mut bus, TuiInput::EnterCompose)?;
        assert_eq!(app.state.input_mode, InputMode::Compose);
        input(&mut app, &mut bus, TuiInput::ExitCompose)?;
    }
    Ok(())
}

#[test]
fn down_then_up_returns_to_the_same_row() -> Result<(), TuiError> {
    let mut bus = MockBus::default();
    let mut app = refreshed("alice_account", &mut bus)?;
    app.state.selected_panel = Panel::Messages;
    assert_eq!(app.state.messages.len(), 2);
    input(&mut app, &mut bus, TuiInput::Down)?;
    assert_eq!(app.state.selected_message, 1);
    input(&mut app, &mut bus, TuiInput::Down)?;
    assert_eq!(app.state.selected_message, 1);
    input(&mut app, &mut bus, TuiInput::Up)?;
    input(&mut app, &mut bus, TuiInput::Up)?;
    assert_eq!(app.state.selected_message, 0);
    Ok(())
}

#[test]
fn refreshing_twice_keeps_one_default_conversation_and_one_copy_of_each_message() -> Result<(), TuiError> {
    let mut bus = MockBus::default();
    let mut app = refreshed("alice_account", &mut bus)?;
    let task = app.refresh_all();
    drive(&mut app, &mut bus, task)?;
    assert_eq!(app.state.conversations.len(), 1);
    assert_eq!(app.state.conversations[0].title, "Default DM");
    let received = app.state.messages.iter().filter(|m| m.id == "env_tui_attach_1").count();
    assert_eq!(received, 1);
    let task = app.receive_messages_with_attachments();
    drive(&mut app, &mut bus, task)?;
    let received = app.state.messages.iter().filter(|m| m.id == "env_tui_attach_1").count();
    assert_eq!(received, 1);
    Ok(())
}

#[test]
fn delivered_envelopes_become_unread_messages_in_order() -> Result<(), TuiError> {
    let mut bus = MockBus::default();
    let mut app = TuiApp::new("alice_account".to_owned());
    let entry = |id: &str| {
        obj(vec![("envelope", obj(vec![("envelope_id", s(id)), ("source_principal_id", s("bob"))]))])
    };
    let body = obj(vec![("entries", arr(vec![entry("env_1"), entry("env_2"), obj(vec![])]))]);
    let task = app.handle_bus_event("conversation.updated", &body);
    drive(&mut app, &mut bus, task)?;
    let ids: Vec<&str> = app.state.messages.iter().map(|m| m.id.as_str()).collect();
    assert_eq!(ids, vec!["env_1", "env_2", "event"]);
    assert_eq!(app.state.messages[2].sender, "peer");
    assert_eq!(app.state.messages[0].body, "[new encrypted message]");
    assert_eq!(app.state.conversations.len(), 1);
    assert_eq!(app.state.conversations[0].unread, 2);
    assert_eq!(app.state.conversations[0].status, "new");
    let task = app.handle_bus_event("something.else", &body);
    drive(&mut app, &mut bus, task)?;
    assert_eq!(app.state.messages.len(), 3);
    Ok(())
}

#[test]
fn an_approval_request_twice_lists_it_once() -> Result<(), TuiError> {
    let mut bus = MockBus::default();
    let mut app = TuiApp::new("alice_account".to_owned());
    let body = obj(vec![
        ("approval_id", s("approval_again")),
        ("confirmation_mode", s("attended_local")),
        ("details", obj(vec![("surface", obj(vec![("surface_id", s("sf")), ("components", arr(vec![]))]))])),
    ]);
    for _ in 0..2 {
        let task = app.handle_bus_event("mcp.approval.request", &body);
        drive(&mut app, &mut bus, task)?;
    }
    assert_eq!(app.state.approvals.len(), 1);
    assert_eq!(app.state.approvals[0].tool, "server/tool");
    assert_eq!(app.state.approvals[0].status, "pending");
    assert!(app.state.approvals[0].rendered_surface.is_some());
    Ok(())
}

#[test]
fn a_transfer_status_twice_lists_it_once() -> Result<(), TuiError> {
    let mut bus = MockBus::default();
    let mut app = TuiApp::new("alice_account".to_owned());
    for _ in 0..2 {
        let task = app.refresh_object_status("object_x", Some("download".to_owned()));
        drive(&mut app, &mut bus, task)?;
    }
    let task = app.refresh_object_status("object_x", Some("upload".to_owned()));
    drive(&mut app, &mut bus, task)?;
    assert_eq!(app.state.object_transfers.len(), 2);
    app.state.selected_panel = Panel::Objects;
    assert_eq!(
        panel_lines(&app.state),
        vec!["> object_x download in_progress 512/1024 50%", "  object_x upload in_progress 512/1024 50%"]
    );
    Ok(())
}

#[test]
fn denying_sends_only_the_denial_and_reloads() -> Result<(), TuiError> {
    let mut bus = MockBus::default();
    let mut app = refreshed("alice_account", &mut bus)?;
    app.state.selected_panel = Panel::Approvals;
    app.state.status_message = Some("old".to_owned());
    let before = bus.requests.len();
    input(&mut app, &mut bus, TuiInput::Char('d'))?;
    let methods: Vec<&str> = bus.requests[before..].iter().map(|r| r.method.as_str()).collect();
    assert_eq!(methods, vec!["grant.deny", "mcp.approval.list"]);
    assert_eq!(app.state.status_message, None);
    Ok(())
}

#[test]
fn approving_answers_the_surface_first() -> Result<(), TuiError> {
    let mut bus = MockBus::default();
    let mut app = refreshed("alice_account", &mut bus)?;
    app.state.selected_panel = Panel::Approvals;
    let before = bus.requests.len();
    input(&mut app, &mut bus, TuiInput::Char('a'))?;
    let methods: Vec<&str> = bus.requests[before..].iter().map(|r| r.method.as_str()).collect();
    assert_eq!(methods, vec!["a2ui.action", "grant.approve", "mcp.approval.list"]);
    let action = &bus.requests[before];
    assert_eq!(action.body.get2("action", "component_id").and_then(|v| v.as_str()).map(|v| v.as_str()), Some("approve_button"));
    assert_eq!(action.body.get2("action", "surface_hash").and_then(|v| v.as_str()).map(|v| v.as_str()), Some("hash:surface_tui_approval"));
    assert_eq!(action.body.get2("action", "nonce").and_then(|v| v.as_str()).map(|v| v.as_str()), Some("nonce:approval_tui_1"));
    assert_eq!(action.body.get2("action", "created_at").and_then(|v| v.as_u64()), Some(1_760_000_700));
    Ok(())
}

#[test]
fn each_sent_message_gets_a_fresh_id() -> Result<(), TuiError> {
    let mut bus = MockBus::default();
    let mut app = refreshed("alice_account", &mut bus)?;
    compose(&mut app, &mut bus, Panel::Messages, "one")?;
    compose(&mut app, &mut bus, Panel::Messages, "two")?;
    let ids: Vec<&str> = bus
        .requests
        .iter()
        .filter(|r| r.method == "message.submit")
        .filter_map(|r| text_at(&r.body, "message_id"))
        .collect();
    assert_eq!(ids, vec!["tui_msg_1", "tui_msg_2"]);
    let envelopes: Vec<&str> = bus
        .requests
        .iter()
        .filter(|r| r.method == "message.submit")
        .filter_map(|r| text_at(&r.body, "envelope_id"))
        .collect();
    assert_eq!(envelopes, vec!["tui_env_1", "tui_env_2"]);
    assert_eq!(app.state.next_message_id, 3);
    let submit = bus.find("message.submit").ok_or_else(|| TuiError::LocalBus("missing".to_owned()))?;
    assert_eq!(submit.body.get("created_at").and_then(|v| v.as_i64()), Some(1_760_000_000));
    assert_eq!(submit.body.get("ttl").and_then(|v| v.as_u64()), Some(3600));
    assert_eq!(text_at(&submit.body, "target_delivery_id"), Some("target_tui_default"));
    assert_eq!(text_at(&submit.body, "conversation_id"), Some("conv_tui_default"));
    let sent = app.state.messages.iter().find(|m| m.id == "tui_msg_2").ok_or_else(|| TuiError::LocalBus("missing".to_owned()))?;
    assert_eq!(sent.sender, "me");
    assert_eq!(sent.status, "sending");
    Ok(())
}

#[test]
fn empty_input_sends_nothing() -> Result<(), TuiError> {
    let mut bus = MockBus::default();
    let mut app = TuiApp::new("alice_account".to_owned());
    app.state.selected_panel = Panel::Messages;
    input(&mut app, &mut bus, TuiInput::Enter)?;
    assert!(bus.requests.is_empty());
    assert_eq!(app.state.next_message_id, 1);
    Ok(())
}

#[test]
fn switching_reloads_everything_as_the_new_account() -> Result<(), TuiError> {
    let mut bus = MockBus::default();
    let mut app = refreshed("alice_account", &mut bus)?;
    app.state.selected_message = 1;
    let task = app.switch_account("bob_account");
    let before = bus.requests.len();
    drive(&mut app, &mut bus, task)?;
    assert!(bus.requests[before..].iter().all(|r| r.account_id.as_deref() == Some("bob_account")));
    let methods: Vec<&str> = bus.requests[before..].iter().map(|r| r.method.as_str()).collect();
    assert_eq!(
        methods,
        vec![
            "account.switch",
            "subscription.open",
            "message.read",
            "message.receive",
            "contact.list",
            "device.list",
            "group.list",
            "mcp.approval.list"
        ]
    );
    assert_eq!(app.state.selected_message, 0);
    assert_eq!(app.state.status_message.as_deref(), Some("active account: bob_account"));
    Ok(())
}

#[test]
fn local_steps_finish_at_once() {
    let mut app = TuiApp::new("alice".to_owned());
    let mut task = Task::of(vec![Step::SetStatus(Some("ready".to_owned())), Step::EnsureDefaultConversation]);
    match app.advance(&mut task, Outcome::Start) {
        Effect::Done(None) => {}
        other => panic!("unexpected effect {other:?}"),
    }
    assert!(task.is_finished());
    assert_eq!(app.state.status_message.as_deref(), Some("ready"));
    assert_eq!(app.state.conversations.len(), 1);
    assert!(Task::empty().is_finished());
}

#[test]
fn an_unexpected_outcome_fails_the_task() {
    let mut app = TuiApp::new("alice".to_owned());
    let mut task = Task { steps: vec![Step::SetStatus(None)], waiting: Some(Then::Transfer), output: None };
    match app.advance(&mut task, Outcome::Clock(5)) {
        Effect::Fail(TuiError::LocalBus(message)) => assert_eq!(message, "unexpected outcome"),
        other => panic!("unexpected effect {other:?}"),
    }
    assert!(task.is_finished());
}

#[test]
fn sync_export_hands_back_the_response() -> Result<(), TuiError> {
    let mut bus = MockBus::default();
    let mut app = TuiApp::new("alice".to_owned());
    let task = app.import_device_sync(obj(vec![]), None);
    let out = drive(&mut app, &mut bus, task)?;
    assert!(out.is_some_and(|o| same(&o, &obj(vec![]))));
    let import = bus.find("device.sync.import").ok_or_else(|| TuiError::LocalBus("missing".to_owned()))?;
    assert!(is_null(import.body.get("relay_service_key_base64")));
    Ok(())
}

#[test]
fn contact_command_errors_name_the_missing_or_extra_argument() {
    let mut bus = MockBus::default();
    let mut app = TuiApp::new("alice".to_owned());
    let cases = [
        ("add", "missing contact add link_id"),
        ("add l1", "missing contact add requester commitment"),
        ("accept l1 r1", "missing contact accept target commitment"),
        ("add l1 r1 t1 extra", "unexpected contact add argument: extra"),
        ("switch", "missing account switch account_id"),
        ("switch a b", "unexpected account switch argument: b"),
        ("remove x", "unknown contacts command: remove"),
    ];
    for (command, expected) in cases {
        let result = compose(&mut app, &mut bus, Panel::Contacts, command);
        assert_eq!(error_of(result), expected);
        assert_eq!(app.state.input, "");
        assert_eq!(app.state.input_mode, InputMode::Normal);
    }
    assert!(bus.requests.is_empty());
    let result = compose(&mut app, &mut bus, Panel::Contacts, "   ");
    assert_eq!(error_of(result), "no error");
    assert_eq!(app.state.input_mode, InputMode::Normal);
}

#[test]
fn accepting_a_contact_reports_it() -> Result<(), TuiError> {
    let mut bus = MockBus::default();
    let mut app = TuiApp::new("alice_account".to_owned());
    compose(&mut app, &mut bus, Panel::Contacts, "accept  link_9   req  tgt ")?;
    let accept = bus.find("contact.accept").ok_or_else(|| TuiError::LocalBus("missing".to_owned()))?;
    assert_eq!(text_at(&accept.body, "link_id"), Some("link_9"));
    assert_eq!(app.state.status_message.as_deref(), Some("contact accepted: link_9"));
    assert_eq!(app.state.contacts.len(), 1);
    Ok(())
}

#[test]
fn object_commands_are_read_from_the_input_line() -> Result<(), TuiError> {
    let mut bus = MockBus::default();
    let mut app = TuiApp::new("alice_account".to_owned());
    compose(&mut app, &mut bus, Panel::Objects, "bogus")?;
    assert_eq!(
        app.state.status_message.as_deref(),
        Some("object command: put <path> <object_id> | get <object_id> <out> | status <object_id> [direction] | resume <object_id> <direction>")
    );
    let result = compose(&mut app, &mut bus, Panel::Objects, "resume object_y upload");
    assert_eq!(error_of(result), "missing RAMFLUX_TUI_RELAY_URL for relay object transfer");
    assert!(!bus.any("object.transfer.resume"));
    input(&mut app, &mut bus, TuiInput::ExitCompose)?;
    app.set_relay_env(Some("http://relay.env".to_owned()), Some(String::new()));
    assert_eq!(app.relay_service_key_base64(), None);
    compose(&mut app, &mut bus, Panel::Objects, "resume object_y upload")?;
    let resume = bus.find("object.transfer.resume").ok_or_else(|| TuiError::LocalBus("missing".to_owned()))?;
    assert_eq!(text_at(&resume.body, "relay_endpoint"), Some("http://relay.env"));
    assert!(is_null(resume.body.get("relay_service_key_base64")));
    assert_eq!(app.state.object_transfers[0].relay_endpoint.as_deref(), Some("http://relay.env"));
    compose(&mut app, &mut bus, Panel::Objects, "get object_tui_get ./out")?;
    assert_eq!(app.state.status_message.as_deref(), Some("downloaded object object_tui_get"));
    assert!(bus.requests.iter().any(|r| r.method == "object.transfer.status"
        && text_at(&r.body, "object_id") == Some("object_tui_get")
        && text_at(&r.body, "direction") == Some("download")));
    compose(&mut app, &mut bus, Panel::Objects, "put ./notes.txt object_n")?;
    let put = bus.find("object.put").ok_or_else(|| TuiError::LocalBus("missing".to_owned()))?;
    assert_eq!(text_at(&put.body, "object_id"), Some("object_n"));
    assert_eq!(text_at(&put.body, "plaintext_base64"), Some(b64_encode(b"file bytes").as_str()));
    assert_eq!(put.body.get("chunk_size").and_then(|v| v.as_u64()), Some(65536));
    Ok(())
}

#[test]
fn resuming_a_transfer_without_a_relay_endpoint_fails() -> Result<(), TuiError> {
    let mut bus = MockBus::default();
    let mut app = TuiApp::new("alice_account".to_owned());
    let task = app.refresh_object_status("object_z", None);
    drive(&mut app, &mut bus, task)?;
    app.state.selected_panel = Panel::Objects;
    let result = input(&mut app, &mut bus, TuiInput::Char('r'));
    assert_eq!(error_of(result), "selected transfer is missing relay endpoint");
    assert!(app.resume_transfer("object_z", "upload").is_err());
    Ok(())
}

#[test]
fn attaching_a_file_queues_it_for_the_next_message() -> Result<(), TuiError> {
    let mut bus = MockBus::default();
    let mut app = TuiApp::new("alice_account".to_owned());
    let result = compose(&mut app, &mut bus, Panel::Messages, "/attach ./notes.txt");
    assert_eq!(error_of(result), "missing RAMFLUX_TUI_RELAY_URL for relay object transfer");
    assert!(app.queue_attachment_bytes("object_q".to_owned(), b"q".to_vec()).is_err());
    assert!(app.state.pending_attachments.is_empty());
    input(&mut app, &mut bus, TuiInput::ExitCompose)?;
    app.set_relay_env(Some("http://relay.env".to_owned()), Some("key_env".to_owned()));
    compose(&mut app, &mut bus, Panel::Messages, "/attach   ./notes.txt  ")?;
    assert_eq!(app.state.pending_attachments.len(), 1);
    assert_eq!(app.state.pending_attachments[0].object_id, "attachment:notes.txt:1");
    assert_eq!(app.state.pending_attachments[0].plaintext_base64, b64_encode(b"file bytes"));
    assert_eq!(app.state.pending_attachments[0].relay_service_key_base64.as_deref(), Some("key_env"));
    assert_eq!(app.state.status_message.as_deref(), Some("queued attachment count=1"));
    let task = app.queue_attachment_bytes("object_q".to_owned(), b"q".to_vec())?;
    drive(&mut app, &mut bus, task)?;
    assert_eq!(app.state.status_message.as_deref(), Some("queued attachment count=2"));
    assert_eq!(app.state.pending_attachments[1].plaintext_base64, b64_encode(b"q"));
    assert_eq!(app.state.pending_attachments[1].relay_endpoint, "http://relay.env");
    assert!(bus.requests.is_empty());
    let result = compose(&mut app, &mut bus, Panel::Messages, "/attach ./missing.txt");
    assert_eq!(error_of(result), "cannot read ./missing.txt");
    Ok(())
}

#[test]
fn group_membership_follows_the_daemon() -> Result<(), TuiError> {
    let mut bus = MockBus::default();
    let mut app = refreshed("alice_account", &mut bus)?;
    let task = app.kick_group_member("bob", "alice");
    drive(&mut app, &mut bus, task)?;
    assert!(app.state.groups[0].members.is_empty());
    let kick = bus.find("group.member.kick").ok_or_else(|| TuiError::LocalBus("missing".to_owned()))?;
    assert_eq!(text_at(&kick.body, "group_id"), Some("group_tui_1"));
    assert_eq!(text_at(&kick.body, "member_id"), Some("bob"));
    let task = app.invite_group_member("alice", "carol", "pk", "target_c", 99);
    drive(&mut app, &mut bus, task)?;
    let invite = bus.find("group.invite.create").ok_or_else(|| TuiError::LocalBus("missing".to_owned()))?;
    assert_eq!(text_at(&invite.body, "role"), Some("member"));
    assert_eq!(invite.body.get("expires_at").and_then(|v| v.as_i64()), Some(99));
    app.state.selected_panel = Panel::Groups;
    input(&mut app, &mut bus, TuiInput::Char('m'))?;
    let mute = bus.requests.iter().rfind(|r| r.method == "conversation.mute").ok_or_else(|| TuiError::LocalBus("missing".to_owned()))?;
    assert_eq!(mute.body.get("mute_until").and_then(|v| v.as_i64()), Some(i64::MAX));
    assert_eq!(app.state.groups[0].mute_until, Some(i64::MAX));
    input(&mut app, &mut bus, TuiInput::Char('u'))?;
    assert_eq!(app.state.groups[0].mute_until, None);
    assert_eq!(panel_lines(&app.state), vec!["> group_tui_1 members= disappearing=Some(60) mute_until=None"]);
    app.state.groups.clear();
    let task = app.ban_group_member("bob", "alice");
    assert!(task.is_finished());
    Ok(())
}

#[test]
fn deleting_a_group_message_clears_its_body() -> Result<(), TuiError> {
    let mut bus = MockBus::default();
    let mut app = refreshed("alice_account", &mut bus)?;
    let task = app.delete_selected_group_message("alice");
    drive(&mut app, &mut bus, task)?;
    assert_eq!(app.state.messages[0].status, "deleted");
    assert_eq!(app.state.messages[0].body, "");
    let del = bus.find("group.message.delete").ok_or_else(|| TuiError::LocalBus("missing".to_owned()))?;
    assert_eq!(text_at(&del.body, "delete_scope"), Some("group_tombstone"));
    Ok(())
}

#[test]
fn input_errors_show_on_the_status_line() {
    let mut bus = MockBus::default();
    let mut app = TuiApp::new("alice".to_owned());
    app.state.selected_panel = Panel::Contacts;
    app.state.input = "frobnicate".to_owned();
    dispatch(&mut app, &mut bus, TuiInput::Enter);
    assert_eq!(app.state.status_message.as_deref(), Some("error: unknown contacts command: frobnicate"));
    assert!(!app.should_quit());
}

#[test]
fn decimal_rendering() {
    assert_eq!(u64_to_string(0), "0");
    assert_eq!(u64_to_string(1_234_567_890), "1234567890");
    assert_eq!(u64_to_string(u64::MAX), "18446744073709551615");
    assert_eq!(i64_to_string(-5), "-5");
    assert_eq!(i64_to_string(i64::MIN), "-9223372036854775808");
}

#[test]
fn message_suffix_lists_attachments_and_receipts() {
    let mut m = MessageRow {
        id: "m".to_owned(),
        sender: "s".to_owned(),
        body: "b".to_owned(),
        status: "sent".to_owned(),
        attachments: Vec::new(),
        receipts: Vec::new(),
    };
    assert_eq!(message_suffix(&m), "");
    m.attachments.push(AttachmentRow {
        message_id: "m".to_owned(),
        object_id: "o1".to_owned(),
        status: "decrypted".to_owned(),
        plaintext_base64: None,
    });
    m.attachments.push(AttachmentRow {
        message_id: "m".to_owned(),
        object_id: "o2".to_owned(),
        status: "referenced".to_owned(),
        plaintext_base64: None,
    });
    m.receipts.push(MessageReceiptRow { device_id: "d1".to_owned(), state: "read".to_owned() });
    assert_eq!(message_suffix(&m), " attachments=[o1:decrypted,o2:referenced] receipts=[d1:read]");
}

#[test]
fn conversation_line_shows_unread_count() -> Result<(), TuiError> {
    let mut bus = MockBus::default();
    let app = refreshed("alice_account", &mut bus)?;
    assert_eq!(conversation_lines(&app.state), vec!["> Default DM  attachment received  unread=0 synced"]);
    Ok(())
}

#[test]
fn contact_lines_show_safety_number_and_devices() -> Result<(), TuiError> {
    let mut bus = MockBus::default();
    let mut app = refreshed("alice_account", &mut bus)?;
    app.state.selected_panel = Panel::Contacts;
    input(&mut app, &mut bus, TuiInput::Char('S'))?;
    assert_eq!(
        panel_lines(&app.state),
        vec![
            "> friend_tui_1 alice -> bob accepted verify=unverified fp=f00d sn=12345 67890",
            "  device device_tui_alice_a epoch=1 target=target_tui_alice_a",
            "* device device_tui_alice_b epoch=2 target=target_tui_alice_b",
        ]
    );
    Ok(())
}

#[test]
fn a_failed_request_ends_the_refresh() {
    let mut bus = MockBus { fail_method: "message.read".to_owned(), ..MockBus::default() };
    let mut app = TuiApp::new("alice_account".to_owned());
    let task = app.refresh_all();
    let result = drive(&mut app, &mut bus, task);
    assert!(matches!(result, Err(TuiError::LocalBus(ref m)) if m == "boom"));
    let methods: Vec<&str> = bus.requests.iter().map(|r| r.method.as_str()).collect();
    assert_eq!(methods, vec!["subscription.open", "message.read"]);
    assert!(app.state().conversations.is_empty());
    assert!(app.state().messages.is_empty());
}

#[test]
fn the_state_getter_shows_the_view_model() -> Result<(), TuiError> {
    let mut bus = MockBus::default();
    let app = refreshed("alice_account", &mut bus)?;
    assert_eq!(app.state().account_id, "alice_account");
    assert_eq!(app.state().conversations.len(), 1);
    Ok(())
}
