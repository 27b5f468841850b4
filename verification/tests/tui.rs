use ramflux_cli_pro::app::TuiApp;
use ramflux_cli_pro::bus::BusRequest;
use ramflux_cli_pro::json::{Json, JsonNumber};
use ramflux_cli_pro::parsing::parse_approvals;
use ramflux_cli_pro::render::{input_title, message_lines, panel_lines};
use ramflux_cli_pro::state::{
    key_to_input, ConversationRow, InputMode, KeyCode, Panel, RenderedSurface, TuiInput,
    DEFAULT_CONVERSATION_ID,
};
use ramflux_cli_pro::task::{Effect, Outcome, Task, TuiError};

// ---------------------------------------------------------------------------
// JSON values by hand.

fn s(x: &str) -> Json {
    Json::Str(x.to_owned())
}

fn u(n: u64) -> Json {
    Json::Number(JsonNumber::PosInt(n))
}

fn obj(entries: Vec<(&str, Json)>) -> Json {
    Json::Object(entries.into_iter().map(|(k, v)| (k.to_owned(), v)).collect())
}

fn arr(items: Vec<Json>) -> Json {
    Json::Array(items)
}

fn same(a: &Json, b: &Json) -> bool {
    match (a, b) {
        (Json::Null, Json::Null) => true,
        (Json::Bool(x), Json::Bool(y)) => x == y,
        (Json::Number(JsonNumber::PosInt(x)), Json::Number(JsonNumber::PosInt(y))) => x == y,
        (Json::Number(JsonNumber::NegInt(x)), Json::Number(JsonNumber::NegInt(y))) => x == y,
        (Json::Number(JsonNumber::Float(x)), Json::Number(JsonNumber::Float(y))) => x == y,
        (Json::Str(x), Json::Str(y)) => x == y,
        (Json::Array(x), Json::Array(y)) => {
            x.len() == y.len() && x.iter().zip(y.iter()).all(|(p, q)| same(p, q))
        }
        (Json::Object(x), Json::Object(y)) => {
            x.len() == y.len()
                && x.iter().zip(y.iter()).all(|(p, q)| p.0 == q.0 && same(&p.1, &q.1))
        }
        _ => false,
    }
}

fn text_at<'a>(j: &'a Json, key: &str) -> Option<&'a str> {
    j.get(key).and_then(|v| v.as_str()).map(|v| v.as_str())
}

fn is_null(j: Option<&Json>) -> bool {
    matches!(j, Some(Json::Null))
}

// ---------------------------------------------------------------------------
// base64url without padding.

const ALPHABET: &[u8; 64] = b"ABCDEFGHIJKLMNOPQRSTUVWXYZabcdefghijklmnopqrstuvwxyz0123456789-_";

fn b64_encode(bytes: &[u8]) -> String {
    let mut out = String::new();
    for chunk in bytes.chunks(3) {
        let b = [chunk[0], *chunk.get(1).unwrap_or(&0), *chunk.get(2).unwrap_or(&0)];
        let n = (u32::from(b[0]) << 16) | (u32::from(b[1]) << 8) | u32::from(b[2]);
        let count = chunk.len() + 1;
        for i in 0..count {
            let index = (n >> (18 - 6 * i)) & 63;
            out.push(char::from(ALPHABET[index as usize]));
        }
    }
    out
}

fn b64_decode(text: &str) -> Option<Vec<u8>> {
    let mut values = Vec::new();
    for c in text.bytes() {
        let v = ALPHABET.iter().position(|&a| a == c)?;
        values.push(v as u32);
    }
    let mut out = Vec::new();
    for chunk in values.chunks(4) {
        if chunk.len() == 1 {
            return None;
        }
        let mut n: u32 = 0;
        for (i, v) in chunk.iter().enumerate() {
            n |= v << (18 - 6 * i);
        }
        let bytes = [(n >> 16) as u8, (n >> 8) as u8, n as u8];
        out.extend_from_slice(&bytes[..chunk.len() - 1]);
    }
    Some(out)
}

// ---------------------------------------------------------------------------
// A daemon that answers as a test needs, and a front end that runs tasks.

#[derive(Default)]
struct MockBus {
    requests: Vec<BusRequest>,
    failing: bool,
}

fn mock_transfer(object_id: &str, direction: &str, state: &str, done: u64, total: u64, percent: u64) -> Json {
    obj(vec![(
        "transfer",
        obj(vec![
            ("transfer_id", s(&format!("{direction}:{object_id}:mock"))),
            ("object_id", s(object_id)),
            ("manifest_hash", s("mock_manifest")),
            ("direction", s(direction)),
            ("state", s(state)),
            ("total_bytes", u(total)),
            ("done_bytes", u(done)),
            ("total_chunks", u(2)),
            ("completed_chunks", u(if percent == 100 { 2 } else { 1 })),
            ("next_chunk_index", if percent == 100 { Json::Null } else { u(1) }),
            ("percent", u(percent)),
            ("last_error", Json::Null),
            ("updated_at", u(1)),
        ]),
    )])
}

fn mock_approvals() -> Json {
    arr(vec![obj(vec![
        ("approval_id", s("approval_tui_1")),
        ("server_id", s("srv")),
        ("tool_name", s("echo")),
        ("risk_level", s("low")),
        ("confirmation_mode", s("attended_local")),
        ("status", s("pending")),
        (
            "details",
            obj(vec![(
                "surface",
                obj(vec![
                    ("surface_id", s("surface_tui_approval")),
                    ("catalog", s("ramflux.basic.v1")),
                    ("catalog_version", s("1")),
                    (
                        "components",
                        arr(vec![obj(vec![
                            ("id", s("approve_button")),
                            ("component_type", s("approval_card")),
                            ("action_permission", s("mcp.approve")),
                            ("children", arr(vec![])),
                        ])]),
                    ),
                ]),
            )]),
        ),
    ])])
}

fn copy_field(body: &Json, key: &str) -> Json {
    body.get(key).map_or(Json::Null, Json::copy)
}

impl MockBus {
    fn failing() -> Self {
        MockBus { requests: Vec::new(), failing: true }
    }

    fn find(&self, method: &str) -> Option<&BusRequest> {
        self.requests.iter().find(|r| r.method == method)
    }

    fn any(&self, method: &str) -> bool {
        self.find(method).is_some()
    }

    fn request(&mut self, request: BusRequest) -> Result<Json, TuiError> {
        if self.failing {
            return Err(TuiError::LocalBus("boom".to_owned()));
        }
        let method = request.method.clone();
        let body = request.body.copy();
        let requested_account = request.account_id.clone();
        self.requests.push(request);
        Ok(match method.as_str() {
            "message.read" => obj(vec![(
                "messages",
                arr(vec![obj(vec![
                    ("message_id", s("msg_tui_1")),
                    ("sender_id", s("alice")),
                    ("body_utf8", s("hello from bus")),
                ])]),
            )]),
            "contact.list" => obj(vec![(
                "contacts",
                arr(vec![obj(vec![
                    ("link_id", s("friend_tui_1")),
                    ("requester_id", s("alice")),
                    ("target_id", s("bob")),
                    ("state", s("accepted")),
                    ("verification_state", s("unverified")),
                ])]),
            )]),
            "contact.safety_number" | "contact.verify" => obj(vec![
                ("contact_identity_commitment", s("bob")),
                ("safety_number", arr(vec![s("12345"), s("67890")])),
                ("fingerprint_hex", s("f00d")),
                (
                    "verification_state",
                    s(if method == "contact.verify" { "verified" } else { "unverified" }),
                ),
            ]),
            "contact.add" | "contact.accept" => obj(vec![
                ("link_id", copy_field(&body, "link_id")),
                ("requester_id", copy_field(&body, "requester_id")),
                ("target_id", copy_field(&body, "target_id")),
                ("state", s("accepted")),
            ]),
            "device.list" => obj(vec![
                ("principal_id", s("principal_tui_alice")),
                ("local_device_id", s("device_tui_alice_b")),
                (
                    "devices",
                    arr(vec![
                        obj(vec![
                            ("device_id", s("device_tui_alice_a")),
                            ("device_epoch", u(1)),
                            ("target_delivery_id", s("target_tui_alice_a")),
                            ("is_local", Json::Bool(false)),
                        ]),
                        obj(vec![
                            ("device_id", s("device_tui_alice_b")),
                            ("device_epoch", u(2)),
                            ("target_delivery_id", s("target_tui_alice_b")),
                            ("is_local", Json::Bool(true)),
                        ]),
                    ]),
                ),
            ]),
            "device.activate" => obj(vec![("device_id", copy_field(&body, "device_id"))]),
            "device.revoke" => {
                obj(vec![("device_id", copy_field(&body, "device_id")), ("revoked", Json::Bool(true))])
            }
            "group.list" => obj(vec![(
                "groups",
                arr(vec![obj(vec![
                    ("group_id", s("group_tui_1")),
                    ("members", arr(vec![s("alice"), s("bob")])),
                    ("ttl_secs", u(60)),
                    ("mute_until", Json::Null),
                ])]),
            )]),
            "mcp.approval.list" => obj(vec![("approvals", mock_approvals())]),
            "a2ui.action" => obj(vec![("accepted", Json::Bool(true))]),
            "grant.approve" | "grant.deny" => obj(vec![("ok", Json::Bool(true))]),
            "message.submit" => obj(vec![("submitted", Json::Bool(true))]),
            "message.receive" => obj(vec![
                ("entries", arr(vec![])),
                (
                    "decrypted_messages",
                    arr(vec![obj(vec![
                        ("message_id", s("env_tui_attach_1")),
                        ("sender_id", s("bob")),
                        ("plaintext_body_base64", s(&b64_encode(b"attachment received"))),
                        (
                            "attachments",
                            arr(vec![obj(vec![
                                ("object_id", s("object_tui_attach_1")),
                                ("plaintext_base64", s(&b64_encode(b"attachment bytes"))),
                            ])]),
                        ),
                    ])]),
                ),
            ]),
            "object.put" => mock_transfer("object_tui_put", "upload", "in_progress", 512, 1024, 50),
            "object.get" => obj(vec![
                ("object_id", s("object_tui_get")),
                ("plaintext_base64", s(&b64_encode(b"object bytes"))),
            ]),
            "object.transfer.status" => {
                let object_id = text_at(&body, "object_id").unwrap_or("object_tui_status").to_owned();
                let direction = text_at(&body, "direction").unwrap_or("upload").to_owned();
                mock_transfer(&object_id, &direction, "in_progress", 512, 1024, 50)
            }
            "object.transfer.resume" => {
                let object_id = text_at(&body, "object_id").unwrap_or("object_tui_resume").to_owned();
                let direction = text_at(&body, "direction").unwrap_or("upload").to_owned();
                mock_transfer(&object_id, &direction, "complete", 1024, 1024, 100)
            }
            "message.delete" => obj(vec![("deleted", Json::Bool(true))]),
            "message.receipt.delivered" | "message.receipt.read" => {
                obj(vec![("scope", s("local_projection"))])
            }
            "group.member.remove" => obj(vec![
                ("group_id", s("group_tui_1")),
                ("members", arr(vec![s("alice")])),
            ]),
            "conversation.disappearing.set" => {
                obj(vec![("conversation_id", s("group_tui_1")), ("ttl_secs", u(30))])
            }
            "conversation.mute" => obj(vec![
                ("conversation_id", s("group_tui_1")),
                ("mute_until", copy_field(&body, "mute_until")),
            ]),
            "subscription.open" => obj(vec![("subscribed", Json::Bool(true))]),
            "account.status" => obj(vec![
                ("local_account_id", s("alice_account")),
                ("principal_id", s("principal_tui_alice")),
                ("device_id", s("device_tui_alice")),
                ("target_delivery_id", s("target_tui_alice")),
            ]),
            "account.switch" => obj(vec![(
                "active_account_id",
                s(&requested_account.unwrap_or_else(|| "unknown".to_owned())),
            )]),
            _ => obj(vec![]),
        })
    }
}

/// Renders a surface document: its components' types, in order, stand for
/// the semantic snapshot; a component of unknown type is rendered by the
/// fallback.
fn mock_render(surface: &Json) -> Option<(Json, Option<RenderedSurface>)> {
    let components = surface.get("components")?.as_array()?;
    let mut kinds = Vec::new();
    let mut fallback = false;
    for c in components {
        let kind = text_at(c, "component_type").unwrap_or("unknown").to_owned();
        if kind != "approval_card" {
            fallback = true;
        }
        kinds.push(kind);
    }
    let hash = format!("hash:{}", text_at(surface, "surface_id").unwrap_or(""));
    Some((
        surface.copy(),
        Some(RenderedSurface { surface_hash: hash, fallback_used: fallback, semantic_snapshot: kinds.join(" ") }),
    ))
}

/// Runs a task to its end, doing the outside work it asks for.
fn drive(app: &mut TuiApp, bus: &mut MockBus, mut task: Task) -> Result<Option<Json>, TuiError> {
    let mut outcome = Outcome::Start;
    loop {
        outcome = match app.advance(&mut task, outcome) {
            Effect::Request(request) => match bus.request(request) {
                Ok(response) => Outcome::Response(response),
                Err(error) => Outcome::Failed(error),
            },
            Effect::Encode(bytes) => Outcome::Encoded(b64_encode(&bytes)),
            Effect::Decode(payloads) => Outcome::Decoded(
                payloads
                    .iter()
                    .map(|p| {
                        p.as_deref().and_then(b64_decode).and_then(|b| String::from_utf8(b).ok())
                    })
                    .collect(),
            ),
            Effect::Render(job) => Outcome::Rendered(
                job.candidates.iter().map(|c| c.as_ref().and_then(mock_render)).collect(),
            ),
            Effect::ReadFile(path) => {
                if path == "./notes.txt" {
                    Outcome::FileRead(b"file bytes".to_vec(), Some("notes.txt".to_owned()))
                } else {
                    Outcome::Failed(TuiError::LocalBus(format!("cannot read {path}")))
                }
            }
            Effect::Clock => Outcome::Clock(1_760_000_000),
            Effect::Done(output) => return Ok(output),
            Effect::Fail(error) => return Err(error),
        };
    }
}

fn input(app: &mut TuiApp, bus: &mut MockBus, event: TuiInput) -> Result<(), TuiError> {
    let task = app.handle_input(event)?;
    drive(app, bus, task)?;
    Ok(())
}

fn type_text(app: &mut TuiApp, bus: &mut MockBus, text: &str) -> Result<(), TuiError> {
    for c in text.chars() {
        input(app, bus, TuiInput::Char(c))?;
    }
    Ok(())
}

fn error_text(error: &TuiError) -> String {
    match error {
        TuiError::LocalBus(message) => message.clone(),
    }
}

/// Handles an input the way the front end does: a failure only shows on the
/// status line.
fn dispatch(app: &mut TuiApp, bus: &mut MockBus, event: TuiInput) {
    if let Err(error) = input(app, bus, event) {
        app.record_input_error(&error_text(&error));
    }
}

fn refreshed(account: &str, bus: &mut MockBus) -> Result<TuiApp, TuiError> {
    let mut app = TuiApp::new(account.to_owned());
    let task = app.refresh_all();
    drive(&mut app, bus, task)?;
    Ok(app)
}

fn screen(app: &TuiApp) -> String {
    panel_lines(&app.state).join("\n")
}

fn submitted_plaintext(bus: &MockBus) -> Option<String> {
    let submit = bus.requests.iter().rev().find(|r| r.method == "message.submit")?;
    let text = text_at(&submit.body, "plaintext_body_base64")?;
    String::from_utf8(b64_decode(text)?).ok()
}

// ---------------------------------------------------------------------------
// Scenarios of the client.

#[test]
fn renders_conversations_messages_contacts_and_groups() -> Result<(), TuiError> {
    let mut bus = MockBus::default();
    let mut app = refreshed("alice_account", &mut bus)?;

    assert!(screen(&app).contains("Default DM"));
    app.state.selected_panel = Panel::Messages;
    assert!(screen(&app).contains("hello from bus"));
    app.state.selected_panel = Panel::Contacts;
    let text = screen(&app);
    assert!(text.contains("friend_tui_1"));
    assert!(text.contains("unverified"));

    app.state.selected_panel = Panel::Groups;
    let text = screen(&app);
    assert!(text.contains("group_tui_1"));
    assert!(text.contains("alice,bob"));
    app.state.selected_panel = Panel::Approvals;
    let text = screen(&app);
    assert!(text.contains("approval_tui_1"));
    assert!(text.contains("attended_local"));
    assert!(text.contains("approval_card"));
    assert!(text.contains("a2ui_hash="));
    Ok(())
}

#[test]
fn contact_panel_loads_safety_number_and_marks_verified() -> Result<(), TuiError> {
    let mut bus = MockBus::default();
    let mut app = refreshed("alice_account", &mut bus)?;
    app.state.selected_panel = Panel::Contacts;

    input(&mut app, &mut bus, TuiInput::Char('S'))?;
    assert_eq!(app.state.contacts[0].fingerprint_hex.as_deref(), Some("f00d"));
    assert_eq!(app.state.contacts[0].verification_state, "unverified");

    input(&mut app, &mut bus, TuiInput::Char('V'))?;
    assert_eq!(app.state.contacts[0].verification_state, "verified");
    assert!(bus.any("contact.verify"));
    Ok(())
}

#[test]
fn contacts_panel_adds_contact_with_commitments_and_switches_account() -> Result<(), TuiError> {
    let mut bus = MockBus::default();
    let mut app = refreshed("alice_account", &mut bus)?;
    app.state.selected_panel = Panel::Contacts;

    input(&mut app, &mut bus, TuiInput::EnterCompose)?;
    type_text(&mut app, &mut bus, "add friend_tui_2 alice_commitment bob_commitment")?;
    input(&mut app, &mut bus, TuiInput::Enter)?;
    assert_eq!(app.state.input_mode, InputMode::Normal);
    let add = bus.find("contact.add").ok_or_else(|| TuiError::LocalBus("missing add".to_owned()))?;
    assert_eq!(add.account_id.as_deref(), Some("alice_account"));
    assert_eq!(text_at(&add.body, "requester_id"), Some("alice_commitment"));
    assert_eq!(text_at(&add.body, "target_id"), Some("bob_commitment"));
    assert_eq!(app.state.status_message.as_deref(), Some("contact added: friend_tui_2"));

    input(&mut app, &mut bus, TuiInput::EnterCompose)?;
    type_text(&mut app, &mut bus, "switch bob_account")?;
    input(&mut app, &mut bus, TuiInput::Enter)?;
    let switch =
        bus.find("account.switch").ok_or_else(|| TuiError::LocalBus("missing switch".to_owned()))?;
    assert_eq!(switch.account_id.as_deref(), Some("bob_account"));
    assert_eq!(app.state.account_id, "bob_account");
    Ok(())
}

#[test]
fn message_panel_surfaces_receipts_and_delete_actions() -> Result<(), TuiError> {
    let mut bus = MockBus::default();
    let mut app = TuiApp::new("alice_account".to_owned());
    app.set_local_device_id("alice_device_tui".to_owned());
    let task = app.refresh_all();
    drive(&mut app, &mut bus, task)?;
    app.state.selected_panel = Panel::Messages;
    app.state.conversations[0].recipient_device_id = Some("bob_device_tui".to_owned());
    app.state.conversations[0].target_delivery_id = Some("target_bob_tui".to_owned());

    input(&mut app, &mut bus, TuiInput::Char('l'))?;
    input(&mut app, &mut bus, TuiInput::Char('r'))?;
    input(&mut app, &mut bus, TuiInput::Char('x'))?;

    assert!(bus.any("message.receipt.delivered"));
    assert!(bus.any("message.receipt.read"));
    let delivered = bus
        .find("message.receipt.delivered")
        .ok_or_else(|| TuiError::LocalBus("missing delivered".to_owned()))?;
    assert_eq!(text_at(&delivered.body, "receiver_device_id"), Some("alice_device_tui"));
    assert_eq!(text_at(&delivered.body, "recipient_device_id"), Some("bob_device_tui"));
    assert_eq!(text_at(&delivered.body, "target_delivery_id"), Some("target_bob_tui"));
    let read =
        bus.find("message.receipt.read").ok_or_else(|| TuiError::LocalBus("missing read".to_owned()))?;
    assert_eq!(text_at(&read.body, "reader_id"), Some("alice_device_tui"));
    assert_eq!(text_at(&read.body, "recipient_device_id"), Some("bob_device_tui"));
    assert_eq!(text_at(&read.body, "target_delivery_id"), Some("target_bob_tui"));
    assert!(bus.any("message.delete"));
    assert_eq!(app.state.messages[0].status, "deleted");
    Ok(())
}

#[test]
fn group_panel_surfaces_governance_actions() -> Result<(), TuiError> {
    let mut bus = MockBus::default();
    let mut app = refreshed("alice_account", &mut bus)?;

    let task = app.remove_group_member("bob", "alice");
    drive(&mut app, &mut bus, task)?;
    let task = app.set_selected_group_disappearing(30);
    drive(&mut app, &mut bus, task)?;
    let task = app.mute_selected_group(1_760_000_600);
    drive(&mut app, &mut bus, task)?;
    let task = app.unmute_selected_group();
    drive(&mut app, &mut bus, task)?;

    assert!(bus.any("group.member.remove"));
    assert!(bus.any("conversation.disappearing.set"));
    assert!(bus.any("conversation.mute"));
    assert_eq!(app.state.groups[0].members, vec!["alice"]);
    assert_eq!(app.state.groups[0].disappearing_ttl_secs, Some(30));
    Ok(())
}

#[test]
fn contacts_panel_surfaces_device_restore_and_revoke() -> Result<(), TuiError> {
    let mut bus = MockBus::default();
    let mut app = TuiApp::new("alice_account".to_owned());

    let task = app.refresh_devices();
    drive(&mut app, &mut bus, task)?;
    let task = app.activate_device("device_tui_alice_b", "target_tui_alice_b", [0x22; 32], Some(2));
    drive(&mut app, &mut bus, task)?;
    let task = app.revoke_device("device_tui_alice_b");
    drive(&mut app, &mut bus, task)?;

    assert!(app.state.devices.iter().any(|device| {
        device.device_id == "device_tui_alice_b" && device.is_local && device.device_epoch == 2
    }));
    let activate =
        bus.find("device.activate").ok_or_else(|| TuiError::LocalBus("missing activate".to_owned()))?;
    assert_eq!(activate.sdk_api, "device");
    assert_eq!(text_at(&activate.body, "device_id"), Some("device_tui_alice_b"));
    assert_eq!(text_at(&activate.body, "target_delivery_id"), Some("target_tui_alice_b"));
    assert_eq!(activate.body.get("device_epoch").and_then(|v| v.as_u64()), Some(2));
    let revoke =
        bus.find("device.revoke").ok_or_else(|| TuiError::LocalBus("missing revoke".to_owned()))?;
    assert_eq!(text_at(&revoke.body, "device_id"), Some("device_tui_alice_b"));
    assert!(bus.any("device.list"));
    Ok(())
}

#[test]
fn contacts_panel_surfaces_own_device_sync_actions() -> Result<(), TuiError> {
    let mut bus = MockBus::default();
    let mut app = TuiApp::new("alice_account".to_owned());

    let envelope = obj(vec![
        ("schema", s("ramflux.sdk.own_device_sync.v1")),
        ("snapshot_id", s("snapshot_tui")),
    ]);
    let task = app.export_device_sync(
        "device_tui_alice_b",
        "http://127.0.0.1:18084",
        Some("relay-key".to_owned()),
    );
    drive(&mut app, &mut bus, task)?;
    let task = app.import_device_sync(envelope.copy(), Some("relay-key".to_owned()));
    drive(&mut app, &mut bus, task)?;

    let export = bus
        .find("device.sync.export")
        .ok_or_else(|| TuiError::LocalBus("missing sync export".to_owned()))?;
    assert_eq!(text_at(&export.body, "target_device_id"), Some("device_tui_alice_b"));
    assert_eq!(text_at(&export.body, "relay_endpoint"), Some("http://127.0.0.1:18084"));
    let import = bus
        .find("device.sync.import")
        .ok_or_else(|| TuiError::LocalBus("missing sync import".to_owned()))?;
    assert!(import.body.get("envelope").is_some_and(|e| same(e, &envelope)));
    Ok(())
}

#[test]
fn enter_in_message_panel_submits_plaintext_over_bus() -> Result<(), TuiError> {
    let mut bus = MockBus::default();
    let mut app = refreshed("alice_account", &mut bus)?;
    app.state.selected_panel = Panel::Messages;
    input(&mut app, &mut bus, TuiInput::EnterCompose)?;
    type_text(&mut app, &mut bus, "typed via tui")?;
    input(&mut app, &mut bus, TuiInput::Enter)?;

    let submit =
        bus.find("message.submit").ok_or_else(|| TuiError::LocalBus("missing submit".to_owned()))?;
    assert_eq!(submit.sdk_api, "message");
    assert!(is_null(submit.body.get("recipient_device_id")));
    let plaintext =
        submitted_plaintext(&bus).ok_or_else(|| TuiError::LocalBus("missing plaintext".to_owned()))?;
    assert_eq!(plaintext, "typed via tui");
    assert!(app.state.messages.iter().any(|message| message.body == "typed via tui"));
    Ok(())
}

#[test]
fn compose_mode_submits_shortcut_characters_as_plaintext() -> Result<(), TuiError> {
    let mut bus = MockBus::default();
    let mut app = refreshed("alice_account", &mut bus)?;
    app.state.selected_panel = Panel::Messages;

    input(&mut app, &mut bus, TuiInput::EnterCompose)?;
    assert_eq!(app.state.input_mode, InputMode::Compose);
    type_text(&mut app, &mut bus, "relax xray lol")?;
    input(&mut app, &mut bus, TuiInput::Enter)?;

    assert_eq!(app.state.input_mode, InputMode::Normal);
    assert!(!bus.any("message.delete"));
    assert!(!bus.any("message.receipt.delivered"));
    assert!(!bus.any("message.receipt.read"));
    assert!(bus.any("message.submit"));
    let plaintext =
        submitted_plaintext(&bus).ok_or_else(|| TuiError::LocalBus("missing plaintext".to_owned()))?;
    assert_eq!(plaintext, "relax xray lol");
    Ok(())
}

#[test]
fn compose_mode_keeps_keyboard_mapped_q_and_i_as_plaintext() -> Result<(), TuiError> {
    let mut bus = MockBus::default();
    let mut app = refreshed("alice_account", &mut bus)?;
    app.state.selected_panel = Panel::Messages;

    input(&mut app, &mut bus, TuiInput::EnterCompose)?;
    let q_input = key_to_input(KeyCode::Char('q'))
        .ok_or_else(|| TuiError::LocalBus("missing q input mapping".to_owned()))?;
    let i_input = key_to_input(KeyCode::Char('i'))
        .ok_or_else(|| TuiError::LocalBus("missing i input mapping".to_owned()))?;
    input(&mut app, &mut bus, q_input)?;
    input(&mut app, &mut bus, i_input)?;

    assert_eq!(app.state.input, "qi");
    assert_eq!(app.state.input_mode, InputMode::Compose);
    assert!(!app.should_quit());
    Ok(())
}

#[test]
fn compose_mode_on_objects_preserves_command_letters() -> Result<(), TuiError> {
    let mut bus = MockBus::default();
    let mut app = refreshed("alice_account", &mut bus)?;
    app.state.selected_panel = Panel::Objects;

    input(&mut app, &mut bus, TuiInput::EnterCompose)?;
    assert_eq!(app.state.input_mode, InputMode::Compose);
    type_text(&mut app, &mut bus, "put ./foo.rs id")?;
    assert_eq!(app.state.input, "put ./foo.rs id");
    Ok(())
}

#[test]
fn compose_enter_dispatches_object_command_and_resets_mode() -> Result<(), TuiError> {
    let mut bus = MockBus::default();
    let mut app = refreshed("alice_account", &mut bus)?;
    app.state.selected_panel = Panel::Objects;

    input(&mut app, &mut bus, TuiInput::EnterCompose)?;
    type_text(&mut app, &mut bus, "status object_resource")?;
    input(&mut app, &mut bus, TuiInput::Enter)?;

    assert_eq!(app.state.input_mode, InputMode::Normal);
    assert!(app.state.input.is_empty());
    assert!(bus.requests.iter().any(|request| {
        request.method == "object.transfer.status"
            && text_at(&request.body, "object_id") == Some("object_resource")
    }));
    assert!(!bus.any("message.submit"));
    Ok(())
}

#[test]
fn input_title_reflects_compose_mode() -> Result<(), TuiError> {
    let mut bus = MockBus::default();
    let mut app = refreshed("alice_account", &mut bus)?;
    app.state.selected_panel = Panel::Messages;

    assert!(input_title(app.state.input_mode).contains("NORMAL i=compose"));
    input(&mut app, &mut bus, TuiInput::EnterCompose)?;
    assert!(input_title(app.state.input_mode).contains("COMPOSE"));
    Ok(())
}

fn default_conversation() -> ConversationRow {
    ConversationRow {
        id: DEFAULT_CONVERSATION_ID.to_owned(),
        title: "Default DM".to_owned(),
        last_message: String::new(),
        unread: 0,
        status: "synced".to_owned(),
        recipient_device_id: None,
        target_delivery_id: None,
    }
}

#[test]
fn gateway_deliver_event_refreshes_message_view() -> Result<(), TuiError> {
    let mut bus = MockBus::default();
    let mut app = TuiApp::new("alice_account".to_owned());
    app.state.conversations.push(default_conversation());
    let body = obj(vec![(
        "entries",
        arr(vec![obj(vec![
            ("inbox_seq", u(1)),
            (
                "envelope",
                obj(vec![("envelope_id", s("env_tui_event_1")), ("source_principal_id", s("bob"))]),
            ),
        ])]),
    )]);

    let task = app.handle_bus_event("gateway.deliver", &body);
    drive(&mut app, &mut bus, task)?;
    assert!(app.state.messages.iter().any(|message| message.id == "env_tui_event_1"));
    assert_eq!(app.state.conversations[0].unread, 1);
    Ok(())
}

#[test]
fn message_submit_uses_selected_conversation_recipient_for_bootstrap() -> Result<(), TuiError> {
    let mut bus = MockBus::default();
    let mut app = TuiApp::new("alice_account".to_owned());
    app.state.conversations.push(ConversationRow {
        id: "conv_bootstrap".to_owned(),
        title: "Bob".to_owned(),
        last_message: String::new(),
        unread: 0,
        status: "synced".to_owned(),
        recipient_device_id: Some("bob_device_tui".to_owned()),
        target_delivery_id: Some("target_tui_bob".to_owned()),
    });
    app.state.selected_panel = Panel::Messages;
    input(&mut app, &mut bus, TuiInput::EnterCompose)?;
    type_text(&mut app, &mut bus, "hello bob")?;
    input(&mut app, &mut bus, TuiInput::Enter)?;

    let submit =
        bus.find("message.submit").ok_or_else(|| TuiError::LocalBus("missing submit".to_owned()))?;
    assert_eq!(text_at(&submit.body, "conversation_id"), Some("conv_bootstrap"));
    assert_eq!(text_at(&submit.body, "source_principal_id"), Some("principal_tui_alice"));
    assert_eq!(text_at(&submit.body, "sender_id"), Some("device_tui_alice"));
    assert_eq!(text_at(&submit.body, "recipient_device_id"), Some("bob_device_tui"));
    assert_eq!(text_at(&submit.body, "target_delivery_id"), Some("target_tui_bob"));
    Ok(())
}

#[test]
fn message_panel_submits_queued_attachment_over_bus() -> Result<(), TuiError> {
    let mut bus = MockBus::default();
    let mut app = refreshed("alice_account", &mut bus)?;
    app.state.selected_panel = Panel::Messages;
    let task = app.queue_attachment_bytes_for_relay(
        "object_tui_attach_send".to_owned(),
        b"secret attachment bytes".to_vec(),
        "http://relay.test".to_owned(),
        Some("relay_key_tui".to_owned()),
    );
    drive(&mut app, &mut bus, task)?;
    input(&mut app, &mut bus, TuiInput::EnterCompose)?;
    type_text(&mut app, &mut bus, "body with attachment")?;
    input(&mut app, &mut bus, TuiInput::Enter)?;

    let submit = bus
        .requests
        .iter()
        .rfind(|request| request.method == "message.submit")
        .ok_or_else(|| TuiError::LocalBus("missing submit".to_owned()))?;
    let attachments = submit
        .body
        .get("attachments")
        .and_then(|a| a.as_array())
        .ok_or_else(|| TuiError::LocalBus("missing attachments".to_owned()))?;
    assert_eq!(attachments.len(), 1);
    assert_eq!(text_at(&attachments[0], "object_id"), Some("object_tui_attach_send"));
    assert_eq!(text_at(&attachments[0], "relay_endpoint"), Some("http://relay.test"));
    assert_eq!(text_at(&attachments[0], "relay_service_key_base64"), Some("relay_key_tui"));
    assert_eq!(
        text_at(&attachments[0], "plaintext_base64"),
        Some(b64_encode(b"secret attachment bytes").as_str())
    );
    assert_eq!(app.state.pending_attachments.len(), 0);
    assert!(app.state.messages.iter().any(|message| {
        message.attachments.iter().any(|item| item.object_id == "object_tui_attach_send")
    }));
    Ok(())
}

#[test]
fn message_receive_auto_fetches_and_renders_attachment() -> Result<(), TuiError> {
    let mut bus = MockBus::default();
    let mut app = TuiApp::new("bob_account".to_owned());
    let task = app.receive_messages_with_attachments();
    drive(&mut app, &mut bus, task)?;

    let receive =
        bus.find("message.receive").ok_or_else(|| TuiError::LocalBus("missing receive".to_owned()))?;
    assert!(matches!(receive.body.get("auto_fetch_attachments"), Some(Json::Bool(true))));
    let message = app
        .state
        .messages
        .iter()
        .find(|message| message.id == "env_tui_attach_1")
        .ok_or_else(|| TuiError::LocalBus("missing message".to_owned()))?;
    assert_eq!(message.body, "attachment received");
    assert_eq!(message.attachments[0].object_id, "object_tui_attach_1");
    assert_eq!(message.attachments[0].status, "decrypted");

    app.state.selected_panel = Panel::Messages;
    assert!(message_lines(&app.state).join("\n").contains("object_tui_attach_1:decrypted"));
    Ok(())
}

#[test]
fn object_panel_renders_transfer_progress_and_resumes() -> Result<(), TuiError> {
    let mut bus = MockBus::default();
    let mut app = TuiApp::new("alice_account".to_owned());
    let task = app.refresh_object_status("object_tui_status", Some("upload".to_owned()));
    drive(&mut app, &mut bus, task)?;
    if let Some(row) = app.state.object_transfers.first_mut() {
        row.relay_endpoint = Some("http://relay.test".to_owned());
        row.relay_service_key_base64 = Some("relay_key_tui".to_owned());
    }
    app.state.selected_panel = Panel::Objects;

    let text = screen(&app);
    assert!(text.contains("object_tui_status"));
    assert!(text.contains("in_progress"));
    assert!(text.contains("512/1024 50%"));

    input(&mut app, &mut bus, TuiInput::Char('r'))?;
    assert!(bus.requests.iter().any(|request| {
        request.method == "object.transfer.resume"
            && text_at(&request.body, "object_id") == Some("object_tui_status")
            && text_at(&request.body, "relay_endpoint") == Some("http://relay.test")
    }));
    assert_eq!(app.state.object_transfers[0].state, "complete");
    assert_eq!(app.state.object_transfers[0].percent, 100);
    Ok(())
}

#[test]
fn mcp_approval_event_enters_approval_panel() -> Result<(), TuiError> {
    let mut bus = MockBus::default();
    let mut app = TuiApp::new("alice_account".to_owned());
    let body = obj(vec![
        ("approval_id", s("approval_tui_event")),
        ("server_id", s("srv")),
        ("tool_name", s("echo")),
        ("risk_level", s("low")),
        ("confirmation_mode", s("attended_local")),
        ("status", s("pending")),
    ]);

    let task = app.handle_bus_event("mcp.approval.request", &body);
    drive(&mut app, &mut bus, task)?;
    assert_eq!(app.state.approvals.len(), 1);
    assert_eq!(app.state.approvals[0].id, "approval_tui_event");
    Ok(())
}

#[test]
fn approval_panel_approves_pending_request_over_bus() -> Result<(), TuiError> {
    let mut bus = MockBus::default();
    let mut app = refreshed("alice_account", &mut bus)?;
    app.state.selected_panel = Panel::Approvals;
    input(&mut app, &mut bus, TuiInput::Char('a'))?;
    let action = bus.requests.iter().any(|request| {
        request.method == "a2ui.action"
            && request.body.get2("action", "permission").and_then(|p| p.as_str()).map(|p| p.as_str())
                == Some("mcp.approve")
    });
    assert!(action);
    let approved = bus.requests.iter().any(|request| {
        request.method == "grant.approve" && text_at(&request.body, "approval_id") == Some("approval_tui_1")
    });
    assert!(approved);
    Ok(())
}

#[test]
fn remote_app_approval_is_visible_and_not_locally_approved() -> Result<(), TuiError> {
    let mut bus = MockBus::default();
    let mut app = refreshed("alice_account", &mut bus)?;
    let response = obj(vec![(
        "approvals",
        arr(vec![obj(vec![
            ("approval_id", s("approval_remote_tui")),
            ("server_id", s("srv")),
            ("tool_name", s("shell")),
            ("risk_level", s("high")),
            ("confirmation_mode", s("remote_app")),
            ("status", s("pending")),
        ])]),
    )]);
    app.state.approvals = parse_approvals(&response, &vec![None]);
    app.state.selected_panel = Panel::Approvals;

    let text = screen(&app);
    assert!(text.contains("remote_app"));
    assert!(text.contains("remote_app:"));
    assert!(text.contains("App"));

    input(&mut app, &mut bus, TuiInput::Char('a'))?;
    assert_eq!(app.state.status_message.as_deref(), Some("该审批需 App 端签名授权(remote_app)"));
    assert!(!bus.any("grant.approve"));
    Ok(())
}

#[test]
fn dispatch_input_surfaces_error_without_quitting() {
    let mut bus = MockBus::failing();
    let mut app = TuiApp::new("alice".to_owned());
    app.state.selected_panel = Panel::Messages;
    app.state.input = "hi".to_owned();
    assert!(app.state.status_message.is_none());

    dispatch(&mut app, &mut bus, TuiInput::Enter);

    assert!(!app.should_quit(), "event loop must keep running after an input error");
    assert!(
        app.state.status_message.as_deref().is_some_and(|status| status.starts_with("error:")),
        "error should be surfaced to the status line: {:?}",
        app.state.status_message
    );
}
