//! Reading daemon responses into rows.

use vstd::prelude::*;
use crate::json::{
    Json, JsonV, jget, jget2, jstr, jitems, ju64, ji64, jbool, sfield, str_items, string_field,
    collect_strings,
};
use crate::state::{
    views, opt_view, AttachmentRow, AttachmentRowV, MessageReceiptRow, MessageReceiptRowV,
    MessageRow, MessageRowV, ObjectTransferRow, ObjectTransferRowV, ContactRow, ContactRowV,
    DeviceRow, DeviceRowV, GroupRow, GroupRowV, ApprovalRow, ApprovalRowV, RenderedSurface,
};
use crate::text::cat3;

verus! {

pub open spec fn attachment_v(a: JsonV, message_id: Seq<char>) -> AttachmentRowV {
    AttachmentRowV {
        message_id,
        object_id: sfield(a, "object_id"@, "object"@),
        status: if jget(a, "plaintext_base64"@) is Some {
            "decrypted"@
        } else {
            sfield(a, "status"@, "referenced"@)
        },
        plaintext_base64: jstr(jget(a, "plaintext_base64"@)),
    }
}

pub open spec fn attachments_v(j: Option<JsonV>, message_id: Seq<char>) -> Seq<AttachmentRowV> {
    jitems(j).map_values(|a: JsonV| attachment_v(a, message_id))
}

pub open spec fn receipt_v(r: JsonV) -> MessageReceiptRowV {
    MessageReceiptRowV {
        device_id: sfield(r, "device_id"@, "device"@),
        state: sfield(r, "state"@, "delivered"@),
    }
}

pub open spec fn receipts_v(j: Option<JsonV>) -> Seq<MessageReceiptRowV> {
    jitems(j).map_values(|r: JsonV| receipt_v(r))
}

/// A message row from the `messages` projection.
pub open spec fn stored_message_v(m: JsonV) -> MessageRowV {
    MessageRowV {
        id: sfield(m, "message_id"@, "message"@),
        sender: sfield(m, "sender_id"@, "peer"@),
        body: sfield(m, "body_utf8"@, "[encrypted message]"@),
        status: "sent"@,
        attachments: attachments_v(jget(m, "attachments"@), sfield(m, "message_id"@, "message"@)),
        receipts: receipts_v(jget(m, "receipts"@)),
    }
}

/// A message row from `decrypted_messages`, given the text that its
/// `plaintext_body_base64` decodes to, if it decodes to text.
pub open spec fn decrypted_message_v(m: JsonV, decoded: Option<Seq<char>>) -> MessageRowV {
    MessageRowV {
        id: sfield(m, "message_id"@, "message"@),
        sender: sfield(m, "sender_id"@, "peer"@),
        body: match decoded {
            Some(b) => b,
            None => "[encrypted message]"@,
        },
        status: "received"@,
        attachments: attachments_v(jget(m, "attachments"@), sfield(m, "message_id"@, "message"@)),
        receipts: receipts_v(jget(m, "receipts"@)),
    }
}

/// The decoded text handed back for the `i`th decrypted message.
pub open spec fn decoded_at(decoded: Seq<Option<Seq<char>>>, i: int) -> Option<Seq<char>> {
    if 0 <= i < decoded.len() {
        decoded[i]
    } else {
        None
    }
}

/// The base64url payloads of the decrypted messages of a response, in order.
pub open spec fn decrypted_payloads_v(response: JsonV) -> Seq<Option<Seq<char>>> {
    jitems(jget(response, "decrypted_messages"@)).map_values(
        |m: JsonV| jstr(jget(m, "plaintext_body_base64"@)),
    )
}

pub open spec fn decrypted_messages_v(response: JsonV, decoded: Seq<Option<Seq<char>>>) -> Seq<
    MessageRowV,
> {
    let items = jitems(jget(response, "decrypted_messages"@));
    Seq::new(items.len(), |i: int| decrypted_message_v(items[i], decoded_at(decoded, i)))
}

pub open spec fn messages_v(response: JsonV, decoded: Seq<Option<Seq<char>>>) -> Seq<MessageRowV> {
    jitems(jget(response, "messages"@)).map_values(|m: JsonV| stored_message_v(m))
        + decrypted_messages_v(response, decoded)
}

pub open spec fn transfer_v(response: JsonV) -> Option<ObjectTransferRowV> {
    match jget(response, "transfer"@) {
        Some(t) => Some(
            ObjectTransferRowV {
                object_id: sfield(t, "object_id"@, "object"@),
                direction: sfield(t, "direction"@, "unknown"@),
                state: sfield(t, "state"@, "unknown"@),
                done_bytes: match ju64(jget(t, "done_bytes"@)) {
                    Some(v) => v,
                    None => 0,
                },
                total_bytes: match ju64(jget(t, "total_bytes"@)) {
                    Some(v) => v,
                    None => 0,
                },
                percent: match ju64(jget(t, "percent"@)) {
                    Some(v) => if v <= u32::MAX {
                        v as u32
                    } else {
                        0
                    },
                    None => 0,
                },
                last_error: jstr(jget(t, "last_error"@)),
                relay_endpoint: None,
                relay_service_key_base64: None,
            },
        ),
        None => None,
    }
}

pub open spec fn contact_v(c: JsonV) -> ContactRowV {
    ContactRowV {
        link_id: sfield(c, "link_id"@, "contact"@),
        requester: sfield(c, "requester_id"@, "requester"@),
        target: sfield(c, "target_id"@, "target"@),
        state: sfield(c, "state"@, "accepted"@),
        safety_number: str_items(jitems(jget(c, "safety_number"@))),
        fingerprint_hex: jstr(jget(c, "fingerprint_hex"@)),
        verification_state: sfield(c, "verification_state"@, "unverified"@),
    }
}

pub open spec fn contacts_v(response: JsonV) -> Seq<ContactRowV> {
    jitems(jget(response, "contacts"@)).map_values(|c: JsonV| contact_v(c))
}

pub open spec fn group_v(g: JsonV) -> GroupRowV {
    GroupRowV {
        id: sfield(g, "group_id"@, "group"@),
        members: str_items(jitems(jget(g, "members"@))),
        disappearing_ttl_secs: match jget(g, "disappearing_ttl_secs"@) {
            Some(v) => ji64(Some(v)),
            None => ji64(jget(g, "ttl_secs"@)),
        },
        mute_until: ji64(jget(g, "mute_until"@)),
    }
}

pub open spec fn groups_v(response: JsonV) -> Seq<GroupRowV> {
    jitems(jget(response, "groups"@)).map_values(|g: JsonV| group_v(g))
}

pub open spec fn device_v(d: JsonV) -> DeviceRowV {
    DeviceRowV {
        device_id: sfield(d, "device_id"@, "device"@),
        device_epoch: match ju64(jget(d, "device_epoch"@)) {
            Some(v) => v,
            None => 1,
        },
        target_delivery_id: sfield(d, "target_delivery_id"@, "target"@),
        is_local: match jbool(jget(d, "is_local"@)) {
            Some(b) => b,
            None => false,
        },
    }
}

pub open spec fn devices_v(response: JsonV) -> Seq<DeviceRowV> {
    jitems(jget(response, "devices"@)).map_values(|d: JsonV| device_v(d))
}

/// The surface document of an approval: `details.surface`, else `surface`.
pub open spec fn surface_candidate_v(approval: JsonV) -> Option<JsonV> {
    match jget2(approval, "details"@, "surface"@) {
        Some(s) => Some(s),
        None => jget(approval, "surface"@),
    }
}

/// An approval row, given what reading its surface document yielded: its
/// normal form and rendering, or nothing when it is no surface.
pub open spec fn approval_v(
    a: JsonV,
    surface: Option<(JsonV, Option<crate::state::RenderedSurfaceV>)>,
) -> ApprovalRowV {
    ApprovalRowV {
        id: sfield(a, "approval_id"@, "approval"@),
        tool: sfield(a, "server_id"@, "server"@) + "/"@ + sfield(a, "tool_name"@, "tool"@),
        risk: sfield(a, "risk_level"@, "unknown"@),
        mode: sfield(a, "confirmation_mode"@, "remote_app"@),
        confirmation_mode: sfield(a, "confirmation_mode"@, "remote_app"@),
        status: sfield(a, "status"@, "pending"@),
        surface: match surface {
            Some((s, _)) => Some(s),
            None => None,
        },
        rendered_surface: match surface {
            Some((_, r)) => r,
            None => None,
        },
    }
}

pub open spec fn surface_at(
    s: Seq<Option<(JsonV, Option<crate::state::RenderedSurfaceV>)>>,
    i: int,
) -> Option<(JsonV, Option<crate::state::RenderedSurfaceV>)> {
    if 0 <= i < s.len() {
        s[i]
    } else {
        None
    }
}

pub open spec fn approvals_v(
    response: JsonV,
    surfaces: Seq<Option<(JsonV, Option<crate::state::RenderedSurfaceV>)>>,
) -> Seq<ApprovalRowV> {
    let items = jitems(jget(response, "approvals"@));
    Seq::new(items.len(), |i: int| approval_v(items[i], surface_at(surfaces, i)))
}

/// What reading a surface document yielded, as plain values.
pub open spec fn surface_outcome_v(o: Option<(Json, Option<RenderedSurface>)>) -> Option<
    (JsonV, Option<crate::state::RenderedSurfaceV>),
> {
    match o {
        Some((s, r)) => Some((s@, opt_view(r))),
        None => None,
    }
}

pub open spec fn surface_outcomes_v(o: Seq<Option<(Json, Option<RenderedSurface>)>>) -> Seq<
    Option<(JsonV, Option<crate::state::RenderedSurfaceV>)>,
> {
    o.map_values(|x: Option<(Json, Option<RenderedSurface>)>| surface_outcome_v(x))
}

pub open spec fn opt_strings_v(o: Seq<Option<String>>) -> Seq<Option<Seq<char>>> {
    o.map_values(|x: Option<String>| opt_view(x))
}

/// The items of array member `key` of `response`.
fn items_of<'a>(response: &'a Json, key: &str) -> (r: Option<&'a Vec<Json>>)
    ensures
        match r {
            Some(v) => v@.map_values(|x: Json| x@) == jitems(jget(response@, key@)),
            None => jitems(jget(response@, key@)) == Seq::<JsonV>::empty(),
        },
{
    match response.get(key) {
        Some(v) => v.as_array(),
        None => None,
    }
}

fn opt_string_of(value: &Json, key: &str) -> (r: Option<String>)
    ensures
        opt_view(r) == jstr(jget(value@, key@)),
{
    match value.get(key) {
        Some(v) => match v.as_str() {
            Some(s) => Some(s.clone()),
            None => None,
        },
        None => None,
    }
}

fn attachment_row(message_id: &String, a: &Json) -> (r: AttachmentRow)
    ensures
        r@ == attachment_v(a@, message_id@),
{
    let status = if a.get("plaintext_base64").is_some() {
        "decrypted".to_owned()
    } else {
        string_field(a, "status", "referenced")
    };
    AttachmentRow {
        message_id: message_id.clone(),
        object_id: string_field(a, "object_id", "object"),
        status,
        plaintext_base64: opt_string_of(a, "plaintext_base64"),
    }
}

fn parse_attachment_rows(message_id: &String, attachments: Option<&Json>) -> (r: Vec<AttachmentRow>)
    ensures
        views(r@) == attachments_v(crate::json::opt_json_view(attachments), message_id@),
{
    let mut out: Vec<AttachmentRow> = Vec::new();
    let items = match attachments {
        Some(a) => a.as_array(),
        None => None,
    };
    match items {
        Some(items) => {
            let ghost iv = items@.map_values(|x: Json| x@);
            let mut i: usize = 0;
            while i < items.len()
                invariant
                    0 <= i <= items.len(),
                    iv == items@.map_values(|x: Json| x@),
                    views(out@) == iv.take(i as int).map_values(|a: JsonV| attachment_v(a, message_id@)),
                decreases items.len() - i,
            {
                let row = attachment_row(message_id, &items[i]);
                let ghost prev = out@;
                out.push(row);
                assert(views(out@) =~= views(prev).push(row@));
                assert(iv.take(i as int + 1) =~= iv.take(i as int).push(iv[i as int]));
                i = i + 1;
            }
            assert(iv.take(items.len() as int) =~= iv);
        },
        None => {
            assert(views(out@) =~= Seq::<AttachmentRowV>::empty());
        },
    }
    out
}

fn parse_receipt_rows(receipts: Option<&Json>) -> (r: Vec<MessageReceiptRow>)
    ensures
        views(r@) == receipts_v(crate::json::opt_json_view(receipts)),
{
    let mut out: Vec<MessageReceiptRow> = Vec::new();
    let items = match receipts {
        Some(a) => a.as_array(),
        None => None,
    };
    match items {
        Some(items) => {
            let ghost iv = items@.map_values(|x: Json| x@);
            let mut i: usize = 0;
            while i < items.len()
                invariant
                    0 <= i <= items.len(),
                    iv == items@.map_values(|x: Json| x@),
                    views(out@) == iv.take(i as int).map_values(|r: JsonV| receipt_v(r)),
                decreases items.len() - i,
            {
                let row = MessageReceiptRow {
                    device_id: string_field(&items[i], "device_id", "device"),
                    state: string_field(&items[i], "state", "delivered"),
                };
                let ghost prev = out@;
                out.push(row);
                assert(views(out@) =~= views(prev).push(row@));
                assert(iv.take(i as int + 1) =~= iv.take(i as int).push(iv[i as int]));
                i = i + 1;
            }
            assert(iv.take(items.len() as int) =~= iv);
        },
        None => {
            assert(views(out@) =~= Seq::<MessageReceiptRowV>::empty());
        },
    }
    out
}

/// The base64url payloads of the decrypted messages of `response`, in order.
pub fn decrypted_payloads(response: &Json) -> (r: Vec<Option<String>>)
    ensures
        opt_strings_v(r@) == decrypted_payloads_v(response@),
{
    let mut out: Vec<Option<String>> = Vec::new();
    match items_of(response, "decrypted_messages") {
        Some(items) => {
            let ghost iv = items@.map_values(|x: Json| x@);
            let mut i: usize = 0;
            while i < items.len()
                invariant
                    0 <= i <= items.len(),
                    iv == items@.map_values(|x: Json| x@),
                    iv == jitems(jget(response@, "decrypted_messages"@)),
                    opt_strings_v(out@) == iv.take(i as int).map_values(
                        |m: JsonV| jstr(jget(m, "plaintext_body_base64"@)),
                    ),
                decreases items.len() - i,
            {
                let p = opt_string_of(&items[i], "plaintext_body_base64");
                let ghost prev = out@;
                out.push(p);
                assert(opt_strings_v(out@) =~= opt_strings_v(prev).push(opt_view(p)));
                assert(iv.take(i as int + 1) =~= iv.take(i as int).push(iv[i as int]));
                i = i + 1;
            }
            assert(iv.take(items.len() as int) =~= iv);
        },
        None => {
            assert(opt_strings_v(out@) =~= decrypted_payloads_v(response@));
        },
    }
    out
}

/// The decrypted messages of `response`, given the text each payload
/// decodes to, in the order of `decrypted_payloads`.
pub fn parse_decrypted_messages(response: &Json, decoded: &Vec<Option<String>>) -> (r: Vec<MessageRow>)
    ensures
        views(r@) == decrypted_messages_v(response@, opt_strings_v(decoded@)),
{
    let ghost dv = opt_strings_v(decoded@);
    let mut out: Vec<MessageRow> = Vec::new();
    match items_of(response, "decrypted_messages") {
        Some(items) => {
            let ghost iv = items@.map_values(|x: Json| x@);
            let mut i: usize = 0;
            while i < items.len()
                invariant
                    0 <= i <= items.len(),
                    iv == items@.map_values(|x: Json| x@),
                    iv == jitems(jget(response@, "decrypted_messages"@)),
                    dv == opt_strings_v(decoded@),
                    out.len() == i,
                    forall|j: int| 0 <= j < i ==> #[trigger] out@[j]@ == decrypted_message_v(iv[j], decoded_at(dv, j)),
                decreases items.len() - i,
            {
                let message = &items[i];
                let id = string_field(message, "message_id", "message");
                let body = if i < decoded.len() {
                    match &decoded[i] {
                        Some(b) => b.clone(),
                        None => "[encrypted message]".to_owned(),
                    }
                } else {
                    "[encrypted message]".to_owned()
                };
                let attachments = parse_attachment_rows(&id, message.get("attachments"));
                let receipts = parse_receipt_rows(message.get("receipts"));
                let row = MessageRow {
                    id,
                    sender: string_field(message, "sender_id", "peer"),
                    body,
                    status: "received".to_owned(),
                    attachments,
                    receipts,
                };
                out.push(row);
                i = i + 1;
            }
            assert(views(out@) =~= decrypted_messages_v(response@, dv));
        },
        None => {
            assert(views(out@) =~= decrypted_messages_v(response@, dv));
        },
    }
    out
}

/// All messages of a `message.read` response: the stored ones, then the
/// decrypted ones.
pub fn parse_messages(response: &Json, decoded: &Vec<Option<String>>) -> (r: Vec<MessageRow>)
    ensures
        views(r@) == messages_v(response@, opt_strings_v(decoded@)),
{
    let mut out: Vec<MessageRow> = Vec::new();
    let ghost sv = jitems(jget(response@, "messages"@)).map_values(|m: JsonV| stored_message_v(m));
    match items_of(response, "messages") {
        Some(items) => {
            let ghost iv = items@.map_values(|x: Json| x@);
            let mut i: usize = 0;
            while i < items.len()
                invariant
                    0 <= i <= items.len(),
                    iv == items@.map_values(|x: Json| x@),
                    iv == jitems(jget(response@, "messages"@)),
                    views(out@) == iv.take(i as int).map_values(|m: JsonV| stored_message_v(m)),
                decreases items.len() - i,
            {
                let message = &items[i];
                let id = string_field(message, "message_id", "message");
                let attachments = parse_attachment_rows(&id, message.get("attachments"));
                let receipts = parse_receipt_rows(message.get("receipts"));
                let row = MessageRow {
                    id,
                    sender: string_field(message, "sender_id", "peer"),
                    body: string_field(message, "body_utf8", "[encrypted message]"),
                    status: "sent".to_owned(),
                    attachments,
                    receipts,
                };
                let ghost prev = out@;
                out.push(row);
                assert(views(out@) =~= views(prev).push(row@));
                assert(iv.take(i as int + 1) =~= iv.take(i as int).push(iv[i as int]));
                i = i + 1;
            }
            assert(iv.take(items.len() as int) =~= iv);
        },
        None => {
            assert(views(out@) =~= sv);
        },
    }
    let mut rest = parse_decrypted_messages(response, decoded);
    let ghost first = out@;
    let ghost second = rest@;
    out.append(&mut rest);
    assert(views(out@) =~= views(first) + views(second));
    out
}

/// The transfer row of an object response, when it carries a transfer.
pub fn parse_transfer(response: &Json) -> (r: Option<ObjectTransferRow>)
    ensures
        opt_view(r) == transfer_v(response@),
{
    match response.get("transfer") {
        Some(t) => {
            let done_bytes = match t.get("done_bytes") {
                Some(v) => match v.as_u64() {
                    Some(n) => n,
                    None => 0,
                },
                None => 0,
            };
            let total_bytes = match t.get("total_bytes") {
                Some(v) => match v.as_u64() {
                    Some(n) => n,
                    None => 0,
                },
                None => 0,
            };
            let percent: u32 = match t.get("percent") {
                Some(v) => match v.as_u64() {
                    Some(n) => if n <= 4294967295u64 {
                        n as u32
                    } else {
                        0
                    },
                    None => 0,
                },
                None => 0,
            };
            Some(
                ObjectTransferRow {
                    object_id: string_field(t, "object_id", "object"),
                    direction: string_field(t, "direction", "unknown"),
                    state: string_field(t, "state", "unknown"),
                    done_bytes,
                    total_bytes,
                    percent,
                    last_error: opt_string_of(t, "last_error"),
                    relay_endpoint: None,
                    relay_service_key_base64: None,
                },
            )
        },
        None => None,
    }
}

fn strings_of(value: &Json, key: &str) -> (r: Vec<String>)
    ensures
        views(r@) == str_items(jitems(jget(value@, key@))),
{
    match items_of(value, key) {
        Some(items) => collect_strings(items),
        None => {
            let r: Vec<String> = Vec::new();
            assert(views(r@) =~= Seq::<Seq<char>>::empty());
            r
        },
    }
}

/// The contact rows of a `contact.list` response.
pub fn parse_contacts(response: &Json) -> (r: Vec<ContactRow>)
    ensures
        views(r@) == contacts_v(response@),
{
    let mut out: Vec<ContactRow> = Vec::new();
    match items_of(response, "contacts") {
        Some(items) => {
            let ghost iv = items@.map_values(|x: Json| x@);
            let mut i: usize = 0;
            while i < items.len()
                invariant
                    0 <= i <= items.len(),
                    iv == items@.map_values(|x: Json| x@),
                    iv == jitems(jget(response@, "contacts"@)),
                    views(out@) == iv.take(i as int).map_values(|c: JsonV| contact_v(c)),
                decreases items.len() - i,
            {
                let c = &items[i];
                let row = ContactRow {
                    link_id: string_field(c, "link_id", "contact"),
                    requester: string_field(c, "requester_id", "requester"),
                    target: string_field(c, "target_id", "target"),
                    state: string_field(c, "state", "accepted"),
                    safety_number: strings_of(c, "safety_number"),
                    fingerprint_hex: opt_string_of(c, "fingerprint_hex"),
                    verification_state: string_field(c, "verification_state", "unverified"),
                };
                let ghost prev = out@;
                out.push(row);
                assert(views(out@) =~= views(prev).push(row@));
                assert(iv.take(i as int + 1) =~= iv.take(i as int).push(iv[i as int]));
                i = i + 1;
            }
            assert(iv.take(items.len() as int) =~= iv);
        },
        None => {
            assert(views(out@) =~= contacts_v(response@));
        },
    }
    out
}

fn opt_i64_of(value: Option<&Json>) -> (r: Option<i64>)
    ensures
        r == ji64(crate::json::opt_json_view(value)),
{
    match value {
        Some(v) => v.as_i64(),
        None => None,
    }
}

/// The group rows of a `group.list` response.
pub fn parse_groups(response: &Json) -> (r: Vec<GroupRow>)
    ensures
        views(r@) == groups_v(response@),
{
    let mut out: Vec<GroupRow> = Vec::new();
    match items_of(response, "groups") {
        Some(items) => {
            let ghost iv = items@.map_values(|x: Json| x@);
            let mut i: usize = 0;
            while i < items.len()
                invariant
                    0 <= i <= items.len(),
                    iv == items@.map_values(|x: Json| x@),
                    iv == jitems(jget(response@, "groups"@)),
                    views(out@) == iv.take(i as int).map_values(|g: JsonV| group_v(g)),
                decreases items.len() - i,
            {
                let g = &items[i];
                let ttl = match g.get("disappearing_ttl_secs") {
                    Some(v) => v.as_i64(),
                    None => opt_i64_of(g.get("ttl_secs")),
                };
                let row = GroupRow {
                    id: string_field(g, "group_id", "group"),
                    members: strings_of(g, "members"),
                    disappearing_ttl_secs: ttl,
                    mute_until: opt_i64_of(g.get("mute_until")),
                };
                let ghost prev = out@;
                out.push(row);
                assert(views(out@) =~= views(prev).push(row@));
                assert(iv.take(i as int + 1) =~= iv.take(i as int).push(iv[i as int]));
                i = i + 1;
            }
            assert(iv.take(items.len() as int) =~= iv);
        },
        None => {
            assert(views(out@) =~= groups_v(response@));
        },
    }
    out
}

/// The device rows of a `device.list` response.
pub fn parse_devices(response: &Json) -> (r: Vec<DeviceRow>)
    ensures
        views(r@) == devices_v(response@),
{
    let mut out: Vec<DeviceRow> = Vec::new();
    match items_of(response, "devices") {
        Some(items) => {
            let ghost iv = items@.map_values(|x: Json| x@);
            let mut i: usize = 0;
            while i < items.len()
                invariant
                    0 <= i <= items.len(),
                    iv == items@.map_values(|x: Json| x@),
                    iv == jitems(jget(response@, "devices"@)),
                    views(out@) == iv.take(i as int).map_values(|d: JsonV| device_v(d)),
                decreases items.len() - i,
            {
                let d = &items[i];
                let epoch = match d.get("device_epoch") {
                    Some(v) => match v.as_u64() {
                        Some(n) => n,
                        None => 1,
                    },
                    None => 1,
                };
                let is_local = match d.get("is_local") {
                    Some(v) => match v.as_bool() {
                        Some(b) => b,
                        None => false,
                    },
                    None => false,
                };
                let row = DeviceRow {
                    device_id: string_field(d, "device_id", "device"),
                    device_epoch: epoch,
                    target_delivery_id: string_field(d, "target_delivery_id", "target"),
                    is_local,
                };
                let ghost prev = out@;
                out.push(row);
                assert(views(out@) =~= views(prev).push(row@));
                assert(iv.take(i as int + 1) =~= iv.take(i as int).push(iv[i as int]));
                i = i + 1;
            }
            assert(iv.take(items.len() as int) =~= iv);
        },
        None => {
            assert(views(out@) =~= devices_v(response@));
        },
    }
    out
}

/// The surface document of an approval, if it names one.
pub fn surface_candidate(approval: &Json) -> (r: Option<Json>)
    ensures
        opt_view(r) == surface_candidate_v(approval@),
{
    match approval.get2("details", "surface") {
        Some(s) => Some(s.copy()),
        None => match approval.get("surface") {
            Some(s) => Some(s.copy()),
            None => None,
        },
    }
}

/// The surface documents of the approvals of a response, in order.
pub fn surface_candidates(response: &Json) -> (r: Vec<Option<Json>>)
    ensures
        r@.map_values(|x: Option<Json>| opt_view(x)) == jitems(jget(response@, "approvals"@)).map_values(
            |a: JsonV| surface_candidate_v(a),
        ),
{
    let mut out: Vec<Option<Json>> = Vec::new();
    match items_of(response, "approvals") {
        Some(items) => {
            let ghost iv = items@.map_values(|x: Json| x@);
            let mut i: usize = 0;
            while i < items.len()
                invariant
                    0 <= i <= items.len(),
                    iv == items@.map_values(|x: Json| x@),
                    iv == jitems(jget(response@, "approvals"@)),
                    out@.map_values(|x: Option<Json>| opt_view(x)) == iv.take(i as int).map_values(
                        |a: JsonV| surface_candidate_v(a),
                    ),
                decreases items.len() - i,
            {
                let c = surface_candidate(&items[i]);
                let ghost prev = out@;
                let ghost cv = opt_view(c);
                out.push(c);
                assert(out@.map_values(|x: Option<Json>| opt_view(x)) =~= prev.map_values(
                    |x: Option<Json>| opt_view(x),
                ).push(cv));
                assert(iv.take(i as int + 1) =~= iv.take(i as int).push(iv[i as int]));
                i = i + 1;
            }
            assert(iv.take(items.len() as int) =~= iv);
        },
        None => {
            assert(out@.map_values(|x: Option<Json>| opt_view(x)) =~= jitems(
                jget(response@, "approvals"@),
            ).map_values(|a: JsonV| surface_candidate_v(a)));
        },
    }
    out
}

fn copy_rendered(r: &RenderedSurface) -> (c: RenderedSurface)
    ensures
        c@ == r@,
{
    RenderedSurface {
        surface_hash: r.surface_hash.clone(),
        fallback_used: r.fallback_used,
        semantic_snapshot: r.semantic_snapshot.clone(),
    }
}

/// One approval row, given what reading its surface document yielded.
pub fn parse_approval_row(approval: &Json, surface: &Option<(Json, Option<RenderedSurface>)>) -> (r: ApprovalRow)
    ensures
        r@ == approval_v(approval@, surface_outcome_v(*surface)),
{
    let confirmation_mode = string_field(approval, "confirmation_mode", "remote_app");
    let server = string_field(approval, "server_id", "server");
    let tool = string_field(approval, "tool_name", "tool");
    let (doc, rendered) = match surface {
        Some((s, r)) => (
            Some(s.copy()),
            match r {
                Some(x) => Some(copy_rendered(x)),
                None => None,
            },
        ),
        None => (None, None),
    };
    ApprovalRow {
        id: string_field(approval, "approval_id", "approval"),
        tool: cat3(server.as_str(), "/", tool.as_str()),
        risk: string_field(approval, "risk_level", "unknown"),
        mode: confirmation_mode.clone(),
        confirmation_mode,
        status: string_field(approval, "status", "pending"),
        surface: doc,
        rendered_surface: rendered,
    }
}

/// The approval rows of a response, given what reading each approval's
/// surface document yielded, in the order of `surface_candidates`.
pub fn parse_approvals(response: &Json, surfaces: &Vec<Option<(Json, Option<RenderedSurface>)>>) -> (r: Vec<ApprovalRow>)
    ensures
        views(r@) == approvals_v(response@, surface_outcomes_v(surfaces@)),
{
    let ghost sv = surface_outcomes_v(surfaces@);
    let mut out: Vec<ApprovalRow> = Vec::new();
    match items_of(response, "approvals") {
        Some(items) => {
            let ghost iv = items@.map_values(|x: Json| x@);
            let mut i: usize = 0;
            while i < items.len()
                invariant
                    0 <= i <= items.len(),
                    iv == items@.map_values(|x: Json| x@),
                    iv == jitems(jget(response@, "approvals"@)),
                    sv == surface_outcomes_v(surfaces@),
                    out.len() == i,
                    forall|j: int| 0 <= j < i ==> #[trigger] out@[j]@ == approval_v(iv[j], surface_at(sv, j)),
                decreases items.len() - i,
            {
                let row = if i < surfaces.len() {
                    parse_approval_row(&items[i], &surfaces[i])
                } else {
                    parse_approval_row(&items[i], &None)
                };
                out.push(row);
                i = i + 1;
            }
            assert(views(out@) =~= approvals_v(response@, sv));
        },
        None => {
            assert(views(out@) =~= approvals_v(response@, sv));
        },
    }
    out
}

} // verus!
