//! The requests the client makes, each with its exact body.

use vstd::prelude::*;
use crate::json::{Json, JsonV, NumV};
use crate::bus::{
    BusRequest, BusRequestV, request, request_v, object, member, text, opt_text, opt_text_v, uint,
    uint_v, signed, int_v, opt_int, opt_int_v, opt_uint, opt_uint_v, entries_v, empty_object,
};
use crate::state::{views, opt_view, PendingAttachment, PendingAttachmentV};
use crate::task::{MessageDraft, MessageDraftV};

verus! {

pub open spec fn js(x: Seq<char>) -> JsonV {
    JsonV::Str(x)
}

pub open spec fn jo(es: Seq<(Seq<char>, JsonV)>) -> JsonV {
    JsonV::Object(es)
}


pub open spec fn subscription_open_v(acct: Seq<char>) -> BusRequestV {
    request_v(acct, "subscription"@, "subscription.open"@, jo(seq![
        ("topics"@, JsonV::Array(seq![js("gateway.deliver"@), js("conversation.updated"@), js("mcp.approval.request"@)])),
        ("attended_frontend"@, JsonV::Bool(true)),
    ]))
}

/// Opens the subscriptions used for live refresh.
pub fn subscription_open(acct: &String) -> (r: BusRequest)
    ensures r@ == subscription_open_v(acct@),
{
    let topics = vec![text("gateway.deliver"), text("conversation.updated"), text("mcp.approval.request")];
    let ghost tv = topics@;
    let topics_json = Json::Array(topics);
    proof {
        crate::json::lemma_array_view(topics);
        assert(topics.view().map_values(|x: Json| x@) =~= seq![js("gateway.deliver"@), js("conversation.updated"@), js("mcp.approval.request"@)]);
    }
    let es: Vec<(String, Json)> = vec![member("topics", topics_json), member("attended_frontend", Json::Bool(true))];
    let ghost ev = es@;
    let body = object(es);
    assert(entries_v(ev) =~= seq![
        ("topics"@, JsonV::Array(seq![js("gateway.deliver"@), js("conversation.updated"@), js("mcp.approval.request"@)])),
        ("attended_frontend"@, JsonV::Bool(true)),
    ]);
    request(acct, "subscription", "subscription.open", body)
}

pub open spec fn message_read_v(acct: Seq<char>, conv: Seq<char>) -> BusRequestV {
    request_v(acct, "message"@, "message.read"@, jo(seq![
        ("conversation_id"@, js(conv))
    ]))
}

/// Reads the messages of a conversation.
pub fn message_read(acct: &String, conv: &str) -> (r: BusRequest)
    ensures r@ == message_read_v(acct@, conv@),
{
    let es: Vec<(String, Json)> = vec![member("conversation_id", text(conv))];
    let ghost ev = es@;
    let body = object(es);
    proof {
        let conv = conv@;
        assert(entries_v(ev) =~= seq![
            ("conversation_id"@, js(conv))
        ]);
    }
    request(acct, "message", "message.read", body)
}

pub open spec fn message_receive_v(acct: Seq<char>, conv: Seq<char>, key: Option<Seq<char>>) -> BusRequestV {
    request_v(acct, "message"@, "message.receive"@, jo(seq![
        ("limit"@, uint_v(100)),
        ("conversation_id"@, js(conv)),
        ("auto_fetch_attachments"@, JsonV::Bool(true)),
        ("relay_service_key_base64"@, opt_text_v(key))
    ]))
}

/// Receives gateway messages, fetching and decrypting attachments.
pub fn message_receive(acct: &String, conv: &str, key: &Option<String>) -> (r: BusRequest)
    ensures r@ == message_receive_v(acct@, conv@, opt_view(*key)),
{
    let es: Vec<(String, Json)> = vec![member("limit", uint(100)), member("conversation_id", text(conv)), member("auto_fetch_attachments", Json::Bool(true)), member("relay_service_key_base64", opt_text(key))];
    let ghost ev = es@;
    let body = object(es);
    proof {
        let conv = conv@;
        let key = opt_view(*key);
        assert(entries_v(ev) =~= seq![
            ("limit"@, uint_v(100)),
            ("conversation_id"@, js(conv)),
            ("auto_fetch_attachments"@, JsonV::Bool(true)),
            ("relay_service_key_base64"@, opt_text_v(key))
        ]);
    }
    request(acct, "message", "message.receive", body)
}

pub open spec fn list_request_v(acct: Seq<char>, api: Seq<char>, method: Seq<char>) -> BusRequestV {
    request_v(acct, api, method, jo(seq![
        
    ]))
}

/// Lists a projection: the body is empty.
pub fn list_request(acct: &String, api: &str, method: &str) -> (r: BusRequest)
    ensures r@ == list_request_v(acct@, api@, method@),
{
    let es: Vec<(String, Json)> = vec![];
    let ghost ev = es@;
    let body = object(es);
    proof {
        let api = api@;
        let method = method@;
        assert(entries_v(ev) =~= seq![
            
        ]);
    }
    request(acct, api, method, body)
}

pub open spec fn grant_v(acct: Seq<char>, method: Seq<char>, approval_id: Seq<char>) -> BusRequestV {
    request_v(acct, "grant"@, method, jo(seq![
        ("approval_id"@, js(approval_id))
    ]))
}

/// Approves or denies an approval.
pub fn grant(acct: &String, method: &str, approval_id: &str) -> (r: BusRequest)
    ensures r@ == grant_v(acct@, method@, approval_id@),
{
    let es: Vec<(String, Json)> = vec![member("approval_id", text(approval_id))];
    let ghost ev = es@;
    let body = object(es);
    proof {
        let method = method@;
        let approval_id = approval_id@;
        assert(entries_v(ev) =~= seq![
            ("approval_id"@, js(approval_id))
        ]);
    }
    request(acct, "grant", method, body)
}

pub open spec fn account_status_v(acct: Seq<char>) -> BusRequestV {
    request_v(acct, "account"@, "account.status"@, jo(seq![
        
    ]))
}

/// Reads the account status.
pub fn account_status(acct: &String) -> (r: BusRequest)
    ensures r@ == account_status_v(acct@),
{
    let es: Vec<(String, Json)> = vec![];
    let ghost ev = es@;
    let body = object(es);
    assert(entries_v(ev) =~= seq![
        
    ]);
    request(acct, "account", "account.status", body)
}

pub open spec fn device_revoke_v(acct: Seq<char>, device_id: Seq<char>) -> BusRequestV {
    request_v(acct, "device"@, "device.revoke"@, jo(seq![
        ("device_id"@, js(device_id))
    ]))
}

/// Revokes a device.
pub fn device_revoke(acct: &String, device_id: &str) -> (r: BusRequest)
    ensures r@ == device_revoke_v(acct@, device_id@),
{
    let es: Vec<(String, Json)> = vec![member("device_id", text(device_id))];
    let ghost ev = es@;
    let body = object(es);
    proof {
        let device_id = device_id@;
        assert(entries_v(ev) =~= seq![
            ("device_id"@, js(device_id))
        ]);
    }
    request(acct, "device", "device.revoke", body)
}

pub open spec fn sync_export_v(acct: Seq<char>, target_device_id: Seq<char>, relay_endpoint: Seq<char>, key: Option<Seq<char>>) -> BusRequestV {
    request_v(acct, "device"@, "device.sync.export"@, jo(seq![
        ("target_device_id"@, js(target_device_id)),
        ("relay_endpoint"@, js(relay_endpoint)),
        ("relay_service_key_base64"@, opt_text_v(key))
    ]))
}

/// Exports an own-device history sync snapshot.
pub fn sync_export(acct: &String, target_device_id: &str, relay_endpoint: &str, key: &Option<String>) -> (r: BusRequest)
    ensures r@ == sync_export_v(acct@, target_device_id@, relay_endpoint@, opt_view(*key)),
{
    let es: Vec<(String, Json)> = vec![member("target_device_id", text(target_device_id)), member("relay_endpoint", text(relay_endpoint)), member("relay_service_key_base64", opt_text(key))];
    let ghost ev = es@;
    let body = object(es);
    proof {
        let target_device_id = target_device_id@;
        let relay_endpoint = relay_endpoint@;
        let key = opt_view(*key);
        assert(entries_v(ev) =~= seq![
            ("target_device_id"@, js(target_device_id)),
            ("relay_endpoint"@, js(relay_endpoint)),
            ("relay_service_key_base64"@, opt_text_v(key))
        ]);
    }
    request(acct, "device", "device.sync.export", body)
}

pub open spec fn object_get_v(acct: Seq<char>, object_id: Seq<char>, url: Option<Seq<char>>, key: Option<Seq<char>>) -> BusRequestV {
    request_v(acct, "object"@, "object.get"@, jo(seq![
        ("object_id"@, js(object_id)),
        ("relay_endpoint"@, opt_text_v(url)),
        ("relay_service_key_base64"@, opt_text_v(key)),
        ("relay_ack"@, JsonV::Bool(true))
    ]))
}

/// Downloads an object over the relay.
pub fn object_get(acct: &String, object_id: &str, url: &Option<String>, key: &Option<String>) -> (r: BusRequest)
    ensures r@ == object_get_v(acct@, object_id@, opt_view(*url), opt_view(*key)),
{
    let es: Vec<(String, Json)> = vec![member("object_id", text(object_id)), member("relay_endpoint", opt_text(url)), member("relay_service_key_base64", opt_text(key)), member("relay_ack", Json::Bool(true))];
    let ghost ev = es@;
    let body = object(es);
    proof {
        let object_id = object_id@;
        let url = opt_view(*url);
        let key = opt_view(*key);
        assert(entries_v(ev) =~= seq![
            ("object_id"@, js(object_id)),
            ("relay_endpoint"@, opt_text_v(url)),
            ("relay_service_key_base64"@, opt_text_v(key)),
            ("relay_ack"@, JsonV::Bool(true))
        ]);
    }
    request(acct, "object", "object.get", body)
}

pub open spec fn object_put_v(acct: Seq<char>, object_id: Seq<char>, encoded: Seq<char>, url: Option<Seq<char>>, key: Option<Seq<char>>) -> BusRequestV {
    request_v(acct, "object"@, "object.put"@, jo(seq![
        ("object_id"@, js(object_id)),
        ("plaintext_base64"@, js(encoded)),
        ("chunk_size"@, uint_v(65536)),
        ("relay_endpoint"@, opt_text_v(url)),
        ("relay_service_key_base64"@, opt_text_v(key))
    ]))
}

/// Uploads an object over the relay.
pub fn object_put(acct: &String, object_id: &str, encoded: &str, url: &Option<String>, key: &Option<String>) -> (r: BusRequest)
    ensures r@ == object_put_v(acct@, object_id@, encoded@, opt_view(*url), opt_view(*key)),
{
    let es: Vec<(String, Json)> = vec![member("object_id", text(object_id)), member("plaintext_base64", text(encoded)), member("chunk_size", uint(65536)), member("relay_endpoint", opt_text(url)), member("relay_service_key_base64", opt_text(key))];
    let ghost ev = es@;
    let body = object(es);
    proof {
        let object_id = object_id@;
        let encoded = encoded@;
        let url = opt_view(*url);
        let key = opt_view(*key);
        assert(entries_v(ev) =~= seq![
            ("object_id"@, js(object_id)),
            ("plaintext_base64"@, js(encoded)),
            ("chunk_size"@, uint_v(65536)),
            ("relay_endpoint"@, opt_text_v(url)),
            ("relay_service_key_base64"@, opt_text_v(key))
        ]);
    }
    request(acct, "object", "object.put", body)
}

pub open spec fn transfer_status_v(acct: Seq<char>, object_id: Seq<char>, direction: Option<Seq<char>>) -> BusRequestV {
    request_v(acct, "object"@, "object.transfer.status"@, jo(seq![
        ("object_id"@, js(object_id)),
        ("direction"@, opt_text_v(direction))
    ]))
}

/// Reads the status of an object transfer.
pub fn transfer_status(acct: &String, object_id: &str, direction: &Option<String>) -> (r: BusRequest)
    ensures r@ == transfer_status_v(acct@, object_id@, opt_view(*direction)),
{
    let es: Vec<(String, Json)> = vec![member("object_id", text(object_id)), member("direction", opt_text(direction))];
    let ghost ev = es@;
    let body = object(es);
    proof {
        let object_id = object_id@;
        let direction = opt_view(*direction);
        assert(entries_v(ev) =~= seq![
            ("object_id"@, js(object_id)),
            ("direction"@, opt_text_v(direction))
        ]);
    }
    request(acct, "object", "object.transfer.status", body)
}

pub open spec fn transfer_resume_v(acct: Seq<char>, object_id: Seq<char>, direction: Seq<char>, relay_endpoint: Seq<char>, key: Option<Seq<char>>) -> BusRequestV {
    request_v(acct, "object"@, "object.transfer.resume"@, jo(seq![
        ("object_id"@, js(object_id)),
        ("direction"@, js(direction)),
        ("relay_endpoint"@, js(relay_endpoint)),
        ("relay_service_key_base64"@, opt_text_v(key))
    ]))
}

/// Resumes an object transfer.
pub fn transfer_resume(acct: &String, object_id: &str, direction: &str, relay_endpoint: &str, key: &Option<String>) -> (r: BusRequest)
    ensures r@ == transfer_resume_v(acct@, object_id@, direction@, relay_endpoint@, opt_view(*key)),
{
    let es: Vec<(String, Json)> = vec![member("object_id", text(object_id)), member("direction", text(direction)), member("relay_endpoint", text(relay_endpoint)), member("relay_service_key_base64", opt_text(key))];
    let ghost ev = es@;
    let body = object(es);
    proof {
        let object_id = object_id@;
        let direction = direction@;
        let relay_endpoint = relay_endpoint@;
        let key = opt_view(*key);
        assert(entries_v(ev) =~= seq![
            ("object_id"@, js(object_id)),
            ("direction"@, js(direction)),
            ("relay_endpoint"@, js(relay_endpoint)),
            ("relay_service_key_base64"@, opt_text_v(key))
        ]);
    }
    request(acct, "object", "object.transfer.resume", body)
}

pub open spec fn contact_commitment_v(acct: Seq<char>, method: Seq<char>, target: Seq<char>) -> BusRequestV {
    request_v(acct, "contact"@, method, jo(seq![
        ("contact_identity_commitment"@, js(target))
    ]))
}

/// Asks for, or confirms, the safety number of a contact.
pub fn contact_commitment(acct: &String, method: &str, target: &str) -> (r: BusRequest)
    ensures r@ == contact_commitment_v(acct@, method@, target@),
{
    let es: Vec<(String, Json)> = vec![member("contact_identity_commitment", text(target))];
    let ghost ev = es@;
    let body = object(es);
    proof {
        let method = method@;
        let target = target@;
        assert(entries_v(ev) =~= seq![
            ("contact_identity_commitment"@, js(target))
        ]);
    }
    request(acct, "contact", method, body)
}

pub open spec fn contact_link_v(acct: Seq<char>, method: Seq<char>, link_id: Seq<char>, requester_id: Seq<char>, target_id: Seq<char>) -> BusRequestV {
    request_v(acct, "contact"@, method, jo(seq![
        ("link_id"@, js(link_id)),
        ("requester_id"@, js(requester_id)),
        ("target_id"@, js(target_id))
    ]))
}

/// Adds or accepts a contact.
pub fn contact_link(acct: &String, method: &str, link_id: &str, requester_id: &str, target_id: &str) -> (r: BusRequest)
    ensures r@ == contact_link_v(acct@, method@, link_id@, requester_id@, target_id@),
{
    let es: Vec<(String, Json)> = vec![member("link_id", text(link_id)), member("requester_id", text(requester_id)), member("target_id", text(target_id))];
    let ghost ev = es@;
    let body = object(es);
    proof {
        let method = method@;
        let link_id = link_id@;
        let requester_id = requester_id@;
        let target_id = target_id@;
        assert(entries_v(ev) =~= seq![
            ("link_id"@, js(link_id)),
            ("requester_id"@, js(requester_id)),
            ("target_id"@, js(target_id))
        ]);
    }
    request(acct, "contact", method, body)
}

pub open spec fn message_delete_v(acct: Seq<char>, conv: Seq<char>, message_id: Seq<char>) -> BusRequestV {
    request_v(acct, "message"@, "message.delete"@, jo(seq![
        ("conversation_id"@, js(conv)),
        ("message_id"@, js(message_id))
    ]))
}

/// Deletes a message from the local projection.
pub fn message_delete(acct: &String, conv: &str, message_id: &str) -> (r: BusRequest)
    ensures r@ == message_delete_v(acct@, conv@, message_id@),
{
    let es: Vec<(String, Json)> = vec![member("conversation_id", text(conv)), member("message_id", text(message_id))];
    let ghost ev = es@;
    let body = object(es);
    proof {
        let conv = conv@;
        let message_id = message_id@;
        assert(entries_v(ev) =~= seq![
            ("conversation_id"@, js(conv)),
            ("message_id"@, js(message_id))
        ]);
    }
    request(acct, "message", "message.delete", body)
}

pub open spec fn receipt_delivered_v(acct: Seq<char>, conv: Seq<char>, message_id: Seq<char>, receiver: Seq<char>, recipient: Option<Seq<char>>, target: Option<Seq<char>>) -> BusRequestV {
    request_v(acct, "message"@, "message.receipt.delivered"@, jo(seq![
        ("conversation_id"@, js(conv)),
        ("message_id"@, js(message_id)),
        ("receiver_device_id"@, js(receiver)),
        ("recipient_device_id"@, opt_text_v(recipient)),
        ("target_delivery_id"@, opt_text_v(target))
    ]))
}

/// Marks a message delivered.
pub fn receipt_delivered(acct: &String, conv: &str, message_id: &str, receiver: &str, recipient: &Option<String>, target: &Option<String>) -> (r: BusRequest)
    ensures r@ == receipt_delivered_v(acct@, conv@, message_id@, receiver@, opt_view(*recipient), opt_view(*target)),
{
    let es: Vec<(String, Json)> = vec![member("conversation_id", text(conv)), member("message_id", text(message_id)), member("receiver_device_id", text(receiver)), member("recipient_device_id", opt_text(recipient)), member("target_delivery_id", opt_text(target))];
    let ghost ev = es@;
    let body = object(es);
    proof {
        let conv = conv@;
        let message_id = message_id@;
        let receiver = receiver@;
        let recipient = opt_view(*recipient);
        let target = opt_view(*target);
        assert(entries_v(ev) =~= seq![
            ("conversation_id"@, js(conv)),
            ("message_id"@, js(message_id)),
            ("receiver_device_id"@, js(receiver)),
            ("recipient_device_id"@, opt_text_v(recipient)),
            ("target_delivery_id"@, opt_text_v(target))
        ]);
    }
    request(acct, "message", "message.receipt.delivered", body)
}

pub open spec fn receipt_read_v(acct: Seq<char>, conv: Seq<char>, message_id: Seq<char>, reader: Seq<char>, recipient: Option<Seq<char>>, target: Option<Seq<char>>) -> BusRequestV {
    request_v(acct, "message"@, "message.receipt.read"@, jo(seq![
        ("conversation_id"@, js(conv)),
        ("message_id"@, js(message_id)),
        ("reader_id"@, js(reader)),
        ("recipient_device_id"@, opt_text_v(recipient)),
        ("target_delivery_id"@, opt_text_v(target))
    ]))
}

/// Marks a message read.
pub fn receipt_read(acct: &String, conv: &str, message_id: &str, reader: &str, recipient: &Option<String>, target: &Option<String>) -> (r: BusRequest)
    ensures r@ == receipt_read_v(acct@, conv@, message_id@, reader@, opt_view(*recipient), opt_view(*target)),
{
    let es: Vec<(String, Json)> = vec![member("conversation_id", text(conv)), member("message_id", text(message_id)), member("reader_id", text(reader)), member("recipient_device_id", opt_text(recipient)), member("target_delivery_id", opt_text(target))];
    let ghost ev = es@;
    let body = object(es);
    proof {
        let conv = conv@;
        let message_id = message_id@;
        let reader = reader@;
        let recipient = opt_view(*recipient);
        let target = opt_view(*target);
        assert(entries_v(ev) =~= seq![
            ("conversation_id"@, js(conv)),
            ("message_id"@, js(message_id)),
            ("reader_id"@, js(reader)),
            ("recipient_device_id"@, opt_text_v(recipient)),
            ("target_delivery_id"@, opt_text_v(target))
        ]);
    }
    request(acct, "message", "message.receipt.read", body)
}

pub open spec fn group_member_v(acct: Seq<char>, method: Seq<char>, group_id: Seq<char>, actor_id: Seq<char>, member_id: Seq<char>) -> BusRequestV {
    request_v(acct, "group"@, method, jo(seq![
        ("group_id"@, js(group_id)),
        ("actor_id"@, js(actor_id)),
        ("member_id"@, js(member_id))
    ]))
}

/// Changes a member of a group.
pub fn group_member(acct: &String, method: &str, group_id: &str, actor_id: &str, member_id: &str) -> (r: BusRequest)
    ensures r@ == group_member_v(acct@, method@, group_id@, actor_id@, member_id@),
{
    let es: Vec<(String, Json)> = vec![member("group_id", text(group_id)), member("actor_id", text(actor_id)), member("member_id", text(member_id))];
    let ghost ev = es@;
    let body = object(es);
    proof {
        let method = method@;
        let group_id = group_id@;
        let actor_id = actor_id@;
        let member_id = member_id@;
        assert(entries_v(ev) =~= seq![
            ("group_id"@, js(group_id)),
            ("actor_id"@, js(actor_id)),
            ("member_id"@, js(member_id))
        ]);
    }
    request(acct, "group", method, body)
}

pub open spec fn group_role_v(acct: Seq<char>, group_id: Seq<char>, actor_id: Seq<char>, member_id: Seq<char>, role: Seq<char>) -> BusRequestV {
    request_v(acct, "group"@, "group.role.set"@, jo(seq![
        ("group_id"@, js(group_id)),
        ("actor_id"@, js(actor_id)),
        ("member_id"@, js(member_id)),
        ("role"@, js(role))
    ]))
}

/// Sets the role of a group member.
pub fn group_role(acct: &String, group_id: &str, actor_id: &str, member_id: &str, role: &str) -> (r: BusRequest)
    ensures r@ == group_role_v(acct@, group_id@, actor_id@, member_id@, role@),
{
    let es: Vec<(String, Json)> = vec![member("group_id", text(group_id)), member("actor_id", text(actor_id)), member("member_id", text(member_id)), member("role", text(role))];
    let ghost ev = es@;
    let body = object(es);
    proof {
        let group_id = group_id@;
        let actor_id = actor_id@;
        let member_id = member_id@;
        let role = role@;
        assert(entries_v(ev) =~= seq![
            ("group_id"@, js(group_id)),
            ("actor_id"@, js(actor_id)),
            ("member_id"@, js(member_id)),
            ("role"@, js(role))
        ]);
    }
    request(acct, "group", "group.role.set", body)
}

pub open spec fn group_invite_v(acct: Seq<char>, group_id: Seq<char>, actor_id: Seq<char>, invitee_id: Seq<char>, signing_key: Seq<char>, target: Seq<char>, expires_at: i64) -> BusRequestV {
    request_v(acct, "group"@, "group.invite.create"@, jo(seq![
        ("group_id"@, js(group_id)),
        ("actor_id"@, js(actor_id)),
        ("invitee_id"@, js(invitee_id)),
        ("invitee_signing_public_key"@, js(signing_key)),
        ("target_delivery_id"@, js(target)),
        ("role"@, js("member"@)),
        ("expires_at"@, int_v(expires_at))
    ]))
}

/// Invites a device to a group.
pub fn group_invite(acct: &String, group_id: &str, actor_id: &str, invitee_id: &str, signing_key: &str, target: &str, expires_at: i64) -> (r: BusRequest)
    ensures r@ == group_invite_v(acct@, group_id@, actor_id@, invitee_id@, signing_key@, target@, expires_at),
{
    let es: Vec<(String, Json)> = vec![member("group_id", text(group_id)), member("actor_id", text(actor_id)), member("invitee_id", text(invitee_id)), member("invitee_signing_public_key", text(signing_key)), member("target_delivery_id", text(target)), member("role", text("member")), member("expires_at", signed(expires_at))];
    let ghost ev = es@;
    let body = object(es);
    proof {
        let group_id = group_id@;
        let actor_id = actor_id@;
        let invitee_id = invitee_id@;
        let signing_key = signing_key@;
        let target = target@;
        assert(entries_v(ev) =~= seq![
            ("group_id"@, js(group_id)),
            ("actor_id"@, js(actor_id)),
            ("invitee_id"@, js(invitee_id)),
            ("invitee_signing_public_key"@, js(signing_key)),
            ("target_delivery_id"@, js(target)),
            ("role"@, js("member"@)),
            ("expires_at"@, int_v(expires_at))
        ]);
    }
    request(acct, "group", "group.invite.create", body)
}

pub open spec fn group_invite_accept_v(acct: Seq<char>, group_id: Seq<char>, actor_id: Seq<char>, invite_id: Seq<char>, target: Option<Seq<char>>) -> BusRequestV {
    request_v(acct, "group"@, "group.invite.accept"@, jo(seq![
        ("group_id"@, js(group_id)),
        ("actor_id"@, js(actor_id)),
        ("invite_id"@, js(invite_id)),
        ("target_delivery_id"@, opt_text_v(target))
    ]))
}

/// Accepts a group invite.
pub fn group_invite_accept(acct: &String, group_id: &str, actor_id: &str, invite_id: &str, target: &Option<String>) -> (r: BusRequest)
    ensures r@ == group_invite_accept_v(acct@, group_id@, actor_id@, invite_id@, opt_view(*target)),
{
    let es: Vec<(String, Json)> = vec![member("group_id", text(group_id)), member("actor_id", text(actor_id)), member("invite_id", text(invite_id)), member("target_delivery_id", opt_text(target))];
    let ghost ev = es@;
    let body = object(es);
    proof {
        let group_id = group_id@;
        let actor_id = actor_id@;
        let invite_id = invite_id@;
        let target = opt_view(*target);
        assert(entries_v(ev) =~= seq![
            ("group_id"@, js(group_id)),
            ("actor_id"@, js(actor_id)),
            ("invite_id"@, js(invite_id)),
            ("target_delivery_id"@, opt_text_v(target))
        ]);
    }
    request(acct, "group", "group.invite.accept", body)
}

pub open spec fn group_message_delete_v(acct: Seq<char>, group_id: Seq<char>, actor_id: Seq<char>, message_id: Seq<char>) -> BusRequestV {
    request_v(acct, "group"@, "group.message.delete"@, jo(seq![
        ("group_id"@, js(group_id)),
        ("actor_id"@, js(actor_id)),
        ("message_id"@, js(message_id)),
        ("delete_scope"@, js("group_tombstone"@))
    ]))
}

/// Tombstones a group message.
pub fn group_message_delete(acct: &String, group_id: &str, actor_id: &str, message_id: &str) -> (r: BusRequest)
    ensures r@ == group_message_delete_v(acct@, group_id@, actor_id@, message_id@),
{
    let es: Vec<(String, Json)> = vec![member("group_id", text(group_id)), member("actor_id", text(actor_id)), member("message_id", text(message_id)), member("delete_scope", text("group_tombstone"))];
    let ghost ev = es@;
    let body = object(es);
    proof {
        let group_id = group_id@;
        let actor_id = actor_id@;
        let message_id = message_id@;
        assert(entries_v(ev) =~= seq![
            ("group_id"@, js(group_id)),
            ("actor_id"@, js(actor_id)),
            ("message_id"@, js(message_id)),
            ("delete_scope"@, js("group_tombstone"@))
        ]);
    }
    request(acct, "group", "group.message.delete", body)
}

pub open spec fn disappearing_set_v(acct: Seq<char>, conv: Seq<char>, ttl_secs: i64) -> BusRequestV {
    request_v(acct, "message"@, "conversation.disappearing.set"@, jo(seq![
        ("conversation_id"@, js(conv)),
        ("ttl_secs"@, int_v(ttl_secs))
    ]))
}

/// Sets the disappearing-message time of a conversation.
pub fn disappearing_set(acct: &String, conv: &str, ttl_secs: i64) -> (r: BusRequest)
    ensures r@ == disappearing_set_v(acct@, conv@, ttl_secs),
{
    let es: Vec<(String, Json)> = vec![member("conversation_id", text(conv)), member("ttl_secs", signed(ttl_secs))];
    let ghost ev = es@;
    let body = object(es);
    proof {
        let conv = conv@;
        assert(entries_v(ev) =~= seq![
            ("conversation_id"@, js(conv)),
            ("ttl_secs"@, int_v(ttl_secs))
        ]);
    }
    request(acct, "message", "conversation.disappearing.set", body)
}

pub open spec fn conversation_mute_v(acct: Seq<char>, conv: Seq<char>, mute_until: Option<i64>, unmute: bool) -> BusRequestV {
    request_v(acct, "message"@, "conversation.mute"@, jo(seq![
        ("conversation_id"@, js(conv)),
        ("mute_until"@, opt_int_v(mute_until)),
        ("unmute"@, JsonV::Bool(unmute))
    ]))
}

/// Mutes or unmutes a conversation.
pub fn conversation_mute(acct: &String, conv: &str, mute_until: Option<i64>, unmute: bool) -> (r: BusRequest)
    ensures r@ == conversation_mute_v(acct@, conv@, mute_until, unmute),
{
    let es: Vec<(String, Json)> = vec![member("conversation_id", text(conv)), member("mute_until", opt_int(mute_until)), member("unmute", Json::Bool(unmute))];
    let ghost ev = es@;
    let body = object(es);
    proof {
        let conv = conv@;
        assert(entries_v(ev) =~= seq![
            ("conversation_id"@, js(conv)),
            ("mute_until"@, opt_int_v(mute_until)),
            ("unmute"@, JsonV::Bool(unmute))
        ]);
    }
    request(acct, "message", "conversation.mute", body)
}

pub open spec fn account_switch_v(requested: Seq<char>) -> BusRequestV {
    BusRequestV {
        account_id: Some(requested),
        sdk_api: "account"@,
        method: "account.switch"@,
        body: jo(Seq::empty()),
    }
}

/// Switches the active account: the request is made as the requested account.
pub fn account_switch(requested: &str) -> (r: BusRequest)
    ensures
        r@ == account_switch_v(requested@),
{
    BusRequest {
        account_id: Some(requested.to_owned()),
        sdk_api: "account".to_owned(),
        method: "account.switch".to_owned(),
        body: empty_object(),
    }
}

pub open spec fn sync_import_v(acct: Seq<char>, envelope: JsonV, key: Option<Seq<char>>) -> BusRequestV {
    request_v(acct, "device"@, "device.sync.import"@, jo(seq![
        ("envelope"@, envelope),
        ("relay_service_key_base64"@, opt_text_v(key)),
    ]))
}

/// Imports an own-device history sync envelope.
pub fn sync_import(acct: &String, envelope: Json, key: &Option<String>) -> (r: BusRequest)
    ensures
        r@ == sync_import_v(acct@, envelope@, opt_view(*key)),
{
    let es: Vec<(String, Json)> = vec![member("envelope", envelope), member("relay_service_key_base64", opt_text(key))];
    let ghost ev = es@;
    let body = object(es);
    assert(entries_v(ev) =~= seq![
        ("envelope"@, envelope@),
        ("relay_service_key_base64"@, opt_text_v(opt_view(*key))),
    ]);
    request(acct, "device", "device.sync.import", body)
}

pub open spec fn seed_v(seed: Seq<u8>) -> JsonV {
    JsonV::Array(seed.map_values(|b: u8| uint_v(b as u64)))
}

pub open spec fn device_activate_v(acct: Seq<char>, device_id: Seq<char>, target: Seq<char>, seed: Seq<u8>, epoch: Option<u64>) -> BusRequestV {
    request_v(acct, "device"@, "device.activate"@, jo(seq![
        ("device_id"@, js(device_id)),
        ("target_delivery_id"@, js(target)),
        ("device_seed"@, seed_v(seed)),
        ("device_epoch"@, opt_uint_v(epoch)),
    ]))
}

/// Activates a restored device; the seed goes as an array of byte values.
pub fn device_activate(acct: &String, device_id: &str, target: &str, seed: &[u8; 32], epoch: Option<u64>) -> (r: BusRequest)
    ensures
        r@ == device_activate_v(acct@, device_id@, target@, seed@, epoch),
{
    let mut bytes: Vec<Json> = Vec::new();
    let mut i: usize = 0;
    while i < 32
        invariant
            0 <= i <= 32,
            seed@.len() == 32,
            bytes@.map_values(|x: Json| x@) == seed@.take(i as int).map_values(|b: u8| uint_v(b as u64)),
        decreases 32 - i,
    {
        let ghost prev = bytes@;
        bytes.push(uint(seed[i] as u64));
        assert(bytes@.map_values(|x: Json| x@) =~= prev.map_values(|x: Json| x@).push(uint_v(seed@[i as int] as u64)));
        assert(seed@.take(i as int + 1) =~= seed@.take(i as int).push(seed@[i as int]));
        i = i + 1;
    }
    assert(seed@.take(32) =~= seed@);
    proof {
        crate::json::lemma_array_view(bytes);
    }
    let seed_json = Json::Array(bytes);
    let es: Vec<(String, Json)> = vec![
        member("device_id", text(device_id)),
        member("target_delivery_id", text(target)),
        member("device_seed", seed_json),
        member("device_epoch", opt_uint(epoch)),
    ];
    let ghost ev = es@;
    let body = object(es);
    assert(entries_v(ev) =~= seq![
        ("device_id"@, js(device_id@)),
        ("target_delivery_id"@, js(target@)),
        ("device_seed"@, seed_v(seed@)),
        ("device_epoch"@, opt_uint_v(epoch)),
    ]);
    request(acct, "device", "device.activate", body)
}

pub open spec fn pending_json_v(p: PendingAttachmentV) -> JsonV {
    jo(seq![
        ("object_id"@, js(p.object_id)),
        ("plaintext_base64"@, js(p.plaintext_base64)),
        ("chunk_size"@, uint_v(p.chunk_size as u64)),
        ("relay_endpoint"@, js(p.relay_endpoint)),
        ("relay_service_key_base64"@, opt_text_v(p.relay_service_key_base64)),
    ])
}

pub open spec fn pending_list_v(ps: Seq<PendingAttachmentV>) -> JsonV {
    JsonV::Array(ps.map_values(|p: PendingAttachmentV| pending_json_v(p)))
}

fn pending_json(p: &PendingAttachment) -> (r: Json)
    ensures
        r@ == pending_json_v(p@),
{
    let es: Vec<(String, Json)> = vec![
        member("object_id", text(p.object_id.as_str())),
        member("plaintext_base64", text(p.plaintext_base64.as_str())),
        member("chunk_size", uint(p.chunk_size as u64)),
        member("relay_endpoint", text(p.relay_endpoint.as_str())),
        member("relay_service_key_base64", opt_text(&p.relay_service_key_base64)),
    ];
    let ghost ev = es@;
    let body = object(es);
    assert(entries_v(ev) =~= seq![
        ("object_id"@, js(p@.object_id)),
        ("plaintext_base64"@, js(p@.plaintext_base64)),
        ("chunk_size"@, uint_v(p@.chunk_size as u64)),
        ("relay_endpoint"@, js(p@.relay_endpoint)),
        ("relay_service_key_base64"@, opt_text_v(p@.relay_service_key_base64)),
    ]);
    body
}

/// The JSON list of queued attachments.
pub fn pending_attachments_json(ps: &Vec<PendingAttachment>) -> (r: Json)
    ensures
        r@ == pending_list_v(views(ps@)),
{
    let mut items: Vec<Json> = Vec::new();
    let mut i: usize = 0;
    while i < ps.len()
        invariant
            0 <= i <= ps.len(),
            items@.map_values(|x: Json| x@) == views(ps@).take(i as int).map_values(|p: PendingAttachmentV| pending_json_v(p)),
        decreases ps.len() - i,
    {
        let ghost prev = items@;
        let j = pending_json(&ps[i]);
        items.push(j);
        assert(items@.map_values(|x: Json| x@) =~= prev.map_values(|x: Json| x@).push(j@));
        assert(views(ps@).take(i as int + 1) =~= views(ps@).take(i as int).push(ps@[i as int]@));
        i = i + 1;
    }
    assert(views(ps@).take(ps.len() as int) =~= views(ps@));
    proof {
        crate::json::lemma_array_view(items);
    }
    Json::Array(items)
}

pub open spec fn message_submit_v(
    acct: Seq<char>,
    d: MessageDraftV,
    principal: Seq<char>,
    sender: Seq<char>,
    encoded: Seq<char>,
    created_at: i64,
    attachments: Seq<PendingAttachmentV>,
) -> BusRequestV {
    request_v(acct, "message"@, "message.submit"@, jo(seq![
        ("conversation_id"@, js(d.conversation_id)),
        ("message_id"@, js(d.message_id)),
        ("envelope_id"@, js(d.envelope_id)),
        ("source_principal_id"@, js(principal)),
        ("sender_id"@, js(sender)),
        ("recipient_device_id"@, opt_text_v(d.recipient_device_id)),
        ("target_delivery_id"@, js(d.target_delivery_id)),
        ("encrypted_body_base64"@, js(""@)),
        ("plaintext_body_base64"@, js(encoded)),
        ("created_at"@, int_v(created_at)),
        ("ttl"@, uint_v(3600)),
        ("attachments"@, pending_list_v(attachments)),
    ]))
}

/// Submits a direct message with its queued attachments.
pub fn message_submit(
    acct: &String,
    d: &MessageDraft,
    principal: &str,
    sender: &str,
    encoded: &str,
    created_at: i64,
    attachments: &Vec<PendingAttachment>,
) -> (r: BusRequest)
    ensures
        r@ == message_submit_v(acct@, d@, principal@, sender@, encoded@, created_at, views(attachments@)),
{
    let es: Vec<(String, Json)> = vec![
        member("conversation_id", text(d.conversation_id.as_str())),
        member("message_id", text(d.message_id.as_str())),
        member("envelope_id", text(d.envelope_id.as_str())),
        member("source_principal_id", text(principal)),
        member("sender_id", text(sender)),
        member("recipient_device_id", opt_text(&d.recipient_device_id)),
        member("target_delivery_id", text(d.target_delivery_id.as_str())),
        member("encrypted_body_base64", text("")),
        member("plaintext_body_base64", text(encoded)),
        member("created_at", signed(created_at)),
        member("ttl", uint(3600)),
        member("attachments", pending_attachments_json(attachments)),
    ];
    let ghost ev = es@;
    let body = object(es);
    assert(entries_v(ev) =~= seq![
        ("conversation_id"@, js(d@.conversation_id)),
        ("message_id"@, js(d@.message_id)),
        ("envelope_id"@, js(d@.envelope_id)),
        ("source_principal_id"@, js(principal@)),
        ("sender_id"@, js(sender@)),
        ("recipient_device_id"@, opt_text_v(d@.recipient_device_id)),
        ("target_delivery_id"@, js(d@.target_delivery_id)),
        ("encrypted_body_base64"@, js(""@)),
        ("plaintext_body_base64"@, js(encoded@)),
        ("created_at"@, int_v(created_at)),
        ("ttl"@, uint_v(3600)),
        ("attachments"@, pending_list_v(views(attachments@))),
    ]);
    request(acct, "message", "message.submit", body)
}

pub open spec fn a2ui_action_v(
    acct: Seq<char>,
    surface: JsonV,
    surface_id: Seq<char>,
    surface_hash: Seq<char>,
    component_id: Seq<char>,
    permission: Seq<char>,
    approval_id: Seq<char>,
) -> BusRequestV {
    request_v(acct, "a2ui"@, "a2ui.action"@, jo(seq![
        ("surface"@, surface),
        ("action"@, jo(seq![
            ("surface_id"@, js(surface_id)),
            ("surface_hash"@, js(surface_hash)),
            ("component_id"@, js(component_id)),
            ("permission"@, js(permission)),
            ("source_device_id"@, js("attended_tui_device"@)),
            ("target_device_id"@, js("local_mcp_surface"@)),
            ("created_at"@, uint_v(1760000700)),
            ("nonce"@, js("nonce:"@ + approval_id)),
            ("signature"@, js("attended-local:"@ + approval_id)),
        ])),
    ]))
}

/// Answers an approval surface from the attended terminal.
pub fn a2ui_action(
    acct: &String,
    surface: Json,
    surface_id: &str,
    surface_hash: &str,
    component_id: &str,
    permission: &str,
    approval_id: &str,
) -> (r: BusRequest)
    ensures
        r@ == a2ui_action_v(acct@, surface@, surface_id@, surface_hash@, component_id@, permission@, approval_id@),
{
    let nonce = crate::text::cat("nonce:", approval_id);
    let signature = crate::text::cat("attended-local:", approval_id);
    let action_es: Vec<(String, Json)> = vec![
        member("surface_id", text(surface_id)),
        member("surface_hash", text(surface_hash)),
        member("component_id", text(component_id)),
        member("permission", text(permission)),
        member("source_device_id", text("attended_tui_device")),
        member("target_device_id", text("local_mcp_surface")),
        member("created_at", uint(1760000700)),
        member("nonce", Json::Str(nonce)),
        member("signature", Json::Str(signature)),
    ];
    let ghost av = action_es@;
    let action = object(action_es);
    assert(entries_v(av) =~= seq![
        ("surface_id"@, js(surface_id@)),
        ("surface_hash"@, js(surface_hash@)),
        ("component_id"@, js(component_id@)),
        ("permission"@, js(permission@)),
        ("source_device_id"@, js("attended_tui_device"@)),
        ("target_device_id"@, js("local_mcp_surface"@)),
        ("created_at"@, uint_v(1760000700)),
        ("nonce"@, js("nonce:"@ + approval_id@)),
        ("signature"@, js("attended-local:"@ + approval_id@)),
    ]);
    let ghost actv = action@;
    let ghost sv = surface@;
    let es: Vec<(String, Json)> = vec![member("surface", surface), member("action", action)];
    let ghost ev = es@;
    let body = object(es);
    assert(entries_v(ev) =~= seq![("surface"@, sv), ("action"@, actv)]);
    request(acct, "a2ui", "a2ui.action", body)
}

} // verus!
