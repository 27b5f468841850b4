//! The client controller: what each input, bus event and daemon response
//! does to the view model, and which requests it makes.

use vstd::prelude::*;
use crate::json::{Json, JsonV, jget, jget2, jstr, jitems, ji64, sfield, str_items, string_field, collect_strings};
use crate::state::{
    views, opt_view, lemma_views_push, lemma_views_update, replace_at, TuiState, TuiStateV,
    Panel, InputMode, TuiInput, ConversationRow, ConversationRowV, MessageRow, MessageRowV,
    ObjectTransferRow, ObjectTransferRowV, ContactRow, ContactRowV, GroupRow, GroupRowV,
    PendingAttachment, PendingAttachmentV, panel_next, initial_state, DEFAULT_CONVERSATION_ID,
    DEFAULT_TARGET_DELIVERY_ID, DEFAULT_ACCOUNT_ID,
};
use crate::parsing::{transfer_v, parse_transfer, surface_candidate};
use crate::text::{
    str_eq, push_char, pop_char, dec, cat, cat3, u64_to_string, words, split_whitespace,
    strip_prefix, strip_prefix_spec, trim, trim_spec,
};
use crate::bus::{BusRequest, BusRequestV};
use crate::requests::{
    subscription_open, subscription_open_v, message_read, message_read_v, message_receive,
    message_receive_v, list_request, list_request_v, account_status, account_status_v,
    message_submit, message_submit_v, transfer_status, transfer_status_v, object_put, object_put_v,
    device_activate, device_activate_v, device_revoke, device_revoke_v, sync_export, sync_export_v,
    sync_import, sync_import_v, object_get, object_get_v, transfer_resume, transfer_resume_v,
    contact_commitment, contact_commitment_v, contact_link, contact_link_v, account_switch,
    account_switch_v, message_delete, message_delete_v, receipt_delivered, receipt_delivered_v,
    receipt_read, receipt_read_v, group_member, group_member_v, group_role, group_role_v,
    group_invite, group_invite_v, group_invite_accept, group_invite_accept_v, group_message_delete,
    group_message_delete_v, disappearing_set, disappearing_set_v, conversation_mute,
    conversation_mute_v, grant, grant_v, a2ui_action, a2ui_action_v,
};
use crate::a2ui::{first_actionable_component, first_action_list};
use crate::task::{
    TuiError, TuiErrorV, Effect, EffectV, Outcome, OutcomeV, Step, StepV, Then, ThenV, Task, TaskV,
    RenderJob, RenderJobV, MessageDraft, MessageDraftV, task_of,
};
use crate::parsing::{
    parse_messages, messages_v, parse_decrypted_messages, decrypted_messages_v, decrypted_payloads,
    decrypted_payloads_v, parse_contacts, contacts_v, parse_devices, devices_v, parse_groups,
    groups_v, surface_candidates, surface_candidate_v, parse_approvals, approvals_v,
    parse_approval_row, approval_v, surface_at, opt_strings_v, surface_outcomes_v,
};
use crate::state::{AttachmentRow, AttachmentRowV, ApprovalRow, ApprovalRowV, DeviceRowV, RenderedSurface};

verus! {

/// The client: its view model, whether the user asked to quit, and the
/// relay settings read from the environment.
#[derive(Debug)]
pub struct TuiApp {
    pub state: TuiState,
    should_quit: bool,
    relay_url: Option<String>,
    relay_key: Option<String>,
}

pub struct AppV {
    pub state: TuiStateV,
    pub should_quit: bool,
    pub relay_url: Option<Seq<char>>,
    pub relay_key: Option<Seq<char>>,
}

impl View for TuiApp {
    type V = AppV;

    closed spec fn view(&self) -> AppV {
        AppV {
            state: self.state@,
            should_quit: self.should_quit,
            relay_url: opt_view(self.relay_url),
            relay_key: opt_view(self.relay_key),
        }
    }
}

/// The relay service key: the environment's value unless it is empty.
pub open spec fn relay_key_v(a: AppV) -> Option<Seq<char>> {
    match a.relay_key {
        Some(k) => if k.len() > 0 {
            Some(k)
        } else {
            None
        },
        None => None,
    }
}

pub open spec fn default_conversation_v(last_message: Seq<char>) -> ConversationRowV {
    ConversationRowV {
        id: DEFAULT_CONVERSATION_ID@,
        title: "Default DM"@,
        last_message,
        unread: 0,
        status: "synced"@,
        recipient_device_id: None,
        target_delivery_id: None,
    }
}

/// With no conversation, the default one, showing the last message.
pub open spec fn ensure_default_v(s: TuiStateV) -> TuiStateV {
    if s.conversations.len() > 0 {
        s
    } else {
        TuiStateV {
            conversations: seq![
                default_conversation_v(
                    if s.messages.len() > 0 {
                        s.messages.last().body
                    } else {
                        Seq::empty()
                    },
                ),
            ],
            ..s
        }
    }
}

pub open spec fn saturating_inc(n: usize) -> usize {
    if n == usize::MAX {
        n
    } else {
        (n + 1) as usize
    }
}

/// Appends a message; the first conversation shows it as new and unread.
pub open spec fn push_message_v(s: TuiStateV, m: MessageRowV) -> TuiStateV {
    let s1 = TuiStateV { messages: s.messages.push(m), ..s };
    if s.conversations.len() > 0 {
        let c = s.conversations[0];
        TuiStateV {
            conversations: s.conversations.update(
                0,
                ConversationRowV {
                    last_message: m.body,
                    unread: saturating_inc(c.unread),
                    status: "new"@,
                    ..c
                },
            ),
            ..s1
        }
    } else {
        ensure_default_v(s1)
    }
}

/// The position of the first message with id `id`, or the count when none.
pub open spec fn message_pos(ms: Seq<MessageRowV>, id: Seq<char>) -> nat
    decreases ms.len(),
{
    if ms.len() == 0 {
        0
    } else if ms[0].id == id {
        0
    } else {
        1 + message_pos(ms.drop_first(), id)
    }
}

/// Replaces the message with the same id, or appends it.
pub open spec fn upsert_message_v(s: TuiStateV, m: MessageRowV) -> TuiStateV {
    let k = message_pos(s.messages, m.id);
    if k < s.messages.len() {
        TuiStateV { messages: s.messages.update(k as int, m), ..s }
    } else {
        push_message_v(s, m)
    }
}

pub open spec fn upsert_all_v(s: TuiStateV, ms: Seq<MessageRowV>) -> TuiStateV
    decreases ms.len(),
{
    if ms.len() == 0 {
        s
    } else {
        upsert_message_v(upsert_all_v(s, ms.drop_last()), ms.last())
    }
}

/// The position of the first transfer of `object_id` in `direction`, or the
/// count when none.
pub open spec fn transfer_pos(ts: Seq<ObjectTransferRowV>, object_id: Seq<char>, direction: Seq<char>) -> nat
    decreases ts.len(),
{
    if ts.len() == 0 {
        0
    } else if ts[0].object_id == object_id && ts[0].direction == direction {
        0
    } else {
        1 + transfer_pos(ts.drop_first(), object_id, direction)
    }
}

/// Records the transfer of an object response, completing its relay settings
/// from the environment, in place of the one for the same object and
/// direction.
pub open spec fn apply_transfer_v(a: AppV, response: JsonV) -> AppV {
    match transfer_v(response) {
        Some(t0) => {
            let t = ObjectTransferRowV {
                relay_endpoint: if t0.relay_endpoint is Some {
                    t0.relay_endpoint
                } else {
                    a.relay_url
                },
                relay_service_key_base64: if t0.relay_service_key_base64 is Some {
                    t0.relay_service_key_base64
                } else {
                    relay_key_v(a)
                },
                ..t0
            };
            let ts = a.state.object_transfers;
            let k = transfer_pos(ts, t.object_id, t.direction);
            AppV {
                state: TuiStateV {
                    object_transfers: if k < ts.len() {
                        ts.update(k as int, t)
                    } else {
                        ts.push(t)
                    },
                    ..a.state
                },
                ..a
            }
        },
        None => a,
    }
}

/// The position of the first contact whose target or requester is `id`, or
/// the count when none.
pub open spec fn contact_pos(cs: Seq<ContactRowV>, id: Seq<char>) -> nat
    decreases cs.len(),
{
    if cs.len() == 0 {
        0
    } else if cs[0].target == id || cs[0].requester == id {
        0
    } else {
        1 + contact_pos(cs.drop_first(), id)
    }
}

/// Records a safety-number response on the contact it names.
pub open spec fn apply_contact_safety_v(s: TuiStateV, response: JsonV) -> TuiStateV {
    match jstr(jget(response, "contact_identity_commitment"@)) {
        Some(id) => {
            let k = contact_pos(s.contacts, id);
            if k < s.contacts.len() {
                let c = s.contacts[k as int];
                TuiStateV {
                    contacts: s.contacts.update(
                        k as int,
                        ContactRowV {
                            safety_number: str_items(jitems(jget(response, "safety_number"@))),
                            fingerprint_hex: jstr(jget(response, "fingerprint_hex"@)),
                            verification_state: sfield(
                                response,
                                "verification_state"@,
                                "unverified"@,
                            ),
                            ..c
                        },
                    ),
                    ..s
                }
            } else {
                s
            }
        },
        None => s,
    }
}

pub open spec fn saturating_dec(n: usize) -> usize {
    if n == 0 {
        0
    } else {
        (n - 1) as usize
    }
}

/// Moves the selection of the current panel up, stopping at the top.
pub open spec fn move_up_v(s: TuiStateV) -> TuiStateV {
    match s.selected_panel {
        Panel::Messages => TuiStateV { selected_message: saturating_dec(s.selected_message), ..s },
        Panel::Objects => TuiStateV {
            selected_object_transfer: saturating_dec(s.selected_object_transfer),
            ..s
        },
        Panel::Contacts => TuiStateV { selected_contact: saturating_dec(s.selected_contact), ..s },
        Panel::Groups => TuiStateV { selected_group: saturating_dec(s.selected_group), ..s },
        Panel::Approvals => TuiStateV {
            selected_approval: saturating_dec(s.selected_approval),
            ..s
        },
        Panel::Conversations => TuiStateV {
            selected_conversation: saturating_dec(s.selected_conversation),
            ..s
        },
    }
}

/// Moves the selection of the current panel down, stopping at the last row.
/// On a panel whose selection cannot move, the conversation selection moves.
pub open spec fn move_down_v(s: TuiStateV) -> TuiStateV {
    if s.selected_panel == Panel::Messages && s.selected_message + 1 < s.messages.len() {
        TuiStateV { selected_message: (s.selected_message + 1) as usize, ..s }
    } else if s.selected_panel == Panel::Objects && s.selected_object_transfer + 1
        < s.object_transfers.len() {
        TuiStateV { selected_object_transfer: (s.selected_object_transfer + 1) as usize, ..s }
    } else if s.selected_panel == Panel::Contacts && s.selected_contact + 1 < s.contacts.len() {
        TuiStateV { selected_contact: (s.selected_contact + 1) as usize, ..s }
    } else if s.selected_panel == Panel::Groups && s.selected_group + 1 < s.groups.len() {
        TuiStateV { selected_group: (s.selected_group + 1) as usize, ..s }
    } else if s.selected_panel == Panel::Approvals && s.selected_approval + 1 < s.approvals.len() {
        TuiStateV { selected_approval: (s.selected_approval + 1) as usize, ..s }
    } else if s.selected_conversation + 1 < s.conversations.len() {
        TuiStateV { selected_conversation: (s.selected_conversation + 1) as usize, ..s }
    } else {
        s
    }
}


/// The id of the selected conversation, or the default one.
pub open spec fn conv_id_v(s: TuiStateV) -> Seq<char> {
    if s.selected_conversation < s.conversations.len() {
        s.conversations[s.selected_conversation as int].id
    } else {
        DEFAULT_CONVERSATION_ID@
    }
}

pub open spec fn request_step(r: BusRequestV, then: ThenV) -> StepV {
    StepV::Issue(EffectV::Request(r), then)
}

/// The steps that load every projection, then make sure a conversation exists.
pub open spec fn refresh_all_steps_v(a: AppV) -> Seq<StepV> {
    let acct = a.state.account_id;
    let conv = conv_id_v(a.state);
    seq![
        request_step(subscription_open_v(acct), ThenV::Ignore),
        request_step(message_read_v(acct, conv), ThenV::ReadMessages),
        request_step(message_receive_v(acct, conv, relay_key_v(a)), ThenV::ReceiveMessages),
        request_step(list_request_v(acct, "contact"@, "contact.list"@), ThenV::StoreContacts),
        request_step(list_request_v(acct, "device"@, "device.list"@), ThenV::StoreDevices),
        request_step(list_request_v(acct, "group"@, "group.list"@), ThenV::StoreGroups),
        request_step(list_request_v(acct, "mcp"@, "mcp.approval.list"@), ThenV::ListApprovals),
        StepV::EnsureDefaultConversation,
    ]
}

/// The catalogs and permissions an approval surface is rendered with.
pub open spec fn render_job_v(candidates: Seq<Option<JsonV>>) -> RenderJobV {
    RenderJobV {
        candidates,
        supported_catalogs: seq!["ramflux.basic.v1"@],
        permissions: seq!["mcp.approve"@, "mcp.deny"@, "message.send"@, "task.stop"@, "task.resume"@],
    }
}

pub open spec fn approval_candidates_v(response: JsonV) -> Seq<Option<JsonV>> {
    jitems(jget(response, "approvals"@)).map_values(|x: JsonV| surface_candidate_v(x))
}

/// The position of the first approval with id `id`, or the count when none.
pub open spec fn approval_pos(items: Seq<ApprovalRowV>, id: Seq<char>) -> nat
    decreases items.len(),
{
    if items.len() == 0 {
        0
    } else if items[0].id == id {
        0
    } else {
        1 + approval_pos(items.drop_first(), id)
    }
}

/// Replaces the approval with the same id, or appends it.
pub open spec fn upsert_approval_v(s: TuiStateV, row: ApprovalRowV) -> TuiStateV {
    let k = approval_pos(s.approvals, row.id);
    if k < s.approvals.len() {
        TuiStateV { approvals: s.approvals.update(k as int, row), ..s }
    } else {
        TuiStateV { approvals: s.approvals.push(row), ..s }
    }
}

pub open spec fn with_state(a: AppV, s: TuiStateV) -> AppV {
    AppV { state: s, ..a }
}

/// The selected message with a new status.
pub open spec fn set_message_status_v(s: TuiStateV, status: Seq<char>) -> TuiStateV {
    if s.selected_message < s.messages.len() {
        let m = s.messages[s.selected_message as int];
        TuiStateV { messages: s.messages.update(s.selected_message as int, MessageRowV { status, ..m }), ..s }
    } else {
        s
    }
}

/// The selected message deleted and its body cleared.
pub open spec fn tombstone_message_v(s: TuiStateV) -> TuiStateV {
    if s.selected_message < s.messages.len() {
        let m = s.messages[s.selected_message as int];
        TuiStateV {
            messages: s.messages.update(
                s.selected_message as int,
                MessageRowV { status: "deleted"@, body: Seq::empty(), ..m },
            ),
            ..s
        }
    } else {
        s
    }
}

pub open spec fn update_group_v(s: TuiStateV, g: GroupRowV) -> TuiStateV {
    if s.selected_group < s.groups.len() {
        TuiStateV { groups: s.groups.update(s.selected_group as int, g), ..s }
    } else {
        s
    }
}

pub open spec fn selected_group_v(s: TuiStateV) -> GroupRowV {
    s.groups[s.selected_group as int]
}

pub open spec fn group_members_v(s: TuiStateV, response: JsonV) -> TuiStateV {
    update_group_v(s, GroupRowV { members: str_items(jitems(jget(response, "members"@))), ..selected_group_v(s) })
}

pub open spec fn group_ttl_v(s: TuiStateV, response: JsonV) -> TuiStateV {
    update_group_v(s, GroupRowV { disappearing_ttl_secs: ji64(jget(response, "ttl_secs"@)), ..selected_group_v(s) })
}

pub open spec fn group_mute_v(s: TuiStateV, response: JsonV) -> TuiStateV {
    update_group_v(s, GroupRowV { mute_until: ji64(jget(response, "mute_until"@)), ..selected_group_v(s) })
}

/// The state after a switch to `active`: selections back at the top.
pub open spec fn switched_v(s: TuiStateV, active: Seq<char>) -> TuiStateV {
    TuiStateV {
        account_id: active,
        selected_conversation: 0,
        selected_message: 0,
        selected_contact: 0,
        selected_group: 0,
        status_message: Some("active account: "@ + active),
        ..s
    }
}

/// The sender id of a direct message: the local device, else the account
/// status's device, else the account.
pub open spec fn sender_v(s: TuiStateV, status: JsonV) -> Seq<char> {
    match s.local_device_id {
        Some(d) => d,
        None => match jstr(jget(status, "device_id"@)) {
            Some(d) => d,
            None => s.account_id,
        },
    }
}

pub open spec fn sent_attachment_v(envelope_id: Seq<char>, p: PendingAttachmentV) -> AttachmentRowV {
    AttachmentRowV {
        message_id: envelope_id,
        object_id: p.object_id,
        status: "uploading"@,
        plaintext_base64: None,
    }
}

/// The row of a direct message just submitted.
pub open spec fn sent_row_v(d: MessageDraftV, attachments: Seq<PendingAttachmentV>) -> MessageRowV {
    MessageRowV {
        id: d.message_id,
        sender: "me"@,
        body: d.body,
        status: "sending"@,
        attachments: attachments.map_values(|p: PendingAttachmentV| sent_attachment_v(d.envelope_id, p)),
        receipts: Seq::empty(),
    }
}

/// The object id of an attached file.
pub open spec fn attachment_id_v(s: TuiStateV, file_name: Option<Seq<char>>) -> Seq<char> {
    match file_name {
        Some(n) => "attachment:"@ + n + ":"@ + dec(s.next_message_id as nat),
        None => "attachment:"@ + dec(s.pending_attachments.len()),
    }
}

pub open spec fn missing_relay_v() -> TuiErrorV {
    TuiErrorV::LocalBus("missing RAMFLUX_TUI_RELAY_URL for relay object transfer"@)
}

pub open spec fn unexpected_v() -> TuiErrorV {
    TuiErrorV::LocalBus("unexpected outcome"@)
}

/// The state after queueing an attachment.
pub open spec fn queued_v(s: TuiStateV, p: PendingAttachmentV) -> TuiStateV {
    TuiStateV {
        pending_attachments: s.pending_attachments.push(p),
        status_message: Some("queued attachment count="@ + dec((s.pending_attachments.len() + 1) as nat)),
        ..s
    }
}

/// What applying an outcome yields: further steps and a result, or an error.
pub enum AppliedV {
    Continue(Seq<StepV>, Option<JsonV>),
    Failed(TuiErrorV),
}

pub open spec fn steps_only(steps: Seq<StepV>) -> AppliedV {
    AppliedV::Continue(steps, None)
}

pub open spec fn no_steps() -> AppliedV {
    AppliedV::Continue(Seq::empty(), None)
}

/// What the outcome of a step's effect does, given what the step waited for.
pub open spec fn apply_v(a: AppV, then: ThenV, outcome: OutcomeV) -> (AppV, AppliedV) {
    let s = a.state;
    let acct = s.account_id;
    match (then, outcome) {
        (ThenV::Ignore, OutcomeV::Response(_)) => (a, no_steps()),
        (ThenV::ReturnResponse, OutcomeV::Response(r)) => (a, AppliedV::Continue(Seq::empty(), Some(r))),
        (ThenV::ReadMessages, OutcomeV::Response(r)) => (a, steps_only(seq![
            StepV::Issue(EffectV::Decode(decrypted_payloads_v(r)), ThenV::StoreMessages(r)),
        ])),
        (ThenV::StoreMessages(r), OutcomeV::Decoded(d)) => (
            with_state(a, TuiStateV { messages: messages_v(r, d), ..s }),
            no_steps(),
        ),
        (ThenV::ReceiveMessages, OutcomeV::Response(r)) => (a, steps_only(seq![
            StepV::Issue(EffectV::Decode(decrypted_payloads_v(r)), ThenV::UpsertMessages(r)),
        ])),
        (ThenV::UpsertMessages(r), OutcomeV::Decoded(d)) => (
            with_state(a, upsert_all_v(s, decrypted_messages_v(r, d))),
            no_steps(),
        ),
        (ThenV::StoreContacts, OutcomeV::Response(r)) => (
            with_state(a, TuiStateV { contacts: contacts_v(r), ..s }),
            no_steps(),
        ),
        (ThenV::StoreDevices, OutcomeV::Response(r)) => (
            with_state(a, TuiStateV { devices: devices_v(r), ..s }),
            no_steps(),
        ),
        (ThenV::StoreGroups, OutcomeV::Response(r)) => (
            with_state(a, TuiStateV { groups: groups_v(r), ..s }),
            no_steps(),
        ),
        (ThenV::ListApprovals, OutcomeV::Response(r)) => (a, steps_only(seq![
            StepV::Issue(EffectV::Render(render_job_v(approval_candidates_v(r))), ThenV::StoreApprovals(r)),
        ])),
        (ThenV::StoreApprovals(r), OutcomeV::Rendered(rs)) => (
            with_state(a, TuiStateV { approvals: approvals_v(r, rs), ..s }),
            no_steps(),
        ),
        (ThenV::ApprovalEvent(body), OutcomeV::Rendered(rs)) => (
            with_state(a, upsert_approval_v(s, approval_v(body, surface_at(rs, 0)))),
            no_steps(),
        ),
        (ThenV::Transfer, OutcomeV::Response(r)) => (apply_transfer_v(a, r), no_steps()),
        (ThenV::ContactSafety, OutcomeV::Response(r)) => (
            with_state(a, apply_contact_safety_v(s, r)),
            no_steps(),
        ),
        (ThenV::Switched(requested), OutcomeV::Response(r)) => {
            let a1 = with_state(a, switched_v(s, sfield(r, "active_account_id"@, requested)));
            (a1, steps_only(refresh_all_steps_v(a1)))
        },
        (ThenV::MessageStatus(t), OutcomeV::Response(_)) => (
            with_state(a, set_message_status_v(s, t)),
            no_steps(),
        ),
        (ThenV::GroupTombstone, OutcomeV::Response(_)) => (with_state(a, tombstone_message_v(s)), no_steps()),
        (ThenV::GroupMembers, OutcomeV::Response(r)) => (with_state(a, group_members_v(s, r)), no_steps()),
        (ThenV::GroupTtl, OutcomeV::Response(r)) => (with_state(a, group_ttl_v(s, r)), no_steps()),
        (ThenV::GroupMute, OutcomeV::Response(r)) => (with_state(a, group_mute_v(s, r)), no_steps()),
        (ThenV::ObjectFetched(id), OutcomeV::Response(r)) => (a, steps_only(
            seq![request_step(transfer_status_v(acct, id, Some("download"@)), ThenV::Transfer)]
                + if jget(r, "plaintext_base64"@) is Some {
                seq![StepV::SetStatus(Some("downloaded object "@ + id))]
            } else {
                Seq::empty()
            },
        )),
        (ThenV::SubmitClock(d), OutcomeV::Clock(t)) => (a, steps_only(seq![
            StepV::Issue(EffectV::Encode(vstd::utf8::encode_utf8(d.body)), ThenV::SubmitEncoded(d, t)),
        ])),
        (ThenV::SubmitEncoded(d, t), OutcomeV::Encoded(e)) => (a, steps_only(seq![
            request_step(account_status_v(acct), ThenV::SubmitAccount(d, t, e)),
        ])),
        (ThenV::SubmitAccount(d, t, e), OutcomeV::Response(st)) => {
            let atts = s.pending_attachments;
            (
                with_state(a, TuiStateV { pending_attachments: Seq::empty(), ..s }),
                steps_only(seq![
                    request_step(
                        message_submit_v(
                            acct,
                            d,
                            sfield(st, "principal_id"@, acct),
                            sender_v(s, st),
                            e,
                            t,
                            atts,
                        ),
                        ThenV::Submitted(sent_row_v(d, atts)),
                    ),
                ]),
            )
        },
        (ThenV::Submitted(row), OutcomeV::Response(_)) => (with_state(a, push_message_v(s, row)), no_steps()),
        (ThenV::AttachFile, OutcomeV::FileRead(bytes, name)) => match a.relay_url {
            Some(url) => (a, steps_only(seq![
                StepV::Issue(
                    EffectV::Encode(bytes),
                    ThenV::QueueAttachment(attachment_id_v(s, name), url, relay_key_v(a)),
                ),
            ])),
            None => (a, AppliedV::Failed(missing_relay_v())),
        },
        (ThenV::QueueAttachment(id, url, key), OutcomeV::Encoded(e)) => (
            with_state(a, queued_v(s, PendingAttachmentV {
                object_id: id,
                plaintext_base64: e,
                chunk_size: 65536,
                relay_endpoint: url,
                relay_service_key_base64: key,
            })),
            no_steps(),
        ),
        (ThenV::PutFile(id), OutcomeV::FileRead(bytes, _)) => (a, steps_only(seq![
            StepV::Issue(EffectV::Encode(bytes), ThenV::PutEncoded(id)),
        ])),
        (ThenV::PutEncoded(id), OutcomeV::Encoded(e)) => (a, steps_only(seq![
            request_step(object_put_v(acct, id, e, a.relay_url, relay_key_v(a)), ThenV::Transfer),
        ])),
        _ => (a, AppliedV::Failed(unexpected_v())),
    }
}

/// What a step that needs no outside work does.
pub open spec fn local_v(a: AppV, step: StepV) -> AppV {
    match step {
        StepV::SetStatus(m) => with_state(a, TuiStateV { status_message: m, ..a.state }),
        StepV::EnsureDefaultConversation => with_state(a, ensure_default_v(a.state)),
        StepV::FinishCompose => with_state(a, TuiStateV { input_mode: InputMode::Normal, ..a.state }),
        StepV::Issue(_, _) => a,
    }
}

/// Takes the steps that need no outside work, up to the first that does.
pub open spec fn run_v(a: AppV, t: TaskV) -> (AppV, TaskV, EffectV)
    decreases t.steps.len(),
{
    if t.steps.len() == 0 {
        (a, TaskV { output: None, ..t }, EffectV::Done(t.output))
    } else {
        match t.steps[0] {
            StepV::Issue(e, th) => (a, TaskV { steps: t.steps.drop_first(), waiting: Some(th), ..t }, e),
            _ => run_v(local_v(a, t.steps[0]), TaskV { steps: t.steps.drop_first(), ..t }),
        }
    }
}

/// One move of an operation: apply the outcome to the step that waited for
/// it, then take steps until one needs outside work, or the task ends. When
/// the outside work failed, the task ends there with that failure.
pub open spec fn advance_v(a: AppV, t: TaskV, outcome: OutcomeV) -> (AppV, TaskV, EffectV) {
    match outcome {
        OutcomeV::Failed(e) => (a, TaskV { steps: Seq::empty(), waiting: None, ..t }, EffectV::Fail(e)),
        _ => advance_ok_v(a, t, outcome),
    }
}

pub open spec fn advance_ok_v(a: AppV, t: TaskV, outcome: OutcomeV) -> (AppV, TaskV, EffectV) {
    match t.waiting {
        Some(th) => {
            let (a1, applied) = apply_v(a, th, outcome);
            match applied {
                AppliedV::Continue(steps, out) => run_v(
                    a1,
                    TaskV {
                        steps: steps + t.steps,
                        waiting: None,
                        output: if out is Some {
                            out
                        } else {
                            t.output
                        },
                    },
                ),
                AppliedV::Failed(e) => (a1, TaskV { steps: Seq::empty(), waiting: None, ..t }, EffectV::Fail(e)),
            }
        },
        None => run_v(a, t),
    }
}


pub open spec fn one(st: StepV) -> TaskV {
    task_of(seq![st])
}

pub open spec fn nothing_to_do() -> TaskV {
    task_of(Seq::empty())
}

pub open spec fn refresh_devices_v(a: AppV) -> StepV {
    request_step(list_request_v(a.state.account_id, "device"@, "device.list"@), ThenV::StoreDevices)
}

pub open spec fn refresh_contacts_v(a: AppV) -> StepV {
    request_step(list_request_v(a.state.account_id, "contact"@, "contact.list"@), ThenV::StoreContacts)
}

pub open spec fn refresh_approvals_v(a: AppV) -> StepV {
    request_step(list_request_v(a.state.account_id, "mcp"@, "mcp.approval.list"@), ThenV::ListApprovals)
}

pub open spec fn object_status_v(a: AppV, id: Seq<char>, dir: Option<Seq<char>>) -> StepV {
    request_step(transfer_status_v(a.state.account_id, id, dir), ThenV::Transfer)
}

pub open spec fn resume_v(a: AppV, id: Seq<char>, dir: Seq<char>, endpoint: Seq<char>, key: Option<Seq<char>>) -> StepV {
    request_step(transfer_resume_v(a.state.account_id, id, dir, endpoint, key), ThenV::Transfer)
}

pub open spec fn missing_endpoint_v() -> TuiErrorV {
    TuiErrorV::LocalBus("selected transfer is missing relay endpoint"@)
}

/// Resuming the selected transfer with the relay settings it was recorded
/// with; it fails when it has no relay endpoint.
pub open spec fn resume_selected_v(a: AppV) -> Result<TaskV, TuiErrorV> {
    let s = a.state;
    if s.selected_object_transfer < s.object_transfers.len() {
        let t = s.object_transfers[s.selected_object_transfer as int];
        match t.relay_endpoint {
            Some(ep) => Ok(one(resume_v(a, t.object_id, t.direction, ep, t.relay_service_key_base64))),
            None => Err(missing_endpoint_v()),
        }
    } else {
        Ok(nothing_to_do())
    }
}

/// Resuming a transfer with the relay settings of the environment; it fails
/// when the relay URL is not set.
pub open spec fn resume_transfer_v(a: AppV, id: Seq<char>, dir: Seq<char>) -> Result<TaskV, TuiErrorV> {
    match a.relay_url {
        Some(url) => Ok(one(resume_v(a, id, dir, url, relay_key_v(a)))),
        None => Err(missing_relay_v()),
    }
}

pub open spec fn refresh_selected_transfer_v(a: AppV) -> TaskV {
    let s = a.state;
    if s.selected_object_transfer < s.object_transfers.len() {
        let t = s.object_transfers[s.selected_object_transfer as int];
        one(object_status_v(a, t.object_id, Some(t.direction)))
    } else {
        nothing_to_do()
    }
}

pub open spec fn contact_request_v(a: AppV, method: Seq<char>) -> TaskV {
    let s = a.state;
    if s.selected_contact < s.contacts.len() {
        one(request_step(
            contact_commitment_v(s.account_id, method, s.contacts[s.selected_contact as int].target),
            ThenV::ContactSafety,
        ))
    } else {
        nothing_to_do()
    }
}

pub open spec fn contact_link_steps_v(a: AppV, method: Seq<char>, done: Seq<char>, link: Seq<char>, req: Seq<char>, target: Seq<char>) -> Seq<StepV> {
    seq![
        request_step(contact_link_v(a.state.account_id, method, link, req, target), ThenV::Ignore),
        refresh_contacts_v(a),
        StepV::SetStatus(Some(done + link)),
    ]
}

/// The device that receives or reads: the local device, else the account.
pub open spec fn reader_v(s: TuiStateV) -> Seq<char> {
    match s.local_device_id {
        Some(d) => d,
        None => s.account_id,
    }
}

pub open spec fn selected_conversation_v(s: TuiStateV) -> Option<ConversationRowV> {
    if s.selected_conversation < s.conversations.len() {
        Some(s.conversations[s.selected_conversation as int])
    } else {
        None
    }
}

pub open spec fn recipient_v(s: TuiStateV) -> Option<Seq<char>> {
    match selected_conversation_v(s) {
        Some(c) => c.recipient_device_id,
        None => None,
    }
}

pub open spec fn target_v(s: TuiStateV) -> Option<Seq<char>> {
    match selected_conversation_v(s) {
        Some(c) => c.target_delivery_id,
        None => None,
    }
}

pub open spec fn message_action_v(a: AppV, kind: int) -> TaskV {
    let s = a.state;
    if s.selected_message < s.messages.len() {
        let m = s.messages[s.selected_message as int];
        let conv = conv_id_v(s);
        if kind == 0 {
            one(request_step(message_delete_v(s.account_id, conv, m.id), ThenV::MessageStatus("deleted"@)))
        } else if kind == 1 {
            one(request_step(
                receipt_delivered_v(s.account_id, conv, m.id, reader_v(s), recipient_v(s), target_v(s)),
                ThenV::MessageStatus("delivered"@),
            ))
        } else {
            one(request_step(
                receipt_read_v(s.account_id, conv, m.id, reader_v(s), recipient_v(s), target_v(s)),
                ThenV::MessageStatus("read"@),
            ))
        }
    } else {
        nothing_to_do()
    }
}

/// A group request about the selected group, or nothing when none is selected.
pub open spec fn group_task_v(a: AppV, step: spec_fn(Seq<char>) -> StepV) -> TaskV {
    let s = a.state;
    if s.selected_group < s.groups.len() {
        one(step(s.groups[s.selected_group as int].id))
    } else {
        nothing_to_do()
    }
}

pub open spec fn group_message_delete_task_v(a: AppV, actor: Seq<char>) -> TaskV {
    let s = a.state;
    if s.selected_group < s.groups.len() && s.selected_message < s.messages.len() {
        one(request_step(
            group_message_delete_v(s.account_id, s.groups[s.selected_group as int].id, actor, s.messages[s.selected_message as int].id),
            ThenV::GroupTombstone,
        ))
    } else {
        nothing_to_do()
    }
}

/// The action that answers an approval's surface from this terminal: on its
/// first actionable component, when it has a rendered surface.
pub open spec fn a2ui_steps_v(acct: Seq<char>, ap: ApprovalRowV) -> Seq<StepV> {
    match (ap.surface, ap.rendered_surface) {
        (Some(surface), Some(rendered)) => match first_action_list(jitems(jget(surface, "components"@))) {
            Some((cid, perm)) => seq![
                request_step(
                    a2ui_action_v(acct, surface, sfield(surface, "surface_id"@, ""@), rendered.surface_hash, cid, perm, ap.id),
                    ThenV::Ignore,
                ),
            ],
            None => Seq::empty(),
        },
        _ => Seq::empty(),
    }
}

pub open spec fn remote_app_notice_v() -> Seq<char> {
    "该审批需 App 端签名授权(remote_app)"@
}

/// Approving or denying the selected approval. An approval confirmed on the
/// remote App is never approved here: the status line says so instead.
pub open spec fn decide_v(a: AppV, method: Seq<char>) -> (AppV, TaskV) {
    let s = a.state;
    if s.selected_approval < s.approvals.len() {
        let ap = s.approvals[s.selected_approval as int];
        if method == "grant.approve"@ && ap.confirmation_mode == "remote_app"@ {
            (with_state(a, TuiStateV { status_message: Some(remote_app_notice_v()), ..s }), nothing_to_do())
        } else {
            (a, task_of(
                (if method == "grant.approve"@ { a2ui_steps_v(s.account_id, ap) } else { Seq::empty() })
                + seq![
                    request_step(grant_v(s.account_id, method, ap.id), ThenV::Ignore),
                    StepV::SetStatus(None),
                    refresh_approvals_v(a),
                ],
            ))
        }
    } else {
        (a, nothing_to_do())
    }
}

/// The state with the input line taken.
pub open spec fn take_input_v(a: AppV) -> AppV {
    with_state(a, TuiStateV { input: Seq::empty(), ..a.state })
}

pub open spec fn saturating_inc_u64(n: u64) -> u64 {
    if n == u64::MAX {
        n
    } else {
        (n + 1) as u64
    }
}

/// The direct message made of `body`, numbered `n`, to the selected
/// conversation.
pub open spec fn draft_v(s: TuiStateV, body: Seq<char>, n: u64) -> MessageDraftV {
    MessageDraftV {
        body,
        message_id: "tui_msg_"@ + dec(n as nat),
        envelope_id: "tui_env_"@ + dec(n as nat),
        conversation_id: conv_id_v(s),
        recipient_device_id: recipient_v(s),
        target_delivery_id: match target_v(s) {
            Some(t) => t,
            None => DEFAULT_TARGET_DELIVERY_ID@,
        },
    }
}

/// Enter on the message panel: the input line, when there is one, is taken.
/// `/attach <path>` queues the file at the trimmed path; any other text is
/// sent as a direct message, numbered by the message counter, which moves on.
pub open spec fn submit_v(a: AppV) -> (AppV, TaskV) {
    let s = a.state;
    if s.selected_panel != Panel::Messages || s.input.len() == 0 {
        (a, nothing_to_do())
    } else {
        let a1 = take_input_v(a);
        match strip_prefix_spec(s.input, "/attach "@) {
            Some(rest) => (a1, one(StepV::Issue(EffectV::ReadFile(trim_spec(rest)), ThenV::AttachFile))),
            None => (
                with_state(a1, TuiStateV { next_message_id: saturating_inc_u64(s.next_message_id), ..a1.state }),
                one(StepV::Issue(EffectV::Clock, ThenV::SubmitClock(draft_v(s, s.input, s.next_message_id)))),
            ),
        }
    }
}

pub open spec fn object_usage_v() -> Seq<char> {
    "object command: put <path> <object_id> | get <object_id> <out> | status <object_id> [direction] | resume <object_id> <direction>"@
}

/// Enter on the object panel: the input line is taken and read as
/// `put <path> <object_id>`, `get <object_id> <out>`,
/// `status <object_id> [direction]` or `resume <object_id> <direction>`;
/// anything else puts the usage on the status line.
pub open spec fn object_command_v(a: AppV) -> (AppV, Result<TaskV, TuiErrorV>) {
    let w = words(a.state.input);
    let a1 = take_input_v(a);
    if w.len() == 3 && w[0] == "put"@ {
        (a1, Ok(one(StepV::Issue(EffectV::ReadFile(w[1]), ThenV::PutFile(w[2])))))
    } else if w.len() == 3 && w[0] == "get"@ {
        (a1, Ok(one(request_step(
            object_get_v(a1.state.account_id, w[1], a1.relay_url, relay_key_v(a1)),
            ThenV::ObjectFetched(w[1]),
        ))))
    } else if w.len() == 2 && w[0] == "status"@ {
        (a1, Ok(one(object_status_v(a1, w[1], None))))
    } else if w.len() == 3 && w[0] == "status"@ {
        (a1, Ok(one(object_status_v(a1, w[1], Some(w[2])))))
    } else if w.len() == 3 && w[0] == "resume"@ {
        (a1, resume_transfer_v(a1, w[1], w[2]))
    } else {
        (with_state(a1, TuiStateV { status_message: Some(object_usage_v()), ..a1.state }), Ok(nothing_to_do()))
    }
}

pub open spec fn missing_arg_v(label: Seq<char>) -> TuiErrorV {
    TuiErrorV::LocalBus("missing "@ + label)
}

pub open spec fn extra_arg_v(command: Seq<char>, extra: Seq<char>) -> TuiErrorV {
    TuiErrorV::LocalBus("unexpected "@ + command + " argument: "@ + extra)
}

/// `<command> <link_id> <requester> <target>` with exactly three arguments.
pub open spec fn link_command_v(a: AppV, w: Seq<Seq<char>>, command: Seq<char>, method: Seq<char>, done: Seq<char>) -> Result<TaskV, TuiErrorV> {
    if w.len() < 2 {
        Err(missing_arg_v(command + " link_id"@))
    } else if w.len() < 3 {
        Err(missing_arg_v(command + " requester commitment"@))
    } else if w.len() < 4 {
        Err(missing_arg_v(command + " target commitment"@))
    } else if w.len() > 4 {
        Err(extra_arg_v(command, w[4]))
    } else {
        Ok(task_of(contact_link_steps_v(a, method, done, w[1], w[2], w[3])))
    }
}

/// Enter on the contacts panel: the input line is taken and read as
/// `add <link_id> <requester> <target>`, `accept <link_id> <requester>
/// <target>` or `switch <account_id>`; an empty line does nothing, and a
/// missing or extra argument or another command is an error.
pub open spec fn contact_command_v(a: AppV) -> (AppV, Result<TaskV, TuiErrorV>) {
    let w = words(a.state.input);
    let a1 = take_input_v(a);
    (a1, if w.len() == 0 {
        Ok(nothing_to_do())
    } else if w[0] == "add"@ {
        link_command_v(a1, w, "contact add"@, "contact.add"@, "contact added: "@)
    } else if w[0] == "accept"@ {
        link_command_v(a1, w, "contact accept"@, "contact.accept"@, "contact accepted: "@)
    } else if w[0] == "switch"@ {
        if w.len() < 2 {
            Err(missing_arg_v("account switch account_id"@))
        } else if w.len() > 2 {
            Err(extra_arg_v("account switch"@, w[2]))
        } else {
            Ok(one(request_step(account_switch_v(w[1]), ThenV::Switched(w[1]))))
        }
    } else {
        Err(TuiErrorV::LocalBus("unknown contacts command: "@ + w[0]))
    })
}

/// The state with `c` typed at the end of the input line.
pub open spec fn push_input_v(a: AppV, c: char) -> AppV {
    with_state(a, TuiStateV { input: a.state.input.push(c), ..a.state })
}

/// The state with the last character of the input line erased.
pub open spec fn pop_input_v(a: AppV) -> AppV {
    if a.state.input.len() > 0 {
        with_state(a, TuiStateV { input: a.state.input.drop_last(), ..a.state })
    } else {
        a
    }
}

/// The panels whose input line takes typed text.
pub open spec fn takes_text(p: Panel) -> bool {
    p == Panel::Messages || p == Panel::Objects || p == Panel::Contacts
}

/// The panels on which `i` opens the composer.
pub open spec fn opens_composer(p: Panel) -> bool {
    p == Panel::Messages || p == Panel::Objects
}

pub open spec fn idle_v(a: AppV) -> (AppV, Result<TaskV, TuiErrorV>) {
    (a, Ok(nothing_to_do()))
}

/// Enter: the command of the object or contacts panel, else the message.
pub open spec fn enter_v(a: AppV) -> (AppV, Result<TaskV, TuiErrorV>) {
    if a.state.selected_panel == Panel::Objects {
        object_command_v(a)
    } else if a.state.selected_panel == Panel::Contacts {
        contact_command_v(a)
    } else {
        (submit_v(a).0, Ok(submit_v(a).1))
    }
}

/// A character outside the composer: the shortcut of the panel, else typed
/// text on a panel that takes text.
pub open spec fn shortcut_v(a: AppV, c: char) -> (AppV, Result<TaskV, TuiErrorV>) {
    let p = a.state.selected_panel;
    let acct = a.state.account_id;
    if p == Panel::Approvals && c == 'a' {
        (decide_v(a, "grant.approve"@).0, Ok(decide_v(a, "grant.approve"@).1))
    } else if p == Panel::Approvals && c == 'd' {
        (decide_v(a, "grant.deny"@).0, Ok(decide_v(a, "grant.deny"@).1))
    } else if p == Panel::Objects && c == 'r' {
        (a, resume_selected_v(a))
    } else if p == Panel::Objects && c == 's' {
        (a, Ok(refresh_selected_transfer_v(a)))
    } else if p == Panel::Contacts && c == 'S' {
        (a, Ok(contact_request_v(a, "contact.safety_number"@)))
    } else if p == Panel::Contacts && c == 'V' {
        (a, Ok(contact_request_v(a, "contact.verify"@)))
    } else if p == Panel::Messages && c == 'x' {
        (a, Ok(message_action_v(a, 0)))
    } else if p == Panel::Messages && c == 'l' {
        (a, Ok(message_action_v(a, 1)))
    } else if p == Panel::Messages && c == 'r' {
        (a, Ok(message_action_v(a, 2)))
    } else if p == Panel::Groups && c == 'm' {
        (a, Ok(group_task_v(a, |g: Seq<char>| request_step(
            conversation_mute_v(acct, g, Some(9223372036854775807i64), false),
            ThenV::GroupMute,
        ))))
    } else if p == Panel::Groups && c == 'u' {
        (a, Ok(group_task_v(a, |g: Seq<char>| request_step(conversation_mute_v(acct, g, None, true), ThenV::GroupMute))))
    } else if p == Panel::Groups && c == 'e' {
        (a, Ok(group_task_v(a, |g: Seq<char>| request_step(disappearing_set_v(acct, g, 3600), ThenV::GroupTtl))))
    } else if takes_text(p) {
        (push_input_v(a, c), Ok(nothing_to_do()))
    } else {
        idle_v(a)
    }
}

/// The task, then back to normal input.
pub open spec fn finish_compose_v(r: Result<TaskV, TuiErrorV>) -> Result<TaskV, TuiErrorV> {
    match r {
        Ok(t) => Ok(TaskV { steps: t.steps.push(StepV::FinishCompose), ..t }),
        Err(e) => Err(e),
    }
}

/// An input in the composer: every character, `q` and `i` included, is text;
/// Esc leaves the composer; Enter runs the panel's Enter, then leaves it.
pub open spec fn compose_input_v(a: AppV, input: TuiInput) -> (AppV, Result<TaskV, TuiErrorV>) {
    match input {
        TuiInput::Char(c) => (push_input_v(a, c), Ok(nothing_to_do())),
        TuiInput::EnterCompose => (push_input_v(a, 'i'), Ok(nothing_to_do())),
        TuiInput::Quit => (push_input_v(a, 'q'), Ok(nothing_to_do())),
        TuiInput::Backspace => (pop_input_v(a), Ok(nothing_to_do())),
        TuiInput::ExitCompose => (
            with_state(a, TuiStateV { input_mode: InputMode::Normal, ..a.state }),
            Ok(nothing_to_do()),
        ),
        TuiInput::Enter => (enter_v(a).0, finish_compose_v(enter_v(a).1)),
        _ => idle_v(a),
    }
}

/// What one input event does: to the view model, and the task it starts or
/// the error it fails with.
pub open spec fn handle_input_v(a: AppV, input: TuiInput) -> (AppV, Result<TaskV, TuiErrorV>) {
    let s = a.state;
    if s.input_mode == InputMode::Compose {
        compose_input_v(a, input)
    } else {
        match input {
            TuiInput::Tab => (
                with_state(a, TuiStateV { selected_panel: panel_next(s.selected_panel), ..s }),
                Ok(nothing_to_do()),
            ),
            TuiInput::Up => (with_state(a, move_up_v(s)), Ok(nothing_to_do())),
            TuiInput::Down => (with_state(a, move_down_v(s)), Ok(nothing_to_do())),
            TuiInput::Enter => enter_v(a),
            TuiInput::EnterCompose => if opens_composer(s.selected_panel) {
                (with_state(a, TuiStateV { input_mode: InputMode::Compose, ..s }), Ok(nothing_to_do()))
            } else {
                idle_v(a)
            },
            TuiInput::ExitCompose => idle_v(a),
            TuiInput::Char(c) => shortcut_v(a, c),
            TuiInput::Backspace => (pop_input_v(a), Ok(nothing_to_do())),
            TuiInput::Quit => (AppV { should_quit: true, ..a }, Ok(nothing_to_do())),
        }
    }
}

/// The row shown for one delivered envelope.
pub open spec fn event_row_v(entry: JsonV) -> MessageRowV {
    MessageRowV {
        id: match jstr(jget2(entry, "envelope"@, "envelope_id"@)) {
            Some(x) => x,
            None => "event"@,
        },
        sender: match jstr(jget2(entry, "envelope"@, "source_principal_id"@)) {
            Some(x) => x,
            None => "peer"@,
        },
        body: "[new encrypted message]"@,
        status: "delivered"@,
        attachments: Seq::empty(),
        receipts: Seq::empty(),
    }
}

pub open spec fn push_all_v(s: TuiStateV, ms: Seq<MessageRowV>) -> TuiStateV
    decreases ms.len(),
{
    if ms.len() == 0 {
        s
    } else {
        push_message_v(push_all_v(s, ms.drop_last()), ms.last())
    }
}

pub open spec fn event_rows_v(body: JsonV) -> Seq<MessageRowV> {
    jitems(jget(body, "entries"@)).map_values(|e: JsonV| event_row_v(e))
}

/// What one subscription event does: delivered envelopes become new
/// messages; an approval request is rendered, then recorded.
pub open spec fn bus_event_v(a: AppV, method: Seq<char>, body: JsonV) -> (AppV, TaskV) {
    if method == "gateway.deliver"@ || method == "conversation.updated"@ {
        (with_state(a, push_all_v(a.state, event_rows_v(body))), nothing_to_do())
    } else if method == "mcp.approval.request"@ {
        (a, one(StepV::Issue(
            EffectV::Render(render_job_v(seq![surface_candidate_v(body)])),
            ThenV::ApprovalEvent(body),
        )))
    } else {
        (a, nothing_to_do())
    }
}

fn copy_opt(o: &Option<String>) -> (r: Option<String>)
    ensures
        opt_view(r) == opt_view(*o),
{
    match o {
        Some(s) => Some(s.clone()),
        None => None,
    }
}

impl TuiApp {
    /// A client for one local account.
    pub fn new(account_id: String) -> (r: TuiApp)
        ensures
            r@.state == initial_state(account_id@),
            !r@.should_quit,
            r@.relay_url is None,
            r@.relay_key is None,
    {
        TuiApp {
            state: TuiState::for_account(account_id),
            should_quit: false,
            relay_url: None,
            relay_key: None,
        }
    }

    /// The view model.
    pub fn state(&self) -> (r: &TuiState)
        ensures
            r@ == self@.state,
    {
        &self.state
    }

    /// Whether the user asked to quit.
    pub fn should_quit(&self) -> (r: bool)
        ensures
            r == self@.should_quit,
    {
        self.should_quit
    }

    /// Sets the local device id used as the sender of direct messages.
    pub fn set_local_device_id(&mut self, device_id: String)
        ensures
            final(self)@ == (AppV {
                state: TuiStateV { local_device_id: Some(device_id@), ..old(self)@.state },
                ..old(self)@
            }),
    {
        self.state.local_device_id = Some(device_id);
    }

    /// Records the relay settings of the environment: the relay URL and the
    /// relay service key, each when set.
    pub fn set_relay_env(&mut self, relay_url: Option<String>, relay_key: Option<String>)
        ensures
            final(self)@ == (AppV {
                relay_url: opt_view(relay_url),
                relay_key: opt_view(relay_key),
                ..old(self)@
            }),
    {
        self.relay_url = relay_url;
        self.relay_key = relay_key;
    }

    /// The relay service key, unless it is empty.
    pub fn relay_service_key_base64(&self) -> (r: Option<String>)
        ensures
            opt_view(r) == relay_key_v(self@),
    {
        match &self.relay_key {
            Some(k) => if k.as_str().unicode_len() > 0 {
                Some(k.clone())
            } else {
                None
            },
            None => None,
        }
    }

    /// The first conversation when there is none.
    pub fn ensure_default_conversation(&mut self)
        ensures
            final(self)@ == (AppV { state: ensure_default_v(old(self)@.state), ..old(self)@ }),
    {
        if self.state.conversations.len() > 0 {
            return;
        }
        let last_message = if self.state.messages.len() > 0 {
            let n = self.state.messages.len();
            self.state.messages[n - 1].body.clone()
        } else {
            String::new()
        };
        let row = ConversationRow {
            id: DEFAULT_CONVERSATION_ID.to_owned(),
            title: "Default DM".to_owned(),
            last_message,
            unread: 0,
            status: "synced".to_owned(),
            recipient_device_id: None,
            target_delivery_id: None,
        };
        let ghost prev = self.state.conversations@;
        self.state.conversations.push(row);
        proof {
            lemma_views_push(prev, row);
            assert(views(prev) =~= Seq::<ConversationRowV>::empty());
        }
        assert(self@.state =~= ensure_default_v(old(self)@.state));
    }

    /// Appends a message; the first conversation shows it as new and unread.
    pub fn push_message(&mut self, message: MessageRow)
        ensures
            final(self)@ == (AppV { state: push_message_v(old(self)@.state, message@), ..old(self)@ }),
    {
        let body = message.body.clone();
        let ghost pm = self.state.messages@;
        self.state.messages.push(message);
        proof {
            lemma_views_push(pm, message);
        }
        if self.state.conversations.len() > 0 {
            let c = &self.state.conversations[0];
            let row = ConversationRow {
                id: c.id.clone(),
                title: c.title.clone(),
                last_message: body,
                unread: if c.unread == usize::MAX {
                    c.unread
                } else {
                    c.unread + 1
                },
                status: "new".to_owned(),
                recipient_device_id: copy_opt(&c.recipient_device_id),
                target_delivery_id: copy_opt(&c.target_delivery_id),
            };
            let ghost pc = self.state.conversations@;
            replace_at(&mut self.state.conversations, 0, row);
            proof {
                lemma_views_update(pc, 0, row);
            }
            assert(self@.state =~= push_message_v(old(self)@.state, message@));
        } else {
            self.ensure_default_conversation();
            assert(self@.state =~= push_message_v(old(self)@.state, message@));
        }
    }

    /// Replaces the message with the same id, or appends it.
    pub fn upsert_message(&mut self, message: MessageRow)
        ensures
            final(self)@ == (AppV { state: upsert_message_v(old(self)@.state, message@), ..old(self)@ }),
    {
        let ghost ms = self@.state.messages;
        assert(ms.skip(0) =~= ms);
        let mut i: usize = 0;
        while i < self.state.messages.len()
            invariant
                0 <= i <= self.state.messages.len(),
                self@ == old(self)@,
                ms == self@.state.messages,
                message_pos(ms, message@.id) == i + message_pos(ms.skip(i as int), message@.id),
            decreases self.state.messages.len() - i,
        {
            if self.state.messages[i].id == message.id {
                assert(ms.skip(i as int)[0] == ms[i as int]);
                let ghost pm = self.state.messages@;
                replace_at(&mut self.state.messages, i, message);
                proof {
                    lemma_views_update(pm, i as int, message);
                }
                assert(self@.state =~= upsert_message_v(old(self)@.state, message@));
                return;
            }
            assert(ms.skip(i as int).drop_first() =~= ms.skip(i as int + 1));
            i = i + 1;
        }
        assert(ms.skip(i as int).len() == 0);
        self.push_message(message);
    }

    /// Records the transfer of an object response.
    #[verifier::loop_isolation(false)]
    pub fn apply_transfer_response(&mut self, response: &Json)
        ensures
            final(self)@ == apply_transfer_v(old(self)@, response@),
    {
        let transfer = parse_transfer(response);
        match transfer {
            None => {},
            Some(t0) => {
                let relay_endpoint = if t0.relay_endpoint.is_some() {
                    t0.relay_endpoint
                } else {
                    copy_opt(&self.relay_url)
                };
                let relay_key = if t0.relay_service_key_base64.is_some() {
                    t0.relay_service_key_base64
                } else {
                    self.relay_service_key_base64()
                };
                let t = ObjectTransferRow {
                    object_id: t0.object_id,
                    direction: t0.direction,
                    state: t0.state,
                    done_bytes: t0.done_bytes,
                    total_bytes: t0.total_bytes,
                    percent: t0.percent,
                    last_error: t0.last_error,
                    relay_endpoint,
                    relay_service_key_base64: relay_key,
                };
                let ghost ts = self@.state.object_transfers;
                let ghost tv = t@;
                assert(ts.skip(0) =~= ts);
                let mut i: usize = 0;
                while i < self.state.object_transfers.len()
                    invariant
                        0 <= i <= self.state.object_transfers.len(),
                        self@ == old(self)@,
                        ts == self@.state.object_transfers,
                        tv == t@,
                        transfer_pos(ts, tv.object_id, tv.direction) == i + transfer_pos(
                            ts.skip(i as int),
                            tv.object_id,
                            tv.direction,
                        ),
                    decreases self.state.object_transfers.len() - i,
                {
                    let row = &self.state.object_transfers[i];
                    if row.object_id == t.object_id && row.direction == t.direction {
                        assert(ts.skip(i as int)[0] == ts[i as int]);
                        assert(transfer_pos(ts.skip(i as int), tv.object_id, tv.direction) == 0);
                        assert(transfer_v(response@) is Some);
                        let ghost pt = self.state.object_transfers@;
                        replace_at(&mut self.state.object_transfers, i, t);
                        proof {
                            lemma_views_update(pt, i as int, t);
                        }
                        assert(self@.state.object_transfers == ts.update(i as int, tv));
                        assert(self@.state =~= apply_transfer_v(old(self)@, response@).state);
                        return;
                    }
                    assert(ts.skip(i as int).drop_first() =~= ts.skip(i as int + 1));
                    i = i + 1;
                }
                assert(ts.skip(i as int).len() == 0);
                let ghost pt = self.state.object_transfers@;
                self.state.object_transfers.push(t);
                proof {
                    lemma_views_push(pt, t);
                }
                assert(self@ =~= apply_transfer_v(old(self)@, response@));
            },
        }
    }

    /// Records a safety-number response on the contact it names.
    #[verifier::loop_isolation(false)]
    pub fn apply_contact_safety_response(&mut self, response: &Json)
        ensures
            final(self)@ == (AppV {
                state: apply_contact_safety_v(old(self)@.state, response@),
                ..old(self)@
            }),
    {
        let id = match response.get("contact_identity_commitment") {
            Some(v) => match v.as_str() {
                Some(s) => s.clone(),
                None => {
                    return;
                },
            },
            None => {
                return;
            },
        };
        let ghost cs = self@.state.contacts;
        assert(cs.skip(0) =~= cs);
        let mut i: usize = 0;
        while i < self.state.contacts.len()
            invariant
                0 <= i <= self.state.contacts.len(),
                self@ == old(self)@,
                cs == self@.state.contacts,
                contact_pos(cs, id@) == i + contact_pos(cs.skip(i as int), id@),
            decreases self.state.contacts.len() - i,
        {
            let c = &self.state.contacts[i];
            if c.target == id || c.requester == id {
                assert(cs.skip(i as int)[0] == cs[i as int]);
                let safety_number = match response.get("safety_number") {
                    Some(v) => match v.as_array() {
                        Some(items) => collect_strings(items),
                        None => Vec::new(),
                    },
                    None => Vec::new(),
                };
                assert(views(safety_number@) =~= str_items(jitems(jget(response@, "safety_number"@))));
                let fingerprint_hex = match response.get("fingerprint_hex") {
                    Some(v) => match v.as_str() {
                        Some(s) => Some(s.clone()),
                        None => None,
                    },
                    None => None,
                };
                let row = ContactRow {
                    link_id: c.link_id.clone(),
                    requester: c.requester.clone(),
                    target: c.target.clone(),
                    state: c.state.clone(),
                    safety_number,
                    fingerprint_hex,
                    verification_state: string_field(response, "verification_state", "unverified"),
                };
                let ghost pc = self.state.contacts@;
                replace_at(&mut self.state.contacts, i, row);
                proof {
                    lemma_views_update(pc, i as int, row);
                }
                assert(self@.state =~= apply_contact_safety_v(old(self)@.state, response@));
                return;
            }
            assert(cs.skip(i as int).drop_first() =~= cs.skip(i as int + 1));
            i = i + 1;
        }
        assert(cs.skip(i as int).len() == 0);
    }

    /// Moves the selection of the current panel up.
    pub fn move_selection_up(&mut self)
        ensures
            final(self)@ == (AppV { state: move_up_v(old(self)@.state), ..old(self)@ }),
    {
        match self.state.selected_panel {
            Panel::Messages => {
                self.state.selected_message = if self.state.selected_message == 0 {
                    0
                } else {
                    self.state.selected_message - 1
                };
            },
            Panel::Objects => {
                self.state.selected_object_transfer = if self.state.selected_object_transfer == 0 {
                    0
                } else {
                    self.state.selected_object_transfer - 1
                };
            },
            Panel::Contacts => {
                self.state.selected_contact = if self.state.selected_contact == 0 {
                    0
                } else {
                    self.state.selected_contact - 1
                };
            },
            Panel::Groups => {
                self.state.selected_group = if self.state.selected_group == 0 {
                    0
                } else {
                    self.state.selected_group - 1
                };
            },
            Panel::Approvals => {
                self.state.selected_approval = if self.state.selected_approval == 0 {
                    0
                } else {
                    self.state.selected_approval - 1
                };
            },
            Panel::Conversations => {
                self.state.selected_conversation = if self.state.selected_conversation == 0 {
                    0
                } else {
                    self.state.selected_conversation - 1
                };
            },
        }
        assert(self@.state =~= move_up_v(old(self)@.state));
    }

    /// Moves the selection of the current panel down.
    pub fn move_selection_down(&mut self)
        ensures
            final(self)@ == (AppV { state: move_down_v(old(self)@.state), ..old(self)@ }),
    {
        let p = self.state.selected_panel;
        if p == Panel::Messages && self.state.selected_message < self.state.messages.len()
            && self.state.selected_message + 1 < self.state.messages.len() {
            self.state.selected_message = self.state.selected_message + 1;
        } else if p == Panel::Objects && self.state.selected_object_transfer
            < self.state.object_transfers.len() && self.state.selected_object_transfer + 1
            < self.state.object_transfers.len() {
            self.state.selected_object_transfer = self.state.selected_object_transfer + 1;
        } else if p == Panel::Contacts && self.state.selected_contact < self.state.contacts.len()
            && self.state.selected_contact + 1 < self.state.contacts.len() {
            self.state.selected_contact = self.state.selected_contact + 1;
        } else if p == Panel::Groups && self.state.selected_group < self.state.groups.len()
            && self.state.selected_group + 1 < self.state.groups.len() {
            self.state.selected_group = self.state.selected_group + 1;
        } else if p == Panel::Approvals && self.state.selected_approval < self.state.approvals.len()
            && self.state.selected_approval + 1 < self.state.approvals.len() {
            self.state.selected_approval = self.state.selected_approval + 1;
        } else if self.state.selected_conversation < self.state.conversations.len()
            && self.state.selected_conversation + 1 < self.state.conversations.len() {
            self.state.selected_conversation = self.state.selected_conversation + 1;
        }
        assert(self@.state =~= move_down_v(old(self)@.state));
    }
}

pub open spec fn applied_view(r: Result<(Vec<Step>, Option<Json>), TuiError>) -> AppliedV {
    match r {
        Ok((steps, out)) => AppliedV::Continue(views(steps@), opt_view(out)),
        Err(e) => AppliedV::Failed(e@),
    }
}

fn request_step_of(r: BusRequest, then: Then) -> (s: Step)
    ensures
        s@ == request_step(r@, then@),
{
    Step::Issue(Effect::Request(r), then)
}

fn one_step(st: Step) -> (r: Result<(Vec<Step>, Option<Json>), TuiError>)
    ensures
        applied_view(r) == steps_only(seq![st@]),
{
    let v = vec![st];
    assert(views(v@) =~= seq![st@]);
    Ok((v, None))
}

fn nothing() -> (r: Result<(Vec<Step>, Option<Json>), TuiError>)
    ensures
        applied_view(r) == no_steps(),
{
    let v: Vec<Step> = Vec::new();
    assert(views(v@) =~= Seq::<StepV>::empty());
    Ok((v, None))
}

fn unexpected() -> (r: Result<(Vec<Step>, Option<Json>), TuiError>)
    ensures
        applied_view(r) == AppliedV::Failed(unexpected_v()),
{
    Err(TuiError::LocalBus("unexpected outcome".to_owned()))
}

fn render_job(candidates: Vec<Option<Json>>) -> (r: RenderJob)
    ensures
        r@ == render_job_v(candidates@.map_values(|c: Option<Json>| opt_view(c))),
{
    let supported = vec!["ramflux.basic.v1".to_owned()];
    let permissions = vec![
        "mcp.approve".to_owned(),
        "mcp.deny".to_owned(),
        "message.send".to_owned(),
        "task.stop".to_owned(),
        "task.resume".to_owned(),
    ];
    let r = RenderJob { candidates, supported_catalogs: supported, permissions };
    assert(r@.supported_catalogs =~= seq!["ramflux.basic.v1"@]);
    assert(r@.permissions =~= seq!["mcp.approve"@, "mcp.deny"@, "message.send"@, "task.stop"@, "task.resume"@]);
    r
}

fn copy_message_with(m: &MessageRow, status: String, body: String) -> (r: MessageRow)
    ensures
        r@ == (MessageRowV { status: status@, body: body@, ..m@ }),
{
    let mut attachments: Vec<AttachmentRow> = Vec::new();
    let mut i: usize = 0;
    while i < m.attachments.len()
        invariant
            0 <= i <= m.attachments.len(),
            attachments.len() == i,
            forall|j: int| 0 <= j < i ==> #[trigger] attachments@[j]@ == m.attachments@[j]@,
        decreases m.attachments.len() - i,
    {
        let a = &m.attachments[i];
        attachments.push(AttachmentRow {
            message_id: a.message_id.clone(),
            object_id: a.object_id.clone(),
            status: a.status.clone(),
            plaintext_base64: copy_opt(&a.plaintext_base64),
        });
        i = i + 1;
    }
    let mut receipts: Vec<crate::state::MessageReceiptRow> = Vec::new();
    let mut k: usize = 0;
    while k < m.receipts.len()
        invariant
            0 <= k <= m.receipts.len(),
            receipts.len() == k,
            forall|j: int| 0 <= j < k ==> #[trigger] receipts@[j]@ == m.receipts@[j]@,
        decreases m.receipts.len() - k,
    {
        let rc = &m.receipts[k];
        receipts.push(crate::state::MessageReceiptRow { device_id: rc.device_id.clone(), state: rc.state.clone() });
        k = k + 1;
    }
    let r = MessageRow { id: m.id.clone(), sender: m.sender.clone(), body, status, attachments, receipts };
    assert(r@.attachments =~= m@.attachments);
    assert(r@.receipts =~= m@.receipts);
    r
}

fn copy_strings(v: &Vec<String>) -> (r: Vec<String>)
    ensures
        views(r@) == views(v@),
{
    let mut out: Vec<String> = Vec::new();
    let mut i: usize = 0;
    while i < v.len()
        invariant
            0 <= i <= v.len(),
            out.len() == i,
            forall|j: int| 0 <= j < i ==> #[trigger] out@[j]@ == v@[j]@,
        decreases v.len() - i,
    {
        out.push(v[i].clone());
        i = i + 1;
    }
    assert(views(out@) =~= views(v@));
    out
}

impl TuiApp {
    /// The id of the selected conversation, or the default one.
    pub fn selected_conversation_id(&self) -> (r: String)
        ensures
            r@ == conv_id_v(self@.state),
    {
        if self.state.selected_conversation < self.state.conversations.len() {
            self.state.conversations[self.state.selected_conversation].id.clone()
        } else {
            DEFAULT_CONVERSATION_ID.to_owned()
        }
    }

    /// The steps that load every projection.
    pub fn refresh_all_steps(&self) -> (r: Vec<Step>)
        ensures
            views(r@) == refresh_all_steps_v(self@),
    {
        let acct = &self.state.account_id;
        let conv = self.selected_conversation_id();
        let key = self.relay_service_key_base64();
        let v = vec![
            request_step_of(subscription_open(acct), Then::Ignore),
            request_step_of(message_read(acct, conv.as_str()), Then::ReadMessages),
            request_step_of(message_receive(acct, conv.as_str(), &key), Then::ReceiveMessages),
            request_step_of(list_request(acct, "contact", "contact.list"), Then::StoreContacts),
            request_step_of(list_request(acct, "device", "device.list"), Then::StoreDevices),
            request_step_of(list_request(acct, "group", "group.list"), Then::StoreGroups),
            request_step_of(list_request(acct, "mcp", "mcp.approval.list"), Then::ListApprovals),
            Step::EnsureDefaultConversation,
        ];
        assert(views(v@) =~= refresh_all_steps_v(self@));
        v
    }

    fn set_message_status(&mut self, status: String)
        ensures
            final(self)@ == with_state(old(self)@, set_message_status_v(old(self)@.state, status@)),
    {
        let i = self.state.selected_message;
        if i < self.state.messages.len() {
            let row = copy_message_with(&self.state.messages[i], status, self.state.messages[i].body.clone());
            let ghost pm = self.state.messages@;
            replace_at(&mut self.state.messages, i, row);
            proof {
                lemma_views_update(pm, i as int, row);
            }
            assert(self@.state =~= set_message_status_v(old(self)@.state, status@));
        }
    }

    fn tombstone_message(&mut self)
        ensures
            final(self)@ == with_state(old(self)@, tombstone_message_v(old(self)@.state)),
    {
        let i = self.state.selected_message;
        if i < self.state.messages.len() {
            let row = copy_message_with(&self.state.messages[i], "deleted".to_owned(), String::new());
            let ghost pm = self.state.messages@;
            replace_at(&mut self.state.messages, i, row);
            proof {
                lemma_views_update(pm, i as int, row);
            }
            assert(self@.state =~= tombstone_message_v(old(self)@.state));
        }
    }

    fn set_group_members(&mut self, response: &Json)
        ensures
            final(self)@ == with_state(old(self)@, group_members_v(old(self)@.state, response@)),
    {
        let i = self.state.selected_group;
        if i < self.state.groups.len() {
            let members = match response.get("members") {
                Some(v) => match v.as_array() {
                    Some(items) => collect_strings(items),
                    None => Vec::new(),
                },
                None => Vec::new(),
            };
            assert(views(members@) =~= str_items(jitems(jget(response@, "members"@))));
            let g = &self.state.groups[i];
            let row = GroupRow { id: g.id.clone(), members, disappearing_ttl_secs: g.disappearing_ttl_secs, mute_until: g.mute_until };
            let ghost pg = self.state.groups@;
            replace_at(&mut self.state.groups, i, row);
            proof {
                lemma_views_update(pg, i as int, row);
            }
            assert(self@.state =~= group_members_v(old(self)@.state, response@));
        }
    }

    fn set_group_ttl(&mut self, response: &Json)
        ensures
            final(self)@ == with_state(old(self)@, group_ttl_v(old(self)@.state, response@)),
    {
        let i = self.state.selected_group;
        if i < self.state.groups.len() {
            let ttl = match response.get("ttl_secs") {
                Some(v) => v.as_i64(),
                None => None,
            };
            let g = &self.state.groups[i];
            let row = GroupRow { id: g.id.clone(), members: copy_strings(&g.members), disappearing_ttl_secs: ttl, mute_until: g.mute_until };
            let ghost pg = self.state.groups@;
            replace_at(&mut self.state.groups, i, row);
            proof {
                lemma_views_update(pg, i as int, row);
            }
            assert(self@.state =~= group_ttl_v(old(self)@.state, response@));
        }
    }

    fn set_group_mute(&mut self, response: &Json)
        ensures
            final(self)@ == with_state(old(self)@, group_mute_v(old(self)@.state, response@)),
    {
        let i = self.state.selected_group;
        if i < self.state.groups.len() {
            let mute = match response.get("mute_until") {
                Some(v) => v.as_i64(),
                None => None,
            };
            let g = &self.state.groups[i];
            let row = GroupRow { id: g.id.clone(), members: copy_strings(&g.members), disappearing_ttl_secs: g.disappearing_ttl_secs, mute_until: mute };
            let ghost pg = self.state.groups@;
            replace_at(&mut self.state.groups, i, row);
            proof {
                lemma_views_update(pg, i as int, row);
            }
            assert(self@.state =~= group_mute_v(old(self)@.state, response@));
        }
    }

    /// Replaces the approval with the same id, or appends it.
    pub fn upsert_approval(&mut self, row: ApprovalRow)
        ensures
            final(self)@ == with_state(old(self)@, upsert_approval_v(old(self)@.state, row@)),
    {
        let ghost xs = self@.state.approvals;
        assert(xs.skip(0) =~= xs);
        let mut i: usize = 0;
        while i < self.state.approvals.len()
            invariant
                0 <= i <= self.state.approvals.len(),
                self@ == old(self)@,
                xs == self@.state.approvals,
                approval_pos(xs, row@.id) == i + approval_pos(xs.skip(i as int), row@.id),
            decreases self.state.approvals.len() - i,
        {
            if self.state.approvals[i].id == row.id {
                assert(xs.skip(i as int)[0] == xs[i as int]);
                let ghost pa = self.state.approvals@;
                replace_at(&mut self.state.approvals, i, row);
                proof {
                    lemma_views_update(pa, i as int, row);
                }
                assert(self@.state =~= upsert_approval_v(old(self)@.state, row@));
                return;
            }
            assert(xs.skip(i as int).drop_first() =~= xs.skip(i as int + 1));
            i = i + 1;
        }
        assert(xs.skip(i as int).len() == 0);
        let ghost pa = self.state.approvals@;
        self.state.approvals.push(row);
        proof {
            lemma_views_push(pa, row);
        }
        assert(self@.state =~= upsert_approval_v(old(self)@.state, row@));
    }

    fn upsert_all(&mut self, rows: Vec<MessageRow>)
        ensures
            final(self)@ == with_state(old(self)@, upsert_all_v(old(self)@.state, views(rows@))),
    {
        let mut rows = rows;
        let ghost all = views(rows@);
        let n = rows.len();
        let mut i: usize = 0;
        while i < n
            invariant
                0 <= i <= n,
                n == all.len(),
                views(rows@) == all.skip(i as int),
                rows.len() == n - i,
                self@ == with_state(old(self)@, upsert_all_v(old(self)@.state, all.take(i as int))),
            decreases n - i,
        {
            let ghost before = rows@;
            let row = rows.remove(0);
            assert(row@ == all[i as int]) by {
                assert(views(before)[0] == before[0]@);
                assert(views(before)[0] == all.skip(i as int)[0]);
            }
            assert(views(rows@) =~= all.skip(i as int + 1)) by {
                assert(rows@ =~= before.subrange(1, before.len() as int));
                assert forall|j: int| 0 <= j < rows@.len() implies views(rows@)[j] == all.skip(i as int + 1)[j] by {
                    assert(rows@[j] == before[j + 1]);
                    assert(views(before)[j + 1] == all.skip(i as int)[j + 1]);
                }
            }
            assert(all.take(i as int + 1).drop_last() =~= all.take(i as int));
            self.upsert_message(row);
            i = i + 1;
        }
        assert(all.take(n as int) =~= all);
    }
}

impl TuiApp {
    fn switch_to(&mut self, active: String)
        ensures
            final(self)@ == with_state(old(self)@, switched_v(old(self)@.state, active@)),
    {
        let status = cat("active account: ", active.as_str());
        self.state.account_id = active;
        self.state.selected_conversation = 0;
        self.state.selected_message = 0;
        self.state.selected_contact = 0;
        self.state.selected_group = 0;
        self.state.status_message = Some(status);
        assert(self@.state =~= switched_v(old(self)@.state, active@));
    }

    fn take_pending(&mut self) -> (r: Vec<PendingAttachment>)
        ensures
            views(r@) == old(self)@.state.pending_attachments,
            final(self)@ == with_state(old(self)@, TuiStateV { pending_attachments: Seq::empty(), ..old(self)@.state }),
    {
        let mut out: Vec<PendingAttachment> = Vec::new();
        std::mem::swap(&mut out, &mut self.state.pending_attachments);
        assert(views(self.state.pending_attachments@) =~= Seq::<PendingAttachmentV>::empty());
        assert(self@.state =~= TuiStateV { pending_attachments: Seq::empty(), ..old(self)@.state });
        out
    }

    fn sender_id(&self, status: &Json) -> (r: String)
        ensures
            r@ == sender_v(self@.state, status@),
    {
        match &self.state.local_device_id {
            Some(d) => d.clone(),
            None => match status.get("device_id") {
                Some(v) => match v.as_str() {
                    Some(d) => d.clone(),
                    None => self.state.account_id.clone(),
                },
                None => self.state.account_id.clone(),
            },
        }
    }

    fn attachment_id(&self, file_name: &Option<String>) -> (r: String)
        ensures
            r@ == attachment_id_v(self@.state, opt_view(*file_name)),
    {
        match file_name {
            Some(n) => {
                let num = u64_to_string(self.state.next_message_id);
                let mut s = cat3("attachment:", n.as_str(), ":");
                s.append(num.as_str());
                s
            },
            None => {
                let num = u64_to_string(self.state.pending_attachments.len() as u64);
                cat("attachment:", num.as_str())
            },
        }
    }

    fn queue_pending(&mut self, p: PendingAttachment)
        ensures
            final(self)@ == with_state(old(self)@, queued_v(old(self)@.state, p@)),
    {
        let ghost pp = self.state.pending_attachments@;
        self.state.pending_attachments.push(p);
        proof {
            lemma_views_push(pp, p);
        }
        let n = u64_to_string(self.state.pending_attachments.len() as u64);
        self.state.status_message = Some(cat("queued attachment count=", n.as_str()));
        assert(self@.state =~= queued_v(old(self)@.state, p@));
    }


    #[verifier::rlimit(40)]
    fn on_ignore(&mut self, _o0: Json) -> (res: Result<(Vec<Step>, Option<Json>), TuiError>)
        ensures
            (final(self)@, applied_view(res)) == apply_v(old(self)@, ThenV::Ignore, OutcomeV::Response(_o0@)),
    {
        nothing()
    }

    #[verifier::rlimit(40)]
    fn on_return_response(&mut self, r: Json) -> (res: Result<(Vec<Step>, Option<Json>), TuiError>)
        ensures
            (final(self)@, applied_view(res)) == apply_v(old(self)@, ThenV::ReturnResponse, OutcomeV::Response(r@)),
    {
        let v: Vec<Step> = Vec::new();
        assert(views(v@) =~= Seq::<StepV>::empty());
        Ok((v, Some(r)))
    }

    #[verifier::rlimit(40)]
    fn on_read_messages(&mut self, r: Json) -> (res: Result<(Vec<Step>, Option<Json>), TuiError>)
        ensures
            (final(self)@, applied_view(res)) == apply_v(old(self)@, ThenV::ReadMessages, OutcomeV::Response(r@)),
    {
        let payloads = decrypted_payloads(&r);
        one_step(Step::Issue(Effect::Decode(payloads), Then::StoreMessages(r)))
    }

    #[verifier::rlimit(40)]
    fn on_store_messages(&mut self, r: Json, d: Vec<Option<String>>) -> (res: Result<(Vec<Step>, Option<Json>), TuiError>)
        ensures
            (final(self)@, applied_view(res)) == apply_v(old(self)@, ThenV::StoreMessages(r@), OutcomeV::Decoded(opt_strings_v(d@))),
    {
        let rows = parse_messages(&r, &d);
        self.state.messages = rows;
        assert(self@.state =~= TuiStateV { messages: messages_v(r@, opt_strings_v(d@)), ..old(self)@.state });
        nothing()
    }

    #[verifier::rlimit(40)]
    fn on_receive_messages(&mut self, r: Json) -> (res: Result<(Vec<Step>, Option<Json>), TuiError>)
        ensures
            (final(self)@, applied_view(res)) == apply_v(old(self)@, ThenV::ReceiveMessages, OutcomeV::Response(r@)),
    {
        let payloads = decrypted_payloads(&r);
        one_step(Step::Issue(Effect::Decode(payloads), Then::UpsertMessages(r)))
    }

    #[verifier::rlimit(40)]
    fn on_upsert_messages(&mut self, r: Json, d: Vec<Option<String>>) -> (res: Result<(Vec<Step>, Option<Json>), TuiError>)
        ensures
            (final(self)@, applied_view(res)) == apply_v(old(self)@, ThenV::UpsertMessages(r@), OutcomeV::Decoded(opt_strings_v(d@))),
    {
        let rows = parse_decrypted_messages(&r, &d);
        self.upsert_all(rows);
        nothing()
    }

    #[verifier::rlimit(40)]
    fn on_store_contacts(&mut self, r: Json) -> (res: Result<(Vec<Step>, Option<Json>), TuiError>)
        ensures
            (final(self)@, applied_view(res)) == apply_v(old(self)@, ThenV::StoreContacts, OutcomeV::Response(r@)),
    {
        self.state.contacts = parse_contacts(&r);
        assert(self@.state =~= TuiStateV { contacts: contacts_v(r@), ..old(self)@.state });
        nothing()
    }

    #[verifier::rlimit(40)]
    fn on_store_devices(&mut self, r: Json) -> (res: Result<(Vec<Step>, Option<Json>), TuiError>)
        ensures
            (final(self)@, applied_view(res)) == apply_v(old(self)@, ThenV::StoreDevices, OutcomeV::Response(r@)),
    {
        self.state.devices = parse_devices(&r);
        assert(self@.state =~= TuiStateV { devices: devices_v(r@), ..old(self)@.state });
        nothing()
    }

    #[verifier::rlimit(40)]
    fn on_store_groups(&mut self, r: Json) -> (res: Result<(Vec<Step>, Option<Json>), TuiError>)
        ensures
            (final(self)@, applied_view(res)) == apply_v(old(self)@, ThenV::StoreGroups, OutcomeV::Response(r@)),
    {
        self.state.groups = parse_groups(&r);
        assert(self@.state =~= TuiStateV { groups: groups_v(r@), ..old(self)@.state });
        nothing()
    }

    #[verifier::rlimit(40)]
    fn on_list_approvals(&mut self, r: Json) -> (res: Result<(Vec<Step>, Option<Json>), TuiError>)
        ensures
            (final(self)@, applied_view(res)) == apply_v(old(self)@, ThenV::ListApprovals, OutcomeV::Response(r@)),
    {
        let candidates = surface_candidates(&r);
        let job = render_job(candidates);
        one_step(Step::Issue(Effect::Render(job), Then::StoreApprovals(r)))
    }

    #[verifier::rlimit(40)]
    fn on_store_approvals(&mut self, r: Json, rs: Vec<Option<(Json, Option<RenderedSurface>)>>) -> (res: Result<(Vec<Step>, Option<Json>), TuiError>)
        ensures
            (final(self)@, applied_view(res)) == apply_v(old(self)@, ThenV::StoreApprovals(r@), OutcomeV::Rendered(surface_outcomes_v(rs@))),
    {
        self.state.approvals = parse_approvals(&r, &rs);
        assert(self@.state =~= TuiStateV { approvals: approvals_v(r@, surface_outcomes_v(rs@)), ..old(self)@.state });
        nothing()
    }

    #[verifier::rlimit(40)]
    fn on_approval_event(&mut self, body: Json, rs: Vec<Option<(Json, Option<RenderedSurface>)>>) -> (res: Result<(Vec<Step>, Option<Json>), TuiError>)
        ensures
            (final(self)@, applied_view(res)) == apply_v(old(self)@, ThenV::ApprovalEvent(body@), OutcomeV::Rendered(surface_outcomes_v(rs@))),
    {
        let row = if rs.len() > 0 {
            parse_approval_row(&body, &rs[0])
        } else {
            parse_approval_row(&body, &None)
        };
        self.upsert_approval(row);
        nothing()
    }

    #[verifier::rlimit(40)]
    fn on_transfer(&mut self, r: Json) -> (res: Result<(Vec<Step>, Option<Json>), TuiError>)
        ensures
            (final(self)@, applied_view(res)) == apply_v(old(self)@, ThenV::Transfer, OutcomeV::Response(r@)),
    {
        self.apply_transfer_response(&r);
        nothing()
    }

    #[verifier::rlimit(40)]
    fn on_contact_safety(&mut self, r: Json) -> (res: Result<(Vec<Step>, Option<Json>), TuiError>)
        ensures
            (final(self)@, applied_view(res)) == apply_v(old(self)@, ThenV::ContactSafety, OutcomeV::Response(r@)),
    {
        self.apply_contact_safety_response(&r);
        nothing()
    }

    #[verifier::rlimit(40)]
    fn on_switched(&mut self, requested: String, r: Json) -> (res: Result<(Vec<Step>, Option<Json>), TuiError>)
        ensures
            (final(self)@, applied_view(res)) == apply_v(old(self)@, ThenV::Switched(requested@), OutcomeV::Response(r@)),
    {
        let active = string_field(&r, "active_account_id", requested.as_str());
        self.switch_to(active);
        let steps = self.refresh_all_steps();
        Ok((steps, None))
    }

    #[verifier::rlimit(40)]
    fn on_message_status(&mut self, t: String, _o0: Json) -> (res: Result<(Vec<Step>, Option<Json>), TuiError>)
        ensures
            (final(self)@, applied_view(res)) == apply_v(old(self)@, ThenV::MessageStatus(t@), OutcomeV::Response(_o0@)),
    {
        self.set_message_status(t);
        nothing()
    }

    #[verifier::rlimit(40)]
    fn on_group_tombstone(&mut self, _o0: Json) -> (res: Result<(Vec<Step>, Option<Json>), TuiError>)
        ensures
            (final(self)@, applied_view(res)) == apply_v(old(self)@, ThenV::GroupTombstone, OutcomeV::Response(_o0@)),
    {
        self.tombstone_message();
        nothing()
    }

    #[verifier::rlimit(40)]
    fn on_group_members(&mut self, r: Json) -> (res: Result<(Vec<Step>, Option<Json>), TuiError>)
        ensures
            (final(self)@, applied_view(res)) == apply_v(old(self)@, ThenV::GroupMembers, OutcomeV::Response(r@)),
    {
        self.set_group_members(&r);
        nothing()
    }

    #[verifier::rlimit(40)]
    fn on_group_ttl(&mut self, r: Json) -> (res: Result<(Vec<Step>, Option<Json>), TuiError>)
        ensures
            (final(self)@, applied_view(res)) == apply_v(old(self)@, ThenV::GroupTtl, OutcomeV::Response(r@)),
    {
        self.set_group_ttl(&r);
        nothing()
    }

    #[verifier::rlimit(40)]
    fn on_group_mute(&mut self, r: Json) -> (res: Result<(Vec<Step>, Option<Json>), TuiError>)
        ensures
            (final(self)@, applied_view(res)) == apply_v(old(self)@, ThenV::GroupMute, OutcomeV::Response(r@)),
    {
        self.set_group_mute(&r);
        nothing()
    }

    #[verifier::rlimit(40)]
    fn on_object_fetched(&mut self, id: String, r: Json) -> (res: Result<(Vec<Step>, Option<Json>), TuiError>)
        ensures
            (final(self)@, applied_view(res)) == apply_v(old(self)@, ThenV::ObjectFetched(id@), OutcomeV::Response(r@)),
    {
        let dir = Some("download".to_owned());
        let status_req = transfer_status(&self.state.account_id, id.as_str(), &dir);
        let first = request_step_of(status_req, Then::Transfer);
        if r.get("plaintext_base64").is_some() {
            let msg = cat("downloaded object ", id.as_str());
            let v = vec![first, Step::SetStatus(Some(msg))];
            assert(views(v@) =~= seq![first@] + seq![StepV::SetStatus(Some("downloaded object "@ + id@))]);
            Ok((v, None))
        } else {
            let v = vec![first];
            assert(views(v@) =~= seq![first@] + Seq::<StepV>::empty());
            Ok((v, None))
        }
    }

    #[verifier::rlimit(40)]
    fn on_submit_clock(&mut self, d: MessageDraft, t: i64) -> (res: Result<(Vec<Step>, Option<Json>), TuiError>)
        ensures
            (final(self)@, applied_view(res)) == apply_v(old(self)@, ThenV::SubmitClock(d@), OutcomeV::Clock(t)),
    {
        let bytes = d.body.as_str().as_bytes_vec();
        one_step(Step::Issue(Effect::Encode(bytes), Then::SubmitEncoded(d, t)))
    }

    #[verifier::rlimit(40)]
    fn on_submit_encoded(&mut self, d: MessageDraft, t: i64, e: String) -> (res: Result<(Vec<Step>, Option<Json>), TuiError>)
        ensures
            (final(self)@, applied_view(res)) == apply_v(old(self)@, ThenV::SubmitEncoded(d@, t), OutcomeV::Encoded(e@)),
    {
        let req = account_status(&self.state.account_id);
        one_step(request_step_of(req, Then::SubmitAccount(d, t, e)))
    }

    #[verifier::rlimit(40)]
    fn on_submit_account(&mut self, d: MessageDraft, t: i64, e: String, st: Json) -> (res: Result<(Vec<Step>, Option<Json>), TuiError>)
        ensures
            (final(self)@, applied_view(res)) == apply_v(old(self)@, ThenV::SubmitAccount(d@, t, e@), OutcomeV::Response(st@)),
    {
        let principal = string_field(&st, "principal_id", self.state.account_id.as_str());
        let sender = self.sender_id(&st);
        let ghost s0 = self@.state;
        let atts = self.take_pending();
        let req = message_submit(&self.state.account_id, &d, principal.as_str(), sender.as_str(), e.as_str(), t, &atts);
        let mut rows: Vec<AttachmentRow> = Vec::new();
        let mut i: usize = 0;
        while i < atts.len()
            invariant
                0 <= i <= atts.len(),
                rows.len() == i,
                forall|j: int| 0 <= j < i ==> #[trigger] rows@[j]@ == sent_attachment_v(d@.envelope_id, atts@[j]@),
            decreases atts.len() - i,
        {
            rows.push(AttachmentRow {
                message_id: d.envelope_id.clone(),
                object_id: atts[i].object_id.clone(),
                status: "uploading".to_owned(),
                plaintext_base64: None,
            });
            i = i + 1;
        }
        let row = MessageRow {
            id: d.message_id.clone(),
            sender: "me".to_owned(),
            body: d.body.clone(),
            status: "sending".to_owned(),
            attachments: rows,
            receipts: Vec::new(),
        };
        assert(row@ =~= sent_row_v(d@, views(atts@))) by {
            assert(row@.attachments =~= views(atts@).map_values(|p: PendingAttachmentV| sent_attachment_v(d@.envelope_id, p)));
            assert(row@.receipts =~= Seq::<crate::state::MessageReceiptRowV>::empty());
        }
        one_step(request_step_of(req, Then::Submitted(row)))
    }

    #[verifier::rlimit(40)]
    fn on_submitted(&mut self, row: MessageRow, _o0: Json) -> (res: Result<(Vec<Step>, Option<Json>), TuiError>)
        ensures
            (final(self)@, applied_view(res)) == apply_v(old(self)@, ThenV::Submitted(row@), OutcomeV::Response(_o0@)),
    {
        self.push_message(row);
        nothing()
    }

    #[verifier::rlimit(40)]
    fn on_attach_file(&mut self, bytes: Vec<u8>, name: Option<String>) -> (res: Result<(Vec<Step>, Option<Json>), TuiError>)
        ensures
            (final(self)@, applied_view(res)) == apply_v(old(self)@, ThenV::AttachFile, OutcomeV::FileRead(bytes@, opt_view(name))),
    {
        match &self.relay_url {
            Some(url) => {
                let id = self.attachment_id(&name);
                let key = self.relay_service_key_base64();
                one_step(Step::Issue(Effect::Encode(bytes), Then::QueueAttachment(id, url.clone(), key)))
            },
            None => Err(TuiError::LocalBus("missing RAMFLUX_TUI_RELAY_URL for relay object transfer".to_owned())),
        }
    }

    #[verifier::rlimit(40)]
    fn on_queue_attachment(&mut self, id: String, url: String, key: Option<String>, e: String) -> (res: Result<(Vec<Step>, Option<Json>), TuiError>)
        ensures
            (final(self)@, applied_view(res)) == apply_v(old(self)@, ThenV::QueueAttachment(id@, url@, opt_view(key)), OutcomeV::Encoded(e@)),
    {
        self.queue_pending(PendingAttachment {
            object_id: id,
            plaintext_base64: e,
            chunk_size: 65536,
            relay_endpoint: url,
            relay_service_key_base64: key,
        });
        nothing()
    }

    #[verifier::rlimit(40)]
    fn on_put_file(&mut self, id: String, bytes: Vec<u8>, _o1: Option<String>) -> (res: Result<(Vec<Step>, Option<Json>), TuiError>)
        ensures
            (final(self)@, applied_view(res)) == apply_v(old(self)@, ThenV::PutFile(id@), OutcomeV::FileRead(bytes@, opt_view(_o1))),
    {
        one_step(Step::Issue(Effect::Encode(bytes), Then::PutEncoded(id)))
    }

    #[verifier::rlimit(40)]
    fn on_put_encoded(&mut self, id: String, e: String) -> (res: Result<(Vec<Step>, Option<Json>), TuiError>)
        ensures
            (final(self)@, applied_view(res)) == apply_v(old(self)@, ThenV::PutEncoded(id@), OutcomeV::Encoded(e@)),
    {
        let key = self.relay_service_key_base64();
        let req = object_put(&self.state.account_id, id.as_str(), e.as_str(), &self.relay_url, &key);
        one_step(request_step_of(req, Then::Transfer))
    }

    /// Applies the outcome of a step's effect to what the step waited for.
    pub fn apply(&mut self, then: Then, outcome: Outcome) -> (res: Result<(Vec<Step>, Option<Json>), TuiError>)
        ensures
            (final(self)@, applied_view(res)) == apply_v(old(self)@, then@, outcome@),
    {
        match (then, outcome) {
            (Then::Ignore, Outcome::Response(_o0)) => self.on_ignore(_o0),
            (Then::ReturnResponse, Outcome::Response(r)) => self.on_return_response(r),
            (Then::ReadMessages, Outcome::Response(r)) => self.on_read_messages(r),
            (Then::StoreMessages(r), Outcome::Decoded(d)) => self.on_store_messages(r, d),
            (Then::ReceiveMessages, Outcome::Response(r)) => self.on_receive_messages(r),
            (Then::UpsertMessages(r), Outcome::Decoded(d)) => self.on_upsert_messages(r, d),
            (Then::StoreContacts, Outcome::Response(r)) => self.on_store_contacts(r),
            (Then::StoreDevices, Outcome::Response(r)) => self.on_store_devices(r),
            (Then::StoreGroups, Outcome::Response(r)) => self.on_store_groups(r),
            (Then::ListApprovals, Outcome::Response(r)) => self.on_list_approvals(r),
            (Then::StoreApprovals(r), Outcome::Rendered(rs)) => self.on_store_approvals(r, rs),
            (Then::ApprovalEvent(body), Outcome::Rendered(rs)) => self.on_approval_event(body, rs),
            (Then::Transfer, Outcome::Response(r)) => self.on_transfer(r),
            (Then::ContactSafety, Outcome::Response(r)) => self.on_contact_safety(r),
            (Then::Switched(requested), Outcome::Response(r)) => self.on_switched(requested, r),
            (Then::MessageStatus(t), Outcome::Response(_o0)) => self.on_message_status(t, _o0),
            (Then::GroupTombstone, Outcome::Response(_o0)) => self.on_group_tombstone(_o0),
            (Then::GroupMembers, Outcome::Response(r)) => self.on_group_members(r),
            (Then::GroupTtl, Outcome::Response(r)) => self.on_group_ttl(r),
            (Then::GroupMute, Outcome::Response(r)) => self.on_group_mute(r),
            (Then::ObjectFetched(id), Outcome::Response(r)) => self.on_object_fetched(id, r),
            (Then::SubmitClock(d), Outcome::Clock(t)) => self.on_submit_clock(d, t),
            (Then::SubmitEncoded(d, t), Outcome::Encoded(e)) => self.on_submit_encoded(d, t, e),
            (Then::SubmitAccount(d, t, e), Outcome::Response(st)) => self.on_submit_account(d, t, e, st),
            (Then::Submitted(row), Outcome::Response(_o0)) => self.on_submitted(row, _o0),
            (Then::AttachFile, Outcome::FileRead(bytes, name)) => self.on_attach_file(bytes, name),
            (Then::QueueAttachment(id, url, key), Outcome::Encoded(e)) => self.on_queue_attachment(id, url, key, e),
            (Then::PutFile(id), Outcome::FileRead(bytes, _o1)) => self.on_put_file(id, bytes, _o1),
            (Then::PutEncoded(id), Outcome::Encoded(e)) => self.on_put_encoded(id, e),
            _ => unexpected(),
        }
    }
}

impl TuiApp {
    fn run_local(&mut self, step: Step)
        ensures
            final(self)@ == local_v(old(self)@, step@),
    {
        match step {
            Step::SetStatus(m) => {
                self.state.status_message = m;
                assert(self@.state =~= TuiStateV { status_message: opt_view(m), ..old(self)@.state });
            },
            Step::EnsureDefaultConversation => {
                self.ensure_default_conversation();
            },
            Step::FinishCompose => {
                self.state.input_mode = InputMode::Normal;
                assert(self@.state =~= TuiStateV { input_mode: InputMode::Normal, ..old(self)@.state });
            },
            Step::Issue(_, _) => {},
        }
    }

    fn run(&mut self, task: &mut Task) -> (r: Effect)
        ensures
            (final(self)@, final(task)@, r@) == run_v(old(self)@, old(task)@),
    {
        while task.steps.len() > 0
            invariant
                run_v(self@, task@) == run_v(old(self)@, old(task)@),
            decreases task.steps.len(),
        {
            let ghost t0 = task@;
            let ghost a0 = self@;
            let step = task.steps.remove(0);
            assert(views(task.steps@) =~= t0.steps.drop_first());
            assert(step@ == t0.steps[0]);
            match step {
                Step::Issue(e, th) => {
                    task.waiting = Some(th);
                    assert(task@ =~= TaskV { steps: t0.steps.drop_first(), waiting: Some(th@), ..t0 });
                    return e;
                },
                other => {
                    self.run_local(other);
                    assert(task@ =~= TaskV { steps: t0.steps.drop_first(), ..t0 });
                },
            }
        }
        let ghost t0 = task@;
        let out = task.output.take();
        assert(task@ =~= TaskV { output: None, ..t0 });
        Effect::Done(out)
    }

    /// One move of an operation: applies the outcome of the last effect, then
    /// takes steps until one needs outside work, which it returns, or the
    /// operation ends.
    pub fn advance(&mut self, task: &mut Task, outcome: Outcome) -> (r: Effect)
        ensures
            (final(self)@, final(task)@, r@) == advance_v(old(self)@, old(task)@, outcome@),
    {
        let ghost t0 = task@;
        let outcome = match outcome {
            Outcome::Failed(e) => {
                task.steps = Vec::new();
                task.waiting = None;
                assert(views(task.steps@) =~= Seq::<StepV>::empty());
                assert(task@ =~= TaskV { steps: Seq::empty(), waiting: None, ..t0 });
                return Effect::Fail(e);
            },
            other => other,
        };
        let waiting = task.waiting.take();
        match waiting {
            Some(then) => {
                match self.apply(then, outcome) {
                    Ok((steps, out)) => {
                        let mut steps = steps;
                        let ghost sv = views(steps@);
                        let mut rest: Vec<Step> = Vec::new();
                        std::mem::swap(&mut rest, &mut task.steps);
                        let ghost rv = views(rest@);
                        steps.append(&mut rest);
                        task.steps = steps;
                        assert(views(task.steps@) =~= sv + rv);
                        if out.is_some() {
                            task.output = out;
                        }
                        assert(task@ =~= TaskV {
                            steps: sv + t0.steps,
                            waiting: None,
                            output: if opt_view(out) is Some { opt_view(out) } else { t0.output },
                        });
                    },
                    Err(e) => {
                        task.steps = Vec::new();
                        assert(views(task.steps@) =~= Seq::<StepV>::empty());
                        assert(task@ =~= TaskV { steps: Seq::empty(), waiting: None, ..t0 });
                        return Effect::Fail(e);
                    },
                }
            },
            None => {},
        }
        self.run(task)
    }
}

fn single(st: Step) -> (t: Task)
    ensures
        t@ == one(st@),
{
    let v = vec![st];
    assert(views(v@) =~= seq![st@]);
    Task::of(v)
}

impl TuiApp {
    /// Loads every projection from the daemon.
    pub fn refresh_all(&self) -> (t: Task)
        ensures
            t@ == task_of(refresh_all_steps_v(self@)),
    {
        Task::of(self.refresh_all_steps())
    }

    /// Opens the subscriptions used for live refresh.
    pub fn open_subscription(&self) -> (t: Task)
        ensures
            t@ == one(request_step(subscription_open_v(self@.state.account_id), ThenV::Ignore)),
    {
        single(request_step_of(subscription_open(&self.state.account_id), Then::Ignore))
    }

    /// Receives gateway messages, fetching and decrypting attachments with the
    /// relay key of the environment.
    pub fn receive_messages_with_attachments(&self) -> (t: Task)
        ensures
            t@ == one(request_step(
                message_receive_v(self@.state.account_id, conv_id_v(self@.state), relay_key_v(self@)),
                ThenV::ReceiveMessages,
            )),
    {
        self.receive_messages_with_attachment_relay_key(self.relay_service_key_base64())
    }

    /// Receives gateway messages, fetching and decrypting attachments with an
    /// explicit relay key.
    pub fn receive_messages_with_attachment_relay_key(&self, relay_service_key_base64: Option<String>) -> (t: Task)
        ensures
            t@ == one(request_step(
                message_receive_v(self@.state.account_id, conv_id_v(self@.state), opt_view(relay_service_key_base64)),
                ThenV::ReceiveMessages,
            )),
    {
        let conv = self.selected_conversation_id();
        single(request_step_of(
            message_receive(&self.state.account_id, conv.as_str(), &relay_service_key_base64),
            Then::ReceiveMessages,
        ))
    }

    /// Refreshes the devices of the account.
    pub fn refresh_devices(&self) -> (t: Task)
        ensures
            t@ == one(refresh_devices_v(self@)),
    {
        single(request_step_of(list_request(&self.state.account_id, "device", "device.list"), Then::StoreDevices))
    }

    /// Activates a restored device, then refreshes the devices.
    pub fn activate_device(&self, device_id: &str, target_delivery_id: &str, device_seed: [u8; 32], device_epoch: Option<u64>) -> (t: Task)
        ensures
            t@ == task_of(seq![
                request_step(
                    device_activate_v(self@.state.account_id, device_id@, target_delivery_id@, device_seed@, device_epoch),
                    ThenV::Ignore,
                ),
                refresh_devices_v(self@),
            ]),
    {
        let a = request_step_of(
            device_activate(&self.state.account_id, device_id, target_delivery_id, &device_seed, device_epoch),
            Then::Ignore,
        );
        let b = request_step_of(list_request(&self.state.account_id, "device", "device.list"), Then::StoreDevices);
        let v = vec![a, b];
        assert(views(v@) =~= seq![a@, b@]);
        Task::of(v)
    }

    /// Revokes a device, then refreshes the devices.
    pub fn revoke_device(&self, device_id: &str) -> (t: Task)
        ensures
            t@ == task_of(seq![
                request_step(device_revoke_v(self@.state.account_id, device_id@), ThenV::Ignore),
                refresh_devices_v(self@),
            ]),
    {
        let a = request_step_of(device_revoke(&self.state.account_id, device_id), Then::Ignore);
        let b = request_step_of(list_request(&self.state.account_id, "device", "device.list"), Then::StoreDevices);
        let v = vec![a, b];
        assert(views(v@) =~= seq![a@, b@]);
        Task::of(v)
    }

    /// Exports an own-device history sync snapshot; the task's result is the
    /// daemon's response.
    pub fn export_device_sync(&self, target_device_id: &str, relay_endpoint: &str, relay_service_key_base64: Option<String>) -> (t: Task)
        ensures
            t@ == one(request_step(
                sync_export_v(self@.state.account_id, target_device_id@, relay_endpoint@, opt_view(relay_service_key_base64)),
                ThenV::ReturnResponse,
            )),
    {
        single(request_step_of(
            sync_export(&self.state.account_id, target_device_id, relay_endpoint, &relay_service_key_base64),
            Then::ReturnResponse,
        ))
    }

    /// Imports an own-device history sync envelope; the task's result is the
    /// daemon's response.
    pub fn import_device_sync(&self, envelope: Json, relay_service_key_base64: Option<String>) -> (t: Task)
        ensures
            t@ == one(request_step(
                sync_import_v(self@.state.account_id, envelope@, opt_view(relay_service_key_base64)),
                ThenV::ReturnResponse,
            )),
    {
        single(request_step_of(
            sync_import(&self.state.account_id, envelope, &relay_service_key_base64),
            Then::ReturnResponse,
        ))
    }

    /// Queues `plaintext` for the next direct message, with the relay
    /// settings of the environment: the task encodes it as base64url text,
    /// then queues it. Fails, queueing nothing, when the relay URL is not set.
    pub fn queue_attachment_bytes(&self, object_id: String, plaintext: Vec<u8>) -> (r: Result<Task, TuiError>)
        ensures
            match self@.relay_url {
                Some(url) => r is Ok && r->Ok_0@ == one(StepV::Issue(
                    EffectV::Encode(plaintext@),
                    ThenV::QueueAttachment(object_id@, url, relay_key_v(self@)),
                )),
                None => r is Err && r->Err_0@ == missing_relay_v(),
            },
    {
        match &self.relay_url {
            Some(url) => {
                let key = self.relay_service_key_base64();
                Ok(self.queue_attachment_bytes_for_relay(object_id, plaintext, url.clone(), key))
            },
            None => Err(TuiError::LocalBus("missing RAMFLUX_TUI_RELAY_URL for relay object transfer".to_owned())),
        }
    }
}


impl TuiApp {
    /// Queues `plaintext` for the next direct message, with explicit relay
    /// settings: the task encodes it as base64url text, then queues it.
    pub fn queue_attachment_bytes_for_relay(
        &self,
        object_id: String,
        plaintext: Vec<u8>,
        relay_endpoint: String,
        relay_service_key_base64: Option<String>,
    ) -> (t: Task)
        ensures
            t@ == one(StepV::Issue(
                EffectV::Encode(plaintext@),
                ThenV::QueueAttachment(object_id@, relay_endpoint@, opt_view(relay_service_key_base64)),
            )),
    {
        single(Step::Issue(
            Effect::Encode(plaintext),
            Then::QueueAttachment(object_id, relay_endpoint, relay_service_key_base64),
        ))
    }

    /// Queues the file at `path` for the next direct message: the task reads
    /// it, then queues it with the relay settings of the environment.
    pub fn queue_attachment_path(&self, path: &str) -> (t: Task)
        ensures
            t@ == one(StepV::Issue(EffectV::ReadFile(path@), ThenV::AttachFile)),
    {
        single(Step::Issue(Effect::ReadFile(path.to_owned()), Then::AttachFile))
    }

    /// Uploads the file at `path` as object `object_id`.
    pub fn put_object_path(&self, object_id: &str, path: &str) -> (t: Task)
        ensures
            t@ == one(StepV::Issue(EffectV::ReadFile(path@), ThenV::PutFile(object_id@))),
    {
        single(Step::Issue(Effect::ReadFile(path.to_owned()), Then::PutFile(object_id.to_owned())))
    }

    /// Downloads object `object_id`, then refreshes its download status; the
    /// status line reports a download that returned the object's bytes.
    pub fn get_object(&self, object_id: &str) -> (t: Task)
        ensures
            t@ == one(request_step(
                object_get_v(self@.state.account_id, object_id@, self@.relay_url, relay_key_v(self@)),
                ThenV::ObjectFetched(object_id@),
            )),
    {
        let key = self.relay_service_key_base64();
        single(request_step_of(
            object_get(&self.state.account_id, object_id, &self.relay_url, &key),
            Then::ObjectFetched(object_id.to_owned()),
        ))
    }

    /// Refreshes the status of the transfer of `object_id`, in `direction`
    /// when one is given.
    pub fn refresh_object_status(&self, object_id: &str, direction: Option<String>) -> (t: Task)
        ensures
            t@ == one(object_status_v(self@, object_id@, opt_view(direction))),
    {
        single(request_step_of(
            transfer_status(&self.state.account_id, object_id, &direction),
            Then::Transfer,
        ))
    }

    /// Refreshes the status of the selected transfer.
    pub fn refresh_selected_transfer_status(&self) -> (t: Task)
        ensures
            t@ == refresh_selected_transfer_v(self@),
    {
        let i = self.state.selected_object_transfer;
        if i < self.state.object_transfers.len() {
            let row = &self.state.object_transfers[i];
            let dir = Some(row.direction.clone());
            self.refresh_object_status(row.object_id.as_str(), dir)
        } else {
            Task::empty()
        }
    }

    /// Resumes the selected transfer with the relay settings it was recorded
    /// with. Fails when it has no relay endpoint.
    pub fn resume_selected_transfer(&self) -> (r: Result<Task, TuiError>)
        ensures
            match resume_selected_v(self@) {
                Ok(t) => r is Ok && r->Ok_0@ == t,
                Err(e) => r is Err && r->Err_0@ == e,
            },
    {
        let i = self.state.selected_object_transfer;
        if i < self.state.object_transfers.len() {
            let row = &self.state.object_transfers[i];
            match &row.relay_endpoint {
                Some(ep) => Ok(single(request_step_of(
                    transfer_resume(
                        &self.state.account_id,
                        row.object_id.as_str(),
                        row.direction.as_str(),
                        ep.as_str(),
                        &row.relay_service_key_base64,
                    ),
                    Then::Transfer,
                ))),
                None => Err(TuiError::LocalBus("selected transfer is missing relay endpoint".to_owned())),
            }
        } else {
            Ok(Task::empty())
        }
    }

    /// Resumes the transfer of `object_id` in `direction` with the relay
    /// settings of the environment. Fails when the relay URL is not set.
    pub fn resume_transfer(&self, object_id: &str, direction: &str) -> (r: Result<Task, TuiError>)
        ensures
            match resume_transfer_v(self@, object_id@, direction@) {
                Ok(t) => r is Ok && r->Ok_0@ == t,
                Err(e) => r is Err && r->Err_0@ == e,
            },
    {
        match &self.relay_url {
            Some(url) => {
                let key = self.relay_service_key_base64();
                Ok(single(request_step_of(
                    transfer_resume(&self.state.account_id, object_id, direction, url.as_str(), &key),
                    Then::Transfer,
                )))
            },
            None => Err(TuiError::LocalBus("missing RAMFLUX_TUI_RELAY_URL for relay object transfer".to_owned())),
        }
    }
}


impl TuiApp {
    fn contact_request(&self, method: &str) -> (t: Task)
        ensures
            t@ == contact_request_v(self@, method@),
    {
        let i = self.state.selected_contact;
        if i < self.state.contacts.len() {
            single(request_step_of(
                contact_commitment(&self.state.account_id, method, self.state.contacts[i].target.as_str()),
                Then::ContactSafety,
            ))
        } else {
            Task::empty()
        }
    }

    /// Loads the safety number of the selected contact.
    pub fn refresh_selected_contact_safety(&self) -> (t: Task)
        ensures
            t@ == contact_request_v(self@, "contact.safety_number"@),
    {
        self.contact_request("contact.safety_number")
    }

    /// Marks the selected contact verified, once its safety number was
    /// compared out of band.
    pub fn verify_selected_contact(&self) -> (t: Task)
        ensures
            t@ == contact_request_v(self@, "contact.verify"@),
    {
        self.contact_request("contact.verify")
    }

    fn contact_link_task(&self, method: &str, done: &str, link_id: &str, requester_id: &str, target_id: &str) -> (t: Task)
        ensures
            t@ == task_of(contact_link_steps_v(self@, method@, done@, link_id@, requester_id@, target_id@)),
    {
        let a = request_step_of(
            contact_link(&self.state.account_id, method, link_id, requester_id, target_id),
            Then::Ignore,
        );
        let b = request_step_of(list_request(&self.state.account_id, "contact", "contact.list"), Then::StoreContacts);
        let c = Step::SetStatus(Some(cat(done, link_id)));
        let v = vec![a, b, c];
        assert(views(v@) =~= contact_link_steps_v(self@, method@, done@, link_id@, requester_id@, target_id@));
        Task::of(v)
    }

    /// Adds a trusted contact by principal commitments, then refreshes the
    /// contacts; the status line reports the link added.
    pub fn add_contact(&self, link_id: &str, requester_id: &str, target_id: &str) -> (t: Task)
        ensures
            t@ == task_of(contact_link_steps_v(self@, "contact.add"@, "contact added: "@, link_id@, requester_id@, target_id@)),
    {
        self.contact_link_task("contact.add", "contact added: ", link_id, requester_id, target_id)
    }

    /// Accepts a contact request by principal commitments, then refreshes the
    /// contacts; the status line reports the link accepted.
    pub fn accept_contact(&self, link_id: &str, requester_id: &str, target_id: &str) -> (t: Task)
        ensures
            t@ == task_of(contact_link_steps_v(self@, "contact.accept"@, "contact accepted: "@, link_id@, requester_id@, target_id@)),
    {
        self.contact_link_task("contact.accept", "contact accepted: ", link_id, requester_id, target_id)
    }

    /// Switches the active account, made as the requested account; the
    /// account the daemon reports active then becomes the client's, the
    /// selections go back to the top and every projection is reloaded.
    pub fn switch_account(&self, account_id: &str) -> (t: Task)
        ensures
            t@ == one(request_step(account_switch_v(account_id@), ThenV::Switched(account_id@))),
    {
        single(request_step_of(account_switch(account_id), Then::Switched(account_id.to_owned())))
    }

    fn reader_id(&self) -> (r: String)
        ensures
            r@ == reader_v(self@.state),
    {
        match &self.state.local_device_id {
            Some(d) => d.clone(),
            None => self.state.account_id.clone(),
        }
    }

    fn recipient(&self) -> (r: (Option<String>, Option<String>))
        ensures
            opt_view(r.0) == recipient_v(self@.state),
            opt_view(r.1) == target_v(self@.state),
    {
        let i = self.state.selected_conversation;
        if i < self.state.conversations.len() {
            let c = &self.state.conversations[i];
            (copy_opt(&c.recipient_device_id), copy_opt(&c.target_delivery_id))
        } else {
            (None, None)
        }
    }

    /// Deletes the selected message; once the daemon answers, its row shows
    /// it deleted.
    pub fn delete_selected_message(&self) -> (t: Task)
        ensures
            t@ == message_action_v(self@, 0),
    {
        let i = self.state.selected_message;
        if i < self.state.messages.len() {
            let conv = self.selected_conversation_id();
            single(request_step_of(
                message_delete(&self.state.account_id, conv.as_str(), self.state.messages[i].id.as_str()),
                Then::MessageStatus("deleted".to_owned()),
            ))
        } else {
            Task::empty()
        }
    }

    /// Sends a delivery receipt for the selected message; once the daemon
    /// answers, its row shows it delivered.
    pub fn mark_selected_message_delivered(&self) -> (t: Task)
        ensures
            t@ == message_action_v(self@, 1),
    {
        let i = self.state.selected_message;
        if i < self.state.messages.len() {
            let conv = self.selected_conversation_id();
            let (recipient, target) = self.recipient();
            let reader = self.reader_id();
            single(request_step_of(
                receipt_delivered(
                    &self.state.account_id,
                    conv.as_str(),
                    self.state.messages[i].id.as_str(),
                    reader.as_str(),
                    &recipient,
                    &target,
                ),
                Then::MessageStatus("delivered".to_owned()),
            ))
        } else {
            Task::empty()
        }
    }

    /// Sends a read receipt for the selected message; once the daemon
    /// answers, its row shows it read.
    pub fn mark_selected_message_read(&self) -> (t: Task)
        ensures
            t@ == message_action_v(self@, 2),
    {
        let i = self.state.selected_message;
        if i < self.state.messages.len() {
            let conv = self.selected_conversation_id();
            let (recipient, target) = self.recipient();
            let reader = self.reader_id();
            single(request_step_of(
                receipt_read(
                    &self.state.account_id,
                    conv.as_str(),
                    self.state.messages[i].id.as_str(),
                    reader.as_str(),
                    &recipient,
                    &target,
                ),
                Then::MessageStatus("read".to_owned()),
            ))
        } else {
            Task::empty()
        }
    }
}


impl TuiApp {
    /// Removes `member_id` from the selected group, by `actor_id`; the
    /// group's members become those the daemon reports.
    pub fn remove_group_member(&self, member_id: &str, actor_id: &str) -> (t: Task)
        ensures
            t@ == group_task_v(self@, |g: Seq<char>| request_step(
                group_member_v(self@.state.account_id, "group.member.remove"@, g, actor_id@, member_id@),
                ThenV::GroupMembers,
            )),
    {
        self.group_member_control("group.member.remove", member_id, actor_id)
    }

    /// Kicks `member_id` from the selected group through a signed control
    /// event; the group's members become those the daemon reports.
    pub fn kick_group_member(&self, member_id: &str, actor_id: &str) -> (t: Task)
        ensures
            t@ == group_task_v(self@, |g: Seq<char>| request_step(
                group_member_v(self@.state.account_id, "group.member.kick"@, g, actor_id@, member_id@),
                ThenV::GroupMembers,
            )),
    {
        self.group_member_control("group.member.kick", member_id, actor_id)
    }

    /// Bans `member_id` from the selected group through a signed control
    /// event; the group's members become those the daemon reports.
    pub fn ban_group_member(&self, member_id: &str, actor_id: &str) -> (t: Task)
        ensures
            t@ == group_task_v(self@, |g: Seq<char>| request_step(
                group_member_v(self@.state.account_id, "group.member.ban"@, g, actor_id@, member_id@),
                ThenV::GroupMembers,
            )),
    {
        self.group_member_control("group.member.ban", member_id, actor_id)
    }

    fn group_member_control(&self, method: &str, member_id: &str, actor_id: &str) -> (t: Task)
        ensures
            t@ == group_task_v(self@, |g: Seq<char>| request_step(
                group_member_v(self@.state.account_id, method@, g, actor_id@, member_id@),
                ThenV::GroupMembers,
            )),
    {
        let i = self.state.selected_group;
        if i < self.state.groups.len() {
            single(request_step_of(
                group_member(&self.state.account_id, method, self.state.groups[i].id.as_str(), actor_id, member_id),
                Then::GroupMembers,
            ))
        } else {
            Task::empty()
        }
    }

    /// Invites a device to the selected group, as a member, through a signed
    /// control event.
    pub fn invite_group_member(
        &self,
        actor_id: &str,
        invitee_id: &str,
        invitee_signing_public_key: &str,
        target_delivery_id: &str,
        expires_at: i64,
    ) -> (t: Task)
        ensures
            t@ == group_task_v(self@, |g: Seq<char>| request_step(
                group_invite_v(
                    self@.state.account_id,
                    g,
                    actor_id@,
                    invitee_id@,
                    invitee_signing_public_key@,
                    target_delivery_id@,
                    expires_at,
                ),
                ThenV::Ignore,
            )),
    {
        let i = self.state.selected_group;
        if i < self.state.groups.len() {
            single(request_step_of(
                group_invite(
                    &self.state.account_id,
                    self.state.groups[i].id.as_str(),
                    actor_id,
                    invitee_id,
                    invitee_signing_public_key,
                    target_delivery_id,
                    expires_at,
                ),
                Then::Ignore,
            ))
        } else {
            Task::empty()
        }
    }

    /// Accepts a pending invite to the selected group; the group's members
    /// become those the daemon reports.
    pub fn accept_group_invite(&self, actor_id: &str, invite_id: &str, target_delivery_id: Option<String>) -> (t: Task)
        ensures
            t@ == group_task_v(self@, |g: Seq<char>| request_step(
                group_invite_accept_v(self@.state.account_id, g, actor_id@, invite_id@, opt_view(target_delivery_id)),
                ThenV::GroupMembers,
            )),
    {
        let i = self.state.selected_group;
        if i < self.state.groups.len() {
            single(request_step_of(
                group_invite_accept(&self.state.account_id, self.state.groups[i].id.as_str(), actor_id, invite_id, &target_delivery_id),
                Then::GroupMembers,
            ))
        } else {
            Task::empty()
        }
    }

    /// Sets the role of `member_id` in the selected group; the group's
    /// members become those the daemon reports.
    pub fn set_group_member_role(&self, member_id: &str, actor_id: &str, role: &str) -> (t: Task)
        ensures
            t@ == group_task_v(self@, |g: Seq<char>| request_step(
                group_role_v(self@.state.account_id, g, actor_id@, member_id@, role@),
                ThenV::GroupMembers,
            )),
    {
        let i = self.state.selected_group;
        if i < self.state.groups.len() {
            single(request_step_of(
                group_role(&self.state.account_id, self.state.groups[i].id.as_str(), actor_id, member_id, role),
                Then::GroupMembers,
            ))
        } else {
            Task::empty()
        }
    }

    /// Tombstones the selected message in the selected group; once the
    /// daemon answers, the row shows it deleted with its body cleared.
    pub fn delete_selected_group_message(&self, actor_id: &str) -> (t: Task)
        ensures
            t@ == group_message_delete_task_v(self@, actor_id@),
    {
        let g = self.state.selected_group;
        let m = self.state.selected_message;
        if g < self.state.groups.len() && m < self.state.messages.len() {
            single(request_step_of(
                group_message_delete(
                    &self.state.account_id,
                    self.state.groups[g].id.as_str(),
                    actor_id,
                    self.state.messages[m].id.as_str(),
                ),
                Then::GroupTombstone,
            ))
        } else {
            Task::empty()
        }
    }

    /// Sets the disappearing-message time of the selected group's
    /// conversation; the group shows the time the daemon reports.
    pub fn set_selected_group_disappearing(&self, ttl_secs: i64) -> (t: Task)
        ensures
            t@ == group_task_v(self@, |g: Seq<char>| request_step(
                disappearing_set_v(self@.state.account_id, g, ttl_secs),
                ThenV::GroupTtl,
            )),
    {
        let i = self.state.selected_group;
        if i < self.state.groups.len() {
            single(request_step_of(
                disappearing_set(&self.state.account_id, self.state.groups[i].id.as_str(), ttl_secs),
                Then::GroupTtl,
            ))
        } else {
            Task::empty()
        }
    }

    fn set_selected_group_mute(&self, mute_until: Option<i64>, unmute: bool) -> (t: Task)
        ensures
            t@ == group_task_v(self@, |g: Seq<char>| request_step(
                conversation_mute_v(self@.state.account_id, g, mute_until, unmute),
                ThenV::GroupMute,
            )),
    {
        let i = self.state.selected_group;
        if i < self.state.groups.len() {
            single(request_step_of(
                conversation_mute(&self.state.account_id, self.state.groups[i].id.as_str(), mute_until, unmute),
                Then::GroupMute,
            ))
        } else {
            Task::empty()
        }
    }

    /// Mutes the selected group's conversation until `mute_until`; the group
    /// shows the mute time the daemon reports.
    pub fn mute_selected_group(&self, mute_until: i64) -> (t: Task)
        ensures
            t@ == group_task_v(self@, |g: Seq<char>| request_step(
                conversation_mute_v(self@.state.account_id, g, Some(mute_until), false),
                ThenV::GroupMute,
            )),
    {
        self.set_selected_group_mute(Some(mute_until), false)
    }

    /// Unmutes the selected group's conversation; the group shows the mute
    /// time the daemon reports.
    pub fn unmute_selected_group(&self) -> (t: Task)
        ensures
            t@ == group_task_v(self@, |g: Seq<char>| request_step(
                conversation_mute_v(self@.state.account_id, g, None, true),
                ThenV::GroupMute,
            )),
    {
        self.set_selected_group_mute(None, true)
    }
}


/// The action that answers an approval's surface from this terminal.
fn a2ui_steps(acct: &String, ap: &ApprovalRow) -> (r: Vec<Step>)
    ensures
        views(r@) == a2ui_steps_v(acct@, ap@),
{
    let empty: Vec<Step> = Vec::new();
    assert(views(empty@) =~= Seq::<StepV>::empty());
    match (&ap.surface, &ap.rendered_surface) {
        (Some(surface), Some(rendered)) => {
            let found = match surface.get("components") {
                Some(c) => match c.as_array() {
                    Some(items) => first_actionable_component(items),
                    None => {
                        assert(jitems(jget(surface@, "components"@)) =~= Seq::<JsonV>::empty());
                        None
                    },
                },
                None => None,
            };
            match found {
                Some((cid, perm)) => {
                    let surface_id = string_field(surface, "surface_id", "");
                    let req = a2ui_action(
                        acct,
                        surface.copy(),
                        surface_id.as_str(),
                        rendered.surface_hash.as_str(),
                        cid.as_str(),
                        perm.as_str(),
                        ap.id.as_str(),
                    );
                    let v = vec![request_step_of(req, Then::Ignore)];
                    assert(views(v@) =~= a2ui_steps_v(acct@, ap@));
                    v
                },
                None => empty,
            }
        },
        _ => empty,
    }
}

impl TuiApp {
    /// Approves (`grant.approve`) or denies (`grant.deny`) the selected
    /// approval, then refreshes the approvals. Approving first answers the
    /// approval's surface, when it has an actionable one. An approval
    /// confirmed on the remote App is not approved here: the status line says
    /// so and no request is made.
    pub fn decide_selected_approval(&mut self, method: &str) -> (t: Task)
        ensures
            (final(self)@, t@) == decide_v(old(self)@, method@),
    {
        let i = self.state.selected_approval;
        if i >= self.state.approvals.len() {
            return Task::empty();
        }
        let approve = str_eq(method, "grant.approve");
        if approve && str_eq(self.state.approvals[i].confirmation_mode.as_str(), "remote_app") {
            self.state.status_message = Some("该审批需 App 端签名授权(remote_app)".to_owned());
            assert(self@.state =~= TuiStateV { status_message: Some(remote_app_notice_v()), ..old(self)@.state });
            return Task::empty();
        }
        let mut steps = if approve {
            a2ui_steps(&self.state.account_id, &self.state.approvals[i])
        } else {
            let e: Vec<Step> = Vec::new();
            assert(views(e@) =~= Seq::<StepV>::empty());
            e
        };
        let ghost first = views(steps@);
        let g = request_step_of(grant(&self.state.account_id, method, self.state.approvals[i].id.as_str()), Then::Ignore);
        let r = request_step_of(list_request(&self.state.account_id, "mcp", "mcp.approval.list"), Then::ListApprovals);
        let ghost (gv, rv) = (g@, r@);
        let ghost p0 = steps@;
        steps.push(g);
        steps.push(Step::SetStatus(None));
        steps.push(r);
        assert(views(steps@) =~= first + seq![gv, StepV::SetStatus(None), rv]) by {
            assert(steps@ =~= p0 + seq![g, Step::SetStatus(None), r]);
        }
        Task::of(steps)
    }
}


pub open spec fn task_result_v(r: Result<Task, TuiError>) -> Result<TaskV, TuiErrorV> {
    match r {
        Ok(t) => Ok(t@),
        Err(e) => Err(e@),
    }
}

impl TuiApp {
    fn take_input(&mut self) -> (r: String)
        ensures
            r@ == old(self)@.state.input,
            final(self)@ == take_input_v(old(self)@),
    {
        let mut taken = String::new();
        std::mem::swap(&mut taken, &mut self.state.input);
        assert(self@.state =~= take_input_v(old(self)@).state);
        taken
    }

    /// Enter on the message panel: sends the input line as a direct message,
    /// or, for `/attach <path>`, queues the file at the path.
    pub fn submit_current_message(&mut self) -> (t: Task)
        ensures
            (final(self)@, t@) == submit_v(old(self)@),
    {
        if self.state.selected_panel != Panel::Messages || self.state.input.as_str().unicode_len() == 0 {
            return Task::empty();
        }
        let body = self.take_input();
        match strip_prefix(body.as_str(), "/attach ") {
            Some(rest) => {
                let path = trim(rest.as_str());
                return single(Step::Issue(Effect::ReadFile(path), Then::AttachFile));
            },
            None => {},
        }
        let n = self.state.next_message_id;
        let num = u64_to_string(n);
        let message_id = cat("tui_msg_", num.as_str());
        let envelope_id = cat("tui_env_", num.as_str());
        let conversation_id = self.selected_conversation_id();
        let (recipient_device_id, target) = self.recipient();
        let target_delivery_id = match target {
            Some(t) => t,
            None => DEFAULT_TARGET_DELIVERY_ID.to_owned(),
        };
        self.state.next_message_id = if n == u64::MAX {
            n
        } else {
            n + 1
        };
        let d = MessageDraft {
            body,
            message_id,
            envelope_id,
            conversation_id,
            recipient_device_id,
            target_delivery_id,
        };
        assert(d@ == draft_v(old(self)@.state, old(self)@.state.input, n));
        assert(self@ =~= submit_v(old(self)@).0);
        single(Step::Issue(Effect::Clock, Then::SubmitClock(d)))
    }

    /// Enter on the object panel: runs the object command on the input line.
    pub fn submit_object_command(&mut self) -> (r: Result<Task, TuiError>)
        ensures
            final(self)@ == object_command_v(old(self)@).0,
            task_result_v(r) == object_command_v(old(self)@).1,
    {
        let cmd = self.take_input();
        let w = split_whitespace(cmd.as_str());
        let ghost wv = w@.map_values(|x: String| x@);
        assert(wv == words(cmd@));
        if w.len() == 3 && str_eq(w[0].as_str(), "put") {
            assert(wv[0] == w@[0]@ && wv[1] == w@[1]@ && wv[2] == w@[2]@);
            Ok(self.put_object_path(w[2].as_str(), w[1].as_str()))
        } else if w.len() == 3 && str_eq(w[0].as_str(), "get") {
            assert(wv[0] == w@[0]@ && wv[1] == w@[1]@);
            Ok(self.get_object(w[1].as_str()))
        } else if w.len() == 2 && str_eq(w[0].as_str(), "status") {
            assert(wv[0] == w@[0]@ && wv[1] == w@[1]@);
            Ok(self.refresh_object_status(w[1].as_str(), None))
        } else if w.len() == 3 && str_eq(w[0].as_str(), "status") {
            assert(wv[0] == w@[0]@ && wv[1] == w@[1]@ && wv[2] == w@[2]@);
            Ok(self.refresh_object_status(w[1].as_str(), Some(w[2].clone())))
        } else if w.len() == 3 && str_eq(w[0].as_str(), "resume") {
            assert(wv[0] == w@[0]@ && wv[1] == w@[1]@ && wv[2] == w@[2]@);
            self.resume_transfer(w[1].as_str(), w[2].as_str())
        } else {
            proof {
                if w.len() > 0 {
                    assert(wv[0] == w@[0]@);
                }
            }
            self.state.status_message = Some("object command: put <path> <object_id> | get <object_id> <out> | status <object_id> [direction] | resume <object_id> <direction>".to_owned());
            assert(self@.state =~= object_command_v(old(self)@).0.state);
            Ok(Task::empty())
        }
    }

    fn link_command(&self, w: &Vec<String>, command: &str, method: &str, done: &str) -> (r: Result<Task, TuiError>)
        ensures
            task_result_v(r) == link_command_v(self@, w@.map_values(|x: String| x@), command@, method@, done@),
    {
        let ghost wv = w@.map_values(|x: String| x@);
        if w.len() < 2 {
            let m = cat3("missing ", command, " link_id");
            assert(m@ =~= "missing "@ + (command@ + " link_id"@));
            Err(TuiError::LocalBus(m))
        } else if w.len() < 3 {
            let m = cat3("missing ", command, " requester commitment");
            assert(m@ =~= "missing "@ + (command@ + " requester commitment"@));
            Err(TuiError::LocalBus(m))
        } else if w.len() < 4 {
            let m = cat3("missing ", command, " target commitment");
            assert(m@ =~= "missing "@ + (command@ + " target commitment"@));
            Err(TuiError::LocalBus(m))
        } else if w.len() > 4 {
            let mut m = cat3("unexpected ", command, " argument: ");
            m.append(w[4].as_str());
            assert(wv[4] == w@[4]@);
            Err(TuiError::LocalBus(m))
        } else {
            assert(wv[1] == w@[1]@ && wv[2] == w@[2]@ && wv[3] == w@[3]@);
            Ok(self.contact_link_task(method, done, w[1].as_str(), w[2].as_str(), w[3].as_str()))
        }
    }

    /// Enter on the contacts panel: runs the contact or account command on
    /// the input line.
    pub fn submit_contact_command(&mut self) -> (r: Result<Task, TuiError>)
        ensures
            final(self)@ == contact_command_v(old(self)@).0,
            task_result_v(r) == contact_command_v(old(self)@).1,
    {
        let cmd = self.take_input();
        let w = split_whitespace(cmd.as_str());
        let ghost wv = w@.map_values(|x: String| x@);
        assert(wv == words(cmd@));
        if w.len() == 0 {
            return Ok(Task::empty());
        }
        assert(wv[0] == w@[0]@);
        if str_eq(w[0].as_str(), "add") {
            self.link_command(&w, "contact add", "contact.add", "contact added: ")
        } else if str_eq(w[0].as_str(), "accept") {
            self.link_command(&w, "contact accept", "contact.accept", "contact accepted: ")
        } else if str_eq(w[0].as_str(), "switch") {
            if w.len() < 2 {
                Err(TuiError::LocalBus(cat("missing ", "account switch account_id")))
            } else if w.len() > 2 {
                let mut m = cat3("unexpected ", "account switch", " argument: ");
                m.append(w[2].as_str());
                assert(wv[2] == w@[2]@);
                Err(TuiError::LocalBus(m))
            } else {
                assert(wv[1] == w@[1]@);
                Ok(self.switch_account(w[1].as_str()))
            }
        } else {
            Err(TuiError::LocalBus(cat("unknown contacts command: ", w[0].as_str())))
        }
    }
}


fn with_finish(r: Result<Task, TuiError>) -> (out: Result<Task, TuiError>)
    ensures
        task_result_v(out) == finish_compose_v(task_result_v(r)),
{
    match r {
        Ok(t) => {
            let mut t = t;
            let ghost before = t@;
            let ghost ps = t.steps@;
            t.steps.push(Step::FinishCompose);
            proof {
                lemma_views_push(ps, Step::FinishCompose);
            }
            assert(t@ =~= TaskV { steps: before.steps.push(StepV::FinishCompose), ..before });
            Ok(t)
        },
        Err(e) => Err(e),
    }
}

impl TuiApp {
    fn push_input(&mut self, c: char)
        ensures
            final(self)@ == push_input_v(old(self)@, c),
    {
        push_char(&mut self.state.input, c);
        assert(self@.state =~= push_input_v(old(self)@, c).state);
    }

    fn pop_input(&mut self)
        ensures
            final(self)@ == pop_input_v(old(self)@),
    {
        pop_char(&mut self.state.input);
        assert(self@.state =~= pop_input_v(old(self)@).state);
    }

    fn enter(&mut self) -> (r: Result<Task, TuiError>)
        ensures
            (final(self)@, task_result_v(r)) == enter_v(old(self)@),
    {
        if self.state.selected_panel == Panel::Objects {
            self.submit_object_command()
        } else if self.state.selected_panel == Panel::Contacts {
            self.submit_contact_command()
        } else {
            Ok(self.submit_current_message())
        }
    }

    #[verifier::rlimit(40)]
    fn shortcut(&mut self, c: char) -> (r: Result<Task, TuiError>)
        ensures
            (final(self)@, task_result_v(r)) == shortcut_v(old(self)@, c),
    {
        let p = self.state.selected_panel;
        if p == Panel::Approvals && c == 'a' {
            Ok(self.decide_selected_approval("grant.approve"))
        } else if p == Panel::Approvals && c == 'd' {
            Ok(self.decide_selected_approval("grant.deny"))
        } else if p == Panel::Objects && c == 'r' {
            self.resume_selected_transfer()
        } else if p == Panel::Objects && c == 's' {
            Ok(self.refresh_selected_transfer_status())
        } else if p == Panel::Contacts && c == 'S' {
            Ok(self.refresh_selected_contact_safety())
        } else if p == Panel::Contacts && c == 'V' {
            Ok(self.verify_selected_contact())
        } else if p == Panel::Messages && c == 'x' {
            Ok(self.delete_selected_message())
        } else if p == Panel::Messages && c == 'l' {
            Ok(self.mark_selected_message_delivered())
        } else if p == Panel::Messages && c == 'r' {
            Ok(self.mark_selected_message_read())
        } else if p == Panel::Groups && c == 'm' {
            Ok(self.mute_selected_group(9223372036854775807i64))
        } else if p == Panel::Groups && c == 'u' {
            Ok(self.unmute_selected_group())
        } else if p == Panel::Groups && c == 'e' {
            Ok(self.set_selected_group_disappearing(3600))
        } else if p == Panel::Messages || p == Panel::Objects || p == Panel::Contacts {
            self.push_input(c);
            Ok(Task::empty())
        } else {
            Ok(Task::empty())
        }
    }

    fn compose_input(&mut self, input: TuiInput) -> (r: Result<Task, TuiError>)
        requires
            old(self)@.state.input_mode == InputMode::Compose,
        ensures
            (final(self)@, task_result_v(r)) == compose_input_v(old(self)@, input),
    {
        match input {
            TuiInput::Char(c) => {
                self.push_input(c);
                Ok(Task::empty())
            },
            TuiInput::EnterCompose => {
                self.push_input('i');
                Ok(Task::empty())
            },
            TuiInput::Quit => {
                self.push_input('q');
                Ok(Task::empty())
            },
            TuiInput::Backspace => {
                self.pop_input();
                Ok(Task::empty())
            },
            TuiInput::ExitCompose => {
                self.state.input_mode = InputMode::Normal;
                assert(self@.state =~= TuiStateV { input_mode: InputMode::Normal, ..old(self)@.state });
                Ok(Task::empty())
            },
            TuiInput::Enter => with_finish(self.enter()),
            _ => Ok(Task::empty()),
        }
    }

    /// Handles one input event: changes the view model and hands back the
    /// task the input starts, or the error it fails with.
    pub fn handle_input(&mut self, input: TuiInput) -> (r: Result<Task, TuiError>)
        ensures
            (final(self)@, task_result_v(r)) == handle_input_v(old(self)@, input),
    {
        if self.state.input_mode == InputMode::Compose {
            return self.compose_input(input);
        }
        match input {
            TuiInput::Tab => {
                self.state.selected_panel = self.state.selected_panel.next();
                assert(self@.state =~= TuiStateV { selected_panel: panel_next(old(self)@.state.selected_panel), ..old(self)@.state });
                Ok(Task::empty())
            },
            TuiInput::Up => {
                self.move_selection_up();
                Ok(Task::empty())
            },
            TuiInput::Down => {
                self.move_selection_down();
                Ok(Task::empty())
            },
            TuiInput::Enter => self.enter(),
            TuiInput::EnterCompose => {
                let p = self.state.selected_panel;
                if p == Panel::Messages || p == Panel::Objects {
                    self.state.input_mode = InputMode::Compose;
                    assert(self@.state =~= TuiStateV { input_mode: InputMode::Compose, ..old(self)@.state });
                }
                Ok(Task::empty())
            },
            TuiInput::ExitCompose => Ok(Task::empty()),
            TuiInput::Char(c) => self.shortcut(c),
            TuiInput::Backspace => {
                self.pop_input();
                Ok(Task::empty())
            },
            TuiInput::Quit => {
                self.should_quit = true;
                Ok(Task::empty())
            },
        }
    }

    /// Shows an input's failure on the status line.
    pub fn record_input_error(&mut self, message: &str)
        ensures
            final(self)@ == with_state(old(self)@, TuiStateV {
                status_message: Some("error: "@ + message@),
                ..old(self)@.state
            }),
    {
        self.state.status_message = Some(cat("error: ", message));
        assert(self@.state =~= TuiStateV { status_message: Some("error: "@ + message@), ..old(self)@.state });
    }

    /// Applies one subscription event, of bus method `method`, to the view
    /// model, and hands back the task it starts.
    pub fn handle_bus_event(&mut self, method: &str, body: &Json) -> (t: Task)
        ensures
            (final(self)@, t@) == bus_event_v(old(self)@, method@, body@),
    {
        if str_eq(method, "gateway.deliver") || str_eq(method, "conversation.updated") {
            let ghost rows = event_rows_v(body@);
            match body.get("entries") {
                Some(v) => match v.as_array() {
                    Some(items) => {
                        let mut i: usize = 0;
                        while i < items.len()
                            invariant
                                0 <= i <= items.len(),
                                rows == items@.map_values(|x: Json| x@).map_values(|e: JsonV| event_row_v(e)),
                                self@ == with_state(old(self)@, push_all_v(old(self)@.state, rows.take(i as int))),
                            decreases items.len() - i,
                        {
                            let entry = &items[i];
                            let id = match entry.get2("envelope", "envelope_id") {
                                Some(x) => match x.as_str() {
                                    Some(t) => t.clone(),
                                    None => "event".to_owned(),
                                },
                                None => "event".to_owned(),
                            };
                            let sender = match entry.get2("envelope", "source_principal_id") {
                                Some(x) => match x.as_str() {
                                    Some(t) => t.clone(),
                                    None => "peer".to_owned(),
                                },
                                None => "peer".to_owned(),
                            };
                            let row = MessageRow {
                                id,
                                sender,
                                body: "[new encrypted message]".to_owned(),
                                status: "delivered".to_owned(),
                                attachments: Vec::new(),
                                receipts: Vec::new(),
                            };
                            assert(row@ =~= rows[i as int]) by {
                                assert(row@.attachments =~= Seq::<AttachmentRowV>::empty());
                                assert(row@.receipts =~= Seq::<crate::state::MessageReceiptRowV>::empty());
                            }
                            assert(rows.take(i as int + 1).drop_last() =~= rows.take(i as int));
                            self.push_message(row);
                            i = i + 1;
                        }
                        assert(rows.take(items.len() as int) =~= rows);
                    },
                    None => {
                        assert(rows =~= Seq::<MessageRowV>::empty());
                        assert(self@.state =~= push_all_v(old(self)@.state, rows));
                    },
                },
                None => {
                    assert(rows =~= Seq::<MessageRowV>::empty());
                    assert(self@.state =~= push_all_v(old(self)@.state, rows));
                },
            }
            Task::empty()
        } else if str_eq(method, "mcp.approval.request") {
            let candidates = vec![surface_candidate(body)];
            assert(candidates@.map_values(|c: Option<Json>| opt_view(c)) =~= seq![surface_candidate_v(body@)]);
            let job = render_job(candidates);
            single(Step::Issue(Effect::Render(job), Then::ApprovalEvent(body.copy())))
        } else {
            Task::empty()
        }
    }
}


impl Default for TuiApp {
    /// A client for the default account.
    fn default() -> (r: TuiApp)
        ensures
            r@.state == initial_state(DEFAULT_ACCOUNT_ID@),
            !r@.should_quit,
            r@.relay_url is None,
            r@.relay_key is None,
    {
        TuiApp::new(DEFAULT_ACCOUNT_ID.to_owned())
    }
}

} // verus!
