//! What holds of the client across inputs, events and daemon responses.

use vstd::prelude::*;
use crate::state::{Panel, panel_next, panel_index, TuiStateV, InputMode, TuiInput, MessageRowV};
use crate::state::{ApprovalRowV, ObjectTransferRowV};
use crate::json::JsonV;
use crate::parsing::transfer_v;
use crate::task::{TaskV, StepV};
use crate::text::{dec, digit_char};
use crate::app::{
    AppV, handle_input_v, push_input_v, pop_input_v, nothing_to_do, move_up_v, move_down_v,
    ensure_default_v, push_message_v, message_pos, upsert_message_v, push_all_v, approval_pos,
    upsert_approval_v, transfer_pos, apply_transfer_v, decide_v, remote_app_notice_v, submit_v,
    draft_v, apply_v, switched_v, refresh_all_steps_v, enter_v, finish_compose_v, local_v,
    run_v, advance_v, AppliedV, object_command_v, contact_command_v, link_command_v, shortcut_v,
    compose_input_v, a2ui_steps_v, one, bus_event_v, render_job_v, with_state, sent_row_v,
    sender_v, request_step, saturating_inc_u64,
};
use crate::parsing::{approval_v, surface_at, surface_candidate_v, decrypted_messages_v, decrypted_payloads_v};
use crate::state::{RenderedSurfaceV, AttachmentRowV, PendingAttachmentV, DEFAULT_CONVERSATION_ID, DEFAULT_TARGET_DELIVERY_ID};
use crate::requests::{message_submit_v, account_status_v, js, pending_list_v, message_receive_v};
use crate::bus::opt_text_v;
use crate::bus::{uint_v, int_v};
use crate::json::{jget, jstr};
use crate::text::strip_prefix_spec;
use crate::task::{ThenV, OutcomeV, EffectV, TuiErrorV};
use crate::json::sfield;
use crate::render::{
    marker, conversation_lines_v, message_lines_v, object_lines_v, contact_lines_v, group_lines_v,
    approval_lines_v,
};

verus! {

/// Tab moves to the next panel in tab order, and six presses come back to
/// the panel they started from.
pub proof fn law_tab_cycles(p: Panel)
    ensures
        panel_index(panel_next(p)) == (panel_index(p) + 1) % 6,
        panel_next(panel_next(panel_next(panel_next(panel_next(panel_next(p)))))) == p,
{
}

/// The character an input types into the composer.
pub open spec fn typed_char(input: TuiInput) -> char {
    match input {
        TuiInput::Char(c) => c,
        TuiInput::Quit => 'q',
        _ => 'i',
    }
}

/// In the composer every character is text, `q` and `i` included: it goes
/// to the end of the input line, the composer stays open, nothing is sent
/// and the client does not quit.
pub proof fn law_compose_types_text(a: AppV, input: TuiInput)
    requires
        a.state.input_mode == InputMode::Compose,
        input is Char || input is Quit || input is EnterCompose,
    ensures
        handle_input_v(a, input).0 == push_input_v(a, typed_char(input)),
        handle_input_v(a, input).0.state.input_mode == InputMode::Compose,
        handle_input_v(a, input).0.should_quit == a.should_quit,
        handle_input_v(a, input).1 == Ok::<_, crate::task::TuiErrorV>(nothing_to_do()),
{
}

/// Backspace erases the character typed last.
pub proof fn law_backspace_undoes_typing(a: AppV, c: char)
    ensures
        pop_input_v(push_input_v(a, c)) == a,
{
    assert(a.state.input.push(c).drop_last() =~= a.state.input);
    assert(pop_input_v(push_input_v(a, c)).state =~= a.state);
}

/// In the composer, typing a character and erasing it gives back the state
/// the client had.
pub proof fn law_compose_type_then_erase(a: AppV, c: char)
    requires
        a.state.input_mode == InputMode::Compose,
    ensures
        handle_input_v(handle_input_v(a, TuiInput::Char(c)).0, TuiInput::Backspace).0 == a,
{
    law_backspace_undoes_typing(a, c);
}

/// Only Quit outside the composer asks the client to quit; no other input
/// does, whether what it starts succeeds or fails.
pub proof fn law_only_quit_quits(a: AppV, input: TuiInput)
    ensures
        handle_input_v(a, input).0.should_quit == (a.should_quit || (a.state.input_mode
            == InputMode::Normal && input == TuiInput::Quit)),
{
}

/// Whether the selection of the current panel can move down one row.
pub open spec fn can_move_down(s: TuiStateV) -> bool {
    match s.selected_panel {
        Panel::Messages => s.selected_message + 1 < s.messages.len(),
        Panel::Objects => s.selected_object_transfer + 1 < s.object_transfers.len(),
        Panel::Contacts => s.selected_contact + 1 < s.contacts.len(),
        Panel::Groups => s.selected_group + 1 < s.groups.len(),
        Panel::Approvals => s.selected_approval + 1 < s.approvals.len(),
        Panel::Conversations => s.selected_conversation + 1 < s.conversations.len(),
    }
}

/// Whether every list of the view model has a length a `Vec` can have.
pub open spec fn lists_fit(s: TuiStateV) -> bool {
    &&& s.conversations.len() <= usize::MAX
    &&& s.messages.len() <= usize::MAX
    &&& s.object_transfers.len() <= usize::MAX
    &&& s.contacts.len() <= usize::MAX
    &&& s.groups.len() <= usize::MAX
    &&& s.approvals.len() <= usize::MAX
}

/// Down then Up comes back to the row it started from, when there was a row
/// below.
pub proof fn law_down_then_up(s: TuiStateV)
    requires
        lists_fit(s),
        can_move_down(s),
    ensures
        move_up_v(move_down_v(s)) == s,
{
    let d = move_down_v(s);
    match s.selected_panel {
        Panel::Messages => assert(d == TuiStateV { selected_message: (s.selected_message + 1) as usize, ..s }),
        Panel::Objects => assert(d == TuiStateV {
            selected_object_transfer: (s.selected_object_transfer + 1) as usize,
            ..s
        }),
        Panel::Contacts => assert(d == TuiStateV { selected_contact: (s.selected_contact + 1) as usize, ..s }),
        Panel::Groups => assert(d == TuiStateV { selected_group: (s.selected_group + 1) as usize, ..s }),
        Panel::Approvals => assert(d == TuiStateV { selected_approval: (s.selected_approval + 1) as usize, ..s }),
        Panel::Conversations => assert(d == TuiStateV {
            selected_conversation: (s.selected_conversation + 1) as usize,
            ..s
        }),
    }
}

/// Up on the first row stays there, and Down on the last row of a panel
/// moves no selection of that panel.
pub proof fn law_selection_stops_at_ends(s: TuiStateV)
    ensures
        s.selected_panel == Panel::Messages && s.selected_message == 0 ==> move_up_v(s) == s,
        s.selected_panel == Panel::Messages && s.selected_message + 1 >= s.messages.len() ==> move_down_v(
            s,
        ).selected_message == s.selected_message,
        s.selected_panel == Panel::Conversations && s.selected_conversation == 0 ==> move_up_v(s) == s,
        s.selected_panel == Panel::Conversations && s.selected_conversation + 1
            >= s.conversations.len() ==> move_down_v(s) == s,
{
}

/// After a default conversation is made sure of there is a conversation to
/// send to, and making sure again changes nothing.
pub proof fn law_default_conversation(s: TuiStateV)
    ensures
        ensure_default_v(s).conversations.len() > 0,
        ensure_default_v(ensure_default_v(s)) == ensure_default_v(s),
        s.conversations.len() > 0 ==> ensure_default_v(s) == s,
{
}

/// A new message is appended to the messages, and the first conversation
/// shows it as its last message.
pub proof fn law_push_message(s: TuiStateV, m: MessageRowV)
    ensures
        push_message_v(s, m).messages == s.messages.push(m),
        push_message_v(s, m).conversations.len() > 0,
        push_message_v(s, m).conversations[0].last_message == m.body,
        s.conversations.len() > 0 && s.conversations[0].unread < usize::MAX ==> push_message_v(
            s,
            m,
        ).conversations[0].unread == s.conversations[0].unread + 1,
{
}

proof fn lemma_message_pos(ms: Seq<MessageRowV>, id: Seq<char>)
    ensures
        message_pos(ms, id) <= ms.len(),
        forall|j: int| 0 <= j < message_pos(ms, id) ==> ms[j].id != id,
        message_pos(ms, id) < ms.len() ==> ms[message_pos(ms, id) as int].id == id,
    decreases ms.len(),
{
    if ms.len() > 0 && ms[0].id != id {
        lemma_message_pos(ms.drop_first(), id);
        assert forall|j: int| 0 <= j < message_pos(ms, id) implies ms[j].id != id by {
            if j > 0 {
                assert(ms[j] == ms.drop_first()[j - 1]);
            }
        }
    }
}

proof fn lemma_message_pos_unique(ms: Seq<MessageRowV>, id: Seq<char>, k: int)
    requires
        0 <= k <= ms.len(),
        forall|j: int| 0 <= j < k ==> ms[j].id != id,
        k < ms.len() ==> ms[k].id == id,
    ensures
        message_pos(ms, id) == k,
    decreases ms.len(),
{
    if ms.len() > 0 && k > 0 {
        assert(ms[0].id != id);
        assert forall|j: int| 0 <= j < k - 1 implies ms.drop_first()[j].id != id by {
            assert(ms.drop_first()[j] == ms[j + 1]);
        }
        lemma_message_pos_unique(ms.drop_first(), id, k - 1);
    }
}

/// Receiving the same message twice leaves what receiving it once does: a
/// message is listed once, by id.
pub proof fn law_upsert_message_idempotent(s: TuiStateV, m: MessageRowV)
    ensures
        upsert_message_v(upsert_message_v(s, m), m) == upsert_message_v(s, m),
{
    let ms = s.messages;
    let k = message_pos(ms, m.id);
    lemma_message_pos(ms, m.id);
    let s1 = upsert_message_v(s, m);
    if k < ms.len() {
        let ms1 = ms.update(k as int, m);
        assert forall|j: int| 0 <= j < k implies ms1[j].id != m.id by {
            assert(ms1[j] == ms[j]);
        }
        lemma_message_pos_unique(ms1, m.id, k as int);
        assert(ms1.update(k as int, m) =~= ms1);
        assert(upsert_message_v(s1, m).messages =~= s1.messages);
    } else {
        law_push_message(s, m);
        let ms1 = ms.push(m);
        assert forall|j: int| 0 <= j < ms.len() implies ms1[j].id != m.id by {
            assert(ms1[j] == ms[j]);
        }
        lemma_message_pos_unique(ms1, m.id, ms.len() as int);
        assert(s1.messages == ms1);
        assert(ms1.update(ms.len() as int, m) =~= ms1);
        assert(upsert_message_v(s1, m).messages =~= s1.messages);
    }
}

/// Upserting a message keeps every other message, and never shortens the
/// list: it replaces the message with its id, or appends it.
pub proof fn law_upsert_message_keeps_others(s: TuiStateV, m: MessageRowV)
    ensures
        upsert_message_v(s, m).messages.len() >= s.messages.len(),
        upsert_message_v(s, m).messages.contains(m),
        forall|j: int|
            0 <= j < s.messages.len() && s.messages[j].id != m.id ==> upsert_message_v(s, m).messages[j]
                == s.messages[j],
{
    lemma_message_pos(s.messages, m.id);
    let k = message_pos(s.messages, m.id);
    if k < s.messages.len() {
        assert(upsert_message_v(s, m).messages[k as int] == m);
    } else {
        assert(upsert_message_v(s, m).messages[s.messages.len() as int] == m);
    }
}

/// Each delivered envelope becomes one new message, in the order delivered.
pub proof fn law_delivered_messages_appended(s: TuiStateV, ms: Seq<MessageRowV>)
    ensures
        push_all_v(s, ms).messages == s.messages + ms,
    decreases ms.len(),
{
    if ms.len() == 0 {
        assert(s.messages + ms =~= s.messages);
    } else {
        law_delivered_messages_appended(s, ms.drop_last());
        assert(s.messages + ms =~= (s.messages + ms.drop_last()).push(ms.last()));
    }
}


proof fn lemma_approval_pos(xs: Seq<ApprovalRowV>, id: Seq<char>)
    ensures
        approval_pos(xs, id) <= xs.len(),
        forall|j: int| 0 <= j < approval_pos(xs, id) ==> xs[j].id != id,
        approval_pos(xs, id) < xs.len() ==> xs[approval_pos(xs, id) as int].id == id,
    decreases xs.len(),
{
    if xs.len() > 0 && xs[0].id != id {
        lemma_approval_pos(xs.drop_first(), id);
        assert forall|j: int| 0 <= j < approval_pos(xs, id) implies xs[j].id != id by {
            if j > 0 {
                assert(xs[j] == xs.drop_first()[j - 1]);
            }
        }
    }
}

proof fn lemma_approval_pos_unique(xs: Seq<ApprovalRowV>, id: Seq<char>, k: int)
    requires
        0 <= k <= xs.len(),
        forall|j: int| 0 <= j < k ==> xs[j].id != id,
        k < xs.len() ==> xs[k].id == id,
    ensures
        approval_pos(xs, id) == k,
    decreases xs.len(),
{
    if xs.len() > 0 && k > 0 {
        assert(xs[0].id != id);
        assert forall|j: int| 0 <= j < k - 1 implies xs.drop_first()[j].id != id by {
            assert(xs.drop_first()[j] == xs[j + 1]);
        }
        lemma_approval_pos_unique(xs.drop_first(), id, k - 1);
    }
}

/// Whether no two approvals share an id.
pub open spec fn approval_ids_unique(xs: Seq<ApprovalRowV>) -> bool {
    forall|i: int, j: int| 0 <= i < j < xs.len() ==> xs[i].id != xs[j].id
}

/// An approval request for an approval already listed replaces it, so that
/// approvals stay listed once by id, and the same request twice leaves what
/// it leaves once.
pub proof fn law_approval_request_replaces(s: TuiStateV, row: ApprovalRowV)
    ensures
        upsert_approval_v(upsert_approval_v(s, row), row) == upsert_approval_v(s, row),
        upsert_approval_v(s, row).approvals.contains(row),
        approval_ids_unique(s.approvals) ==> approval_ids_unique(upsert_approval_v(s, row).approvals),
{
    let xs = s.approvals;
    let k = approval_pos(xs, row.id);
    lemma_approval_pos(xs, row.id);
    let s1 = upsert_approval_v(s, row);
    let xs1 = s1.approvals;
    if k < xs.len() {
        assert(xs1 == xs.update(k as int, row));
        assert forall|j: int| 0 <= j < k implies xs1[j].id != row.id by {
            assert(xs1[j] == xs[j]);
        }
        lemma_approval_pos_unique(xs1, row.id, k as int);
        assert(xs1.update(k as int, row) =~= xs1);
        assert(xs1[k as int] == row);
        if approval_ids_unique(xs) {
            assert forall|i: int, j: int| 0 <= i < j < xs1.len() implies xs1[i].id != xs1[j].id by {
                if i != k && j != k {
                    assert(xs1[i] == xs[i] && xs1[j] == xs[j]);
                } else if i == k {
                    assert(xs1[j] == xs[j]);
                    assert(xs[k as int].id == row.id);
                } else {
                    assert(xs1[i] == xs[i]);
                    assert(xs[k as int].id == row.id);
                }
            }
        }
    } else {
        assert(xs1 == xs.push(row));
        assert forall|j: int| 0 <= j < xs.len() implies xs1[j].id != row.id by {
            assert(xs1[j] == xs[j]);
        }
        lemma_approval_pos_unique(xs1, row.id, xs.len() as int);
        assert(xs1.update(xs.len() as int, row) =~= xs1);
        assert(xs1[xs.len() as int] == row);
        if approval_ids_unique(xs) {
            assert forall|i: int, j: int| 0 <= i < j < xs1.len() implies xs1[i].id != xs1[j].id by {
                assert(xs1[i] == xs[i]);
                if j < xs.len() {
                    assert(xs1[j] == xs[j]);
                }
            }
        }
    }
}

proof fn lemma_transfer_pos(ts: Seq<ObjectTransferRowV>, o: Seq<char>, d: Seq<char>)
    ensures
        transfer_pos(ts, o, d) <= ts.len(),
        forall|j: int| 0 <= j < transfer_pos(ts, o, d) ==> !(ts[j].object_id == o && ts[j].direction == d),
        transfer_pos(ts, o, d) < ts.len() ==> ts[transfer_pos(ts, o, d) as int].object_id == o
            && ts[transfer_pos(ts, o, d) as int].direction == d,
    decreases ts.len(),
{
    if ts.len() > 0 && !(ts[0].object_id == o && ts[0].direction == d) {
        lemma_transfer_pos(ts.drop_first(), o, d);
        assert forall|j: int| 0 <= j < transfer_pos(ts, o, d) implies !(ts[j].object_id == o
            && ts[j].direction == d) by {
            if j > 0 {
                assert(ts[j] == ts.drop_first()[j - 1]);
            }
        }
    }
}

proof fn lemma_transfer_pos_unique(ts: Seq<ObjectTransferRowV>, o: Seq<char>, d: Seq<char>, k: int)
    requires
        0 <= k <= ts.len(),
        forall|j: int| 0 <= j < k ==> !(ts[j].object_id == o && ts[j].direction == d),
        k < ts.len() ==> ts[k].object_id == o && ts[k].direction == d,
    ensures
        transfer_pos(ts, o, d) == k,
    decreases ts.len(),
{
    if ts.len() > 0 && k > 0 {
        assert(!(ts[0].object_id == o && ts[0].direction == d));
        assert forall|j: int| 0 <= j < k - 1 implies !(ts.drop_first()[j].object_id == o
            && ts.drop_first()[j].direction == d) by {
            assert(ts.drop_first()[j] == ts[j + 1]);
        }
        lemma_transfer_pos_unique(ts.drop_first(), o, d, k - 1);
    }
}

/// Whether no two transfers are of the same object in the same direction.
pub open spec fn transfer_keys_unique(ts: Seq<ObjectTransferRowV>) -> bool {
    forall|i: int, j: int|
        0 <= i < j < ts.len() ==> !(ts[i].object_id == ts[j].object_id && ts[i].direction
            == ts[j].direction)
}

/// A transfer response replaces the row of the same object and direction:
/// each transfer is listed once, and the same response twice leaves what it
/// leaves once.
pub proof fn law_transfer_response_replaces(a: AppV, response: JsonV)
    ensures
        apply_transfer_v(apply_transfer_v(a, response), response) == apply_transfer_v(a, response),
        transfer_keys_unique(a.state.object_transfers) ==> transfer_keys_unique(
            apply_transfer_v(a, response).state.object_transfers,
        ),
{
    match transfer_v(response) {
        Some(t0) => {
            let a1 = apply_transfer_v(a, response);
            let ts = a.state.object_transfers;
            let ts1 = a1.state.object_transfers;
            let t = ObjectTransferRowV {
                relay_endpoint: if t0.relay_endpoint is Some {
                    t0.relay_endpoint
                } else {
                    a.relay_url
                },
                relay_service_key_base64: if t0.relay_service_key_base64 is Some {
                    t0.relay_service_key_base64
                } else {
                    crate::app::relay_key_v(a)
                },
                ..t0
            };
            let k = transfer_pos(ts, t.object_id, t.direction);
            lemma_transfer_pos(ts, t.object_id, t.direction);
            if k < ts.len() {
                assert(ts1 == ts.update(k as int, t));
                assert forall|j: int| 0 <= j < k implies !(ts1[j].object_id == t.object_id
                    && ts1[j].direction == t.direction) by {
                    assert(ts1[j] == ts[j]);
                }
                lemma_transfer_pos_unique(ts1, t.object_id, t.direction, k as int);
                assert(ts1.update(k as int, t) =~= ts1);
                assert(apply_transfer_v(a1, response).state =~= a1.state);
                if transfer_keys_unique(ts) {
                    assert forall|i: int, j: int| 0 <= i < j < ts1.len() implies !(ts1[i].object_id
                        == ts1[j].object_id && ts1[i].direction == ts1[j].direction) by {
                        if i != k && j != k {
                            assert(ts1[i] == ts[i] && ts1[j] == ts[j]);
                        } else if i == k {
                            assert(ts1[j] == ts[j]);
                        } else {
                            assert(ts1[i] == ts[i]);
                        }
                    }
                }
            } else {
                assert(ts1 == ts.push(t));
                assert forall|j: int| 0 <= j < ts.len() implies !(ts1[j].object_id == t.object_id
                    && ts1[j].direction == t.direction) by {
                    assert(ts1[j] == ts[j]);
                }
                lemma_transfer_pos_unique(ts1, t.object_id, t.direction, ts.len() as int);
                assert(ts1.update(ts.len() as int, t) =~= ts1);
                assert(apply_transfer_v(a1, response).state =~= a1.state);
                if transfer_keys_unique(ts) {
                    assert forall|i: int, j: int| 0 <= i < j < ts1.len() implies !(ts1[i].object_id
                        == ts1[j].object_id && ts1[i].direction == ts1[j].direction) by {
                        assert(ts1[i] == ts[i]);
                        if j < ts.len() {
                            assert(ts1[j] == ts[j]);
                        }
                    }
                }
            }
        },
        None => {},
    }
}

/// An approval confirmed on the remote App is never approved from the
/// terminal: approving it makes no request, and the status line says why.
pub proof fn law_remote_app_not_approved_here(a: AppV)
    requires
        a.state.selected_approval < a.state.approvals.len(),
        a.state.approvals[a.state.selected_approval as int].confirmation_mode == "remote_app"@,
    ensures
        decide_v(a, "grant.approve"@).1.steps.len() == 0,
        decide_v(a, "grant.approve"@).0.state.status_message == Some(remote_app_notice_v()),
        decide_v(a, "grant.approve"@).0.state.approvals == a.state.approvals,
{
}

/// Denying an approval answers no surface: it sends the denial, clears the
/// status line and reloads the approvals, in that order.
pub proof fn law_deny_sends_only_denial(a: AppV)
    requires
        a.state.selected_approval < a.state.approvals.len(),
    ensures
        decide_v(a, "grant.deny"@).0 == a,
        decide_v(a, "grant.deny"@).1.steps.len() == 3,
        decide_v(a, "grant.deny"@).1.steps[1] == StepV::SetStatus(None),
{
    assert("grant.deny"@ != "grant.approve"@) by {
        reveal_strlit("grant.deny");
        reveal_strlit("grant.approve");
        assert("grant.deny"@[6] != "grant.approve"@[6]);
    }
}

proof fn lemma_dec_nonempty(n: nat)
    ensures
        dec(n).len() >= 1,
        n >= 10 ==> dec(n).len() >= 2,
    decreases n,
{
    if n >= 10 {
        lemma_dec_nonempty(n / 10);
    }
}

proof fn lemma_digit_char_injective(x: int, y: int)
    requires
        0 <= x < 10,
        0 <= y < 10,
        digit_char(x) == digit_char(y),
    ensures
        x == y,
{
}

/// Distinct numbers have distinct decimal renderings.
pub proof fn law_dec_injective(n: nat, m: nat)
    requires
        dec(n) == dec(m),
    ensures
        n == m,
    decreases n,
{
    lemma_dec_nonempty(n);
    lemma_dec_nonempty(m);
    if n >= 10 && m >= 10 {
        assert(dec(n).drop_last() =~= dec(n / 10));
        assert(dec(m).drop_last() =~= dec(m / 10));
        law_dec_injective(n / 10, m / 10);
        assert(dec(n).last() == digit_char((n % 10) as int));
        assert(dec(m).last() == digit_char((m % 10) as int));
        lemma_digit_char_injective((n % 10) as int, (m % 10) as int);
    } else if n < 10 && m < 10 {
        assert(dec(n)[0] == digit_char(n as int));
        assert(dec(m)[0] == digit_char(m as int));
        lemma_digit_char_injective(n as int, m as int);
    }
}

/// Sending a message moves the message counter on, so the next message sent
/// gets another id; the input line is emptied.
pub proof fn law_sent_messages_get_fresh_ids(a: AppV)
    requires
        a.state.selected_panel == Panel::Messages,
        a.state.input.len() > 0,
        !(a.state.input.len() >= 8 && a.state.input.take(8) == "/attach "@),
        a.state.next_message_id < u64::MAX,
    ensures
        submit_v(a).0.state.next_message_id == a.state.next_message_id + 1,
        submit_v(a).0.state.input.len() == 0,
        draft_v(a.state, a.state.input, a.state.next_message_id).message_id != draft_v(
            submit_v(a).0.state,
            a.state.input,
            submit_v(a).0.state.next_message_id,
        ).message_id,
{
    let n = a.state.next_message_id;
    let p = "tui_msg_"@;
    assert(p.len() == 8) by {
        reveal_strlit("tui_msg_");
    }
    assert(("/attach "@).len() == 8) by {
        reveal_strlit("/attach ");
    }
    if (p + dec(n as nat)) == (p + dec((n + 1) as nat)) {
        assert((p + dec(n as nat)).skip(8) =~= dec(n as nat));
        assert((p + dec((n + 1) as nat)).skip(8) =~= dec((n + 1) as nat));
        law_dec_injective(n as nat, (n + 1) as nat);
    }
}


/// Whether a step is a request made as `account`, or needs no outside work.
pub open spec fn made_as(step: StepV, account: Seq<char>) -> bool {
    match step {
        StepV::Issue(EffectV::Request(r), _) => r.account_id == Some(account),
        StepV::Issue(_, _) => false,
        _ => true,
    }
}

/// When the daemon answers an account switch, the account it reports active
/// becomes the client's, the selections go back to the top, and every
/// projection is reloaded as that account.
pub proof fn law_switch_reloads_as_new_account(a: AppV, requested: Seq<char>, response: JsonV)
    ensures
        ({
            let (a1, applied) = apply_v(a, ThenV::Switched(requested), OutcomeV::Response(response));
            let active = sfield(response, "active_account_id"@, requested);
            &&& a1.state == switched_v(a.state, active)
            &&& a1.state.account_id == active
            &&& a1.state.selected_conversation == 0
            &&& a1.state.selected_message == 0
            &&& applied == AppliedV::Continue(refresh_all_steps_v(a1), None)
            &&& forall|i: int|
                0 <= i < refresh_all_steps_v(a1).len() ==> made_as(
                    #[trigger] refresh_all_steps_v(a1)[i],
                    active,
                )
        }),
{
}

/// Enter in the composer runs the panel's Enter and then, once what it
/// started is done, leaves the composer; when it fails, the composer stays
/// open with what the panel's Enter left.
pub proof fn law_compose_enter_leaves_composer(a: AppV)
    requires
        a.state.input_mode == InputMode::Compose,
    ensures
        handle_input_v(a, TuiInput::Enter).0 == enter_v(a).0,
        match enter_v(a).1 {
            Ok(t) => handle_input_v(a, TuiInput::Enter).1 == Ok::<TaskV, TuiErrorV>(
                TaskV { steps: t.steps.push(StepV::FinishCompose), ..t },
            ),
            Err(e) => handle_input_v(a, TuiInput::Enter).1 == Err::<TaskV, TuiErrorV>(e),
        },
        local_v(a, StepV::FinishCompose).state.input_mode == InputMode::Normal,
{
}

/// Whether no step needs outside work.
pub open spec fn all_local(steps: Seq<StepV>) -> bool {
    forall|i: int| 0 <= i < steps.len() ==> !(#[trigger] steps[i] is Issue)
}

/// An operation whose steps need no outside work ends at once, with the
/// result it had.
pub proof fn law_local_steps_finish(a: AppV, t: TaskV)
    requires
        t.waiting is None,
        all_local(t.steps),
    ensures
        run_v(a, t).2 == EffectV::Done(t.output),
        run_v(a, t).1.steps.len() == 0,
        run_v(a, t).1.waiting is None,
    decreases t.steps.len(),
{
    if t.steps.len() > 0 {
        assert(!(t.steps[0] is Issue));
        let t1 = TaskV { steps: t.steps.drop_first(), ..t };
        assert forall|i: int| 0 <= i < t1.steps.len() implies !(#[trigger] t1.steps[i] is Issue) by {
            assert(t1.steps[i] == t.steps[i + 1]);
        }
        law_local_steps_finish(local_v(a, t.steps[0]), t1);
    }
}

/// When the outside work of a step fails, the operation ends there: the
/// view model is left as it was, nothing is left to do, no further request
/// is made, and the failure is handed to the front end.
pub proof fn law_failed_work_ends_task(a: AppV, t: TaskV, e: TuiErrorV)
    ensures
        advance_v(a, t, OutcomeV::Failed(e)).0 == a,
        advance_v(a, t, OutcomeV::Failed(e)).1.steps.len() == 0,
        advance_v(a, t, OutcomeV::Failed(e)).1.waiting is None,
        advance_v(a, t, OutcomeV::Failed(e)).2 == EffectV::Fail(e),
{
}

/// A step that fails ends its operation: nothing is left to do, and the
/// failure is handed to the front end.
pub proof fn law_failure_ends_task(a: AppV, t: TaskV, outcome: OutcomeV)
    requires
        t.waiting is Some,
        !(outcome is Failed),
        apply_v(a, t.waiting->0, outcome).1 is Failed,
    ensures
        advance_v(a, t, outcome).1.steps.len() == 0,
        advance_v(a, t, outcome).1.waiting is None,
        advance_v(a, t, outcome).2 == EffectV::Fail(apply_v(a, t.waiting->0, outcome).1->Failed_0),
{
}


proof fn lemma_marker(i: int, selected: usize)
    ensures
        marker(i, selected).len() == 2,
        (marker(i, selected)[0] == '>') == (i == selected),
{
    reveal_strlit("> ");
    reveal_strlit("  ");
}

/// On every panel the selected row, and it alone, is drawn with the `>`
/// marker; the device rows under the contacts never are.
pub proof fn law_selected_row_marked(s: TuiStateV, i: int)
    ensures
        0 <= i < s.conversations.len() ==> (conversation_lines_v(s)[i][0] == '>') == (i
            == s.selected_conversation),
        0 <= i < s.messages.len() ==> (message_lines_v(s)[i][0] == '>') == (i == s.selected_message),
        0 <= i < s.object_transfers.len() ==> (object_lines_v(s)[i][0] == '>') == (i
            == s.selected_object_transfer),
        0 <= i < s.contacts.len() ==> (contact_lines_v(s)[i][0] == '>') == (i == s.selected_contact),
        s.contacts.len() <= i < s.contacts.len() + s.devices.len() ==> contact_lines_v(s)[i][0]
            != '>',
        0 <= i < s.groups.len() ==> (group_lines_v(s)[i][0] == '>') == (i == s.selected_group),
        0 <= i < s.approvals.len() ==> (approval_lines_v(s)[i][0] == '>') == (i
            == s.selected_approval),
{
    lemma_marker(i, s.selected_conversation);
    lemma_marker(i, s.selected_message);
    lemma_marker(i, s.selected_object_transfer);
    lemma_marker(i, s.selected_contact);
    lemma_marker(i, s.selected_group);
    lemma_marker(i, s.selected_approval);
    if s.contacts.len() <= i < s.contacts.len() + s.devices.len() {
        reveal_strlit("* ");
        reveal_strlit("  ");
        let d = s.devices[i - s.contacts.len()];
        assert(contact_lines_v(s)[i] == crate::render::device_line_v(d));
    }
}


/// Whether a step's request, if it makes one, is made as `account`; an
/// account switch is made as the account it switches to.
pub open spec fn request_as(step: StepV, account: Seq<char>) -> bool {
    match step {
        StepV::Issue(EffectV::Request(r), ThenV::Switched(requested)) => r.account_id == Some(requested),
        StepV::Issue(EffectV::Request(r), _) => r.account_id == Some(account),
        _ => true,
    }
}

pub open spec fn steps_as(steps: Seq<StepV>, account: Seq<char>) -> bool {
    forall|i: int| 0 <= i < steps.len() ==> request_as(#[trigger] steps[i], account)
}

pub open spec fn result_as(r: Result<TaskV, TuiErrorV>, account: Seq<char>) -> bool {
    match r {
        Ok(t) => steps_as(t.steps, account),
        Err(_) => true,
    }
}

proof fn lemma_steps_as_concat(x: Seq<StepV>, y: Seq<StepV>, account: Seq<char>)
    requires
        steps_as(x, account),
        steps_as(y, account),
    ensures
        steps_as(x + y, account),
{
    assert forall|i: int| 0 <= i < (x + y).len() implies request_as(#[trigger] (x + y)[i], account) by {
        if i < x.len() {
            assert((x + y)[i] == x[i]);
        } else {
            assert((x + y)[i] == y[i - x.len()]);
        }
    }
}

proof fn lemma_one_as(st: StepV, account: Seq<char>)
    requires
        request_as(st, account),
    ensures
        steps_as(one(st).steps, account),
{
    assert(one(st).steps[0] == st);
}

proof fn lemma_decide_as(a: AppV, method: Seq<char>)
    ensures
        steps_as(decide_v(a, method).1.steps, a.state.account_id),
{
    let s = a.state;
    if s.selected_approval < s.approvals.len() {
        let ap = s.approvals[s.selected_approval as int];
        let x = a2ui_steps_v(s.account_id, ap);
        assert(steps_as(x, s.account_id)) by {
            if x.len() > 0 {
                assert(x.len() == 1);
            }
        }
        let y = seq![
            crate::app::request_step(crate::requests::grant_v(s.account_id, method, ap.id), ThenV::Ignore),
            StepV::SetStatus(None),
            crate::app::refresh_approvals_v(a),
        ];
        assert(steps_as(y, s.account_id)) by {
            assert forall|i: int| 0 <= i < y.len() implies request_as(#[trigger] y[i], s.account_id) by {
                if i == 0 {
                } else if i == 1 {
                } else {
                }
            }
        }
        assert(steps_as(Seq::<StepV>::empty(), s.account_id));
        lemma_steps_as_concat(x, y, s.account_id);
        lemma_steps_as_concat(Seq::<StepV>::empty(), y, s.account_id);
        assert(Seq::<StepV>::empty() + y =~= y);
    }
}

proof fn lemma_object_command_as(a: AppV)
    ensures
        result_as(object_command_v(a).1, a.state.account_id),
{
    let w = crate::text::words(a.state.input);
    if w.len() == 3 && w[0] == "put"@ {
        lemma_one_as(StepV::Issue(EffectV::ReadFile(w[1]), ThenV::PutFile(w[2])), a.state.account_id);
    } else if w.len() == 3 && w[0] == "get"@ {
    } else if w.len() == 2 && w[0] == "status"@ {
    } else if w.len() == 3 && w[0] == "status"@ {
    } else if w.len() == 3 && w[0] == "resume"@ {
    } else {
    }
}

proof fn lemma_contact_command_as(a: AppV)
    ensures
        result_as(contact_command_v(a).1, a.state.account_id),
{
    let w = crate::text::words(a.state.input);
    let a1 = crate::app::take_input_v(a);
    if w.len() > 0 && (w[0] == "add"@ || w[0] == "accept"@) && w.len() == 4 {
        let method = if w[0] == "add"@ { "contact.add"@ } else { "contact.accept"@ };
        let done = if w[0] == "add"@ { "contact added: "@ } else { "contact accepted: "@ };
        let steps = crate::app::contact_link_steps_v(a1, method, done, w[1], w[2], w[3]);
        assert(steps_as(steps, a.state.account_id)) by {
            assert forall|i: int| 0 <= i < steps.len() implies request_as(#[trigger] steps[i], a.state.account_id) by {
                if i == 0 {
                } else if i == 1 {
                } else {
                }
            }
        }
    }
}

proof fn lemma_enter_as(a: AppV)
    ensures
        result_as(enter_v(a).1, a.state.account_id),
{
    if a.state.selected_panel == Panel::Objects {
        lemma_object_command_as(a);
    } else if a.state.selected_panel == Panel::Contacts {
        lemma_contact_command_as(a);
    }
}

proof fn lemma_shortcut_as(a: AppV, c: char)
    ensures
        result_as(shortcut_v(a, c).1, a.state.account_id),
{
    lemma_decide_as(a, "grant.approve"@);
    lemma_decide_as(a, "grant.deny"@);
}

/// Every request an input starts is made as the client's account, but for
/// an account switch, which is made as the account it switches to.
pub proof fn law_inputs_request_as_account(a: AppV, input: TuiInput)
    ensures
        result_as(handle_input_v(a, input).1, a.state.account_id),
{
    if a.state.input_mode == InputMode::Compose {
        if input == TuiInput::Enter {
            lemma_enter_as(a);
            match enter_v(a).1 {
                Ok(t) => {
                    lemma_steps_as_concat(t.steps, seq![StepV::FinishCompose], a.state.account_id);
                    assert(t.steps + seq![StepV::FinishCompose] =~= t.steps.push(StepV::FinishCompose));
                },
                Err(_) => {},
            }
        }
    } else {
        match input {
            TuiInput::Enter => lemma_enter_as(a),
            TuiInput::Char(c) => lemma_shortcut_as(a, c),
            _ => {},
        }
    }
}


proof fn lemma_upsert_all_keeps_account(s: TuiStateV, ms: Seq<MessageRowV>)
    ensures
        crate::app::upsert_all_v(s, ms).account_id == s.account_id,
    decreases ms.len(),
{
    if ms.len() > 0 {
        lemma_upsert_all_keeps_account(s, ms.drop_last());
    }
}

/// Every request that a daemon response leads to is made as the client's
/// account as it stands after the response; the account it had, but after
/// an account switch.
pub proof fn law_responses_request_as_account(a: AppV, then: ThenV, outcome: OutcomeV)
    ensures
        apply_v(a, then, outcome).0.state.account_id == (match (then, outcome) {
            (ThenV::Switched(requested), OutcomeV::Response(r)) => sfield(r, "active_account_id"@, requested),
            _ => a.state.account_id,
        }),
        match apply_v(a, then, outcome).1 {
            AppliedV::Continue(steps, _) => steps_as(steps, apply_v(a, then, outcome).0.state.account_id),
            AppliedV::Failed(_) => true,
        },
{
    let (a1, applied) = apply_v(a, then, outcome);
    match (then, outcome) {
        (ThenV::UpsertMessages(r), OutcomeV::Decoded(d)) => {
            lemma_upsert_all_keeps_account(a.state, crate::parsing::decrypted_messages_v(r, d));
        },
        _ => {},
    }
    match applied {
        AppliedV::Continue(steps, _) => {
            assert forall|i: int| 0 <= i < steps.len() implies request_as(#[trigger] steps[i], a1.state.account_id) by {
                match (then, outcome) {
                    (ThenV::Switched(requested), OutcomeV::Response(r)) => {
                        law_switch_reloads_as_new_account(a, requested, r);
                        assert(made_as(refresh_all_steps_v(a1)[i], a1.state.account_id));
                    },
                    (ThenV::ObjectFetched(id), OutcomeV::Response(r)) => {
                        if i > 0 {
                            assert(steps[i] is SetStatus);
                        }
                    },
                    _ => {},
                }
            }
        },
        AppliedV::Failed(_) => {},
    }
}


proof fn lemma_upsert_all_keeps_counter(s: TuiStateV, ms: Seq<MessageRowV>)
    ensures
        crate::app::upsert_all_v(s, ms).next_message_id == s.next_message_id,
    decreases ms.len(),
{
    if ms.len() > 0 {
        lemma_upsert_all_keeps_counter(s, ms.drop_last());
    }
}

/// The message counter never goes back: no input, daemon response or local
/// step lowers it, so no message number is handed out twice.
pub proof fn law_message_counter_never_goes_back(a: AppV, input: TuiInput, then: ThenV, outcome: OutcomeV, step: StepV)
    ensures
        handle_input_v(a, input).0.state.next_message_id >= a.state.next_message_id,
        apply_v(a, then, outcome).0.state.next_message_id == a.state.next_message_id,
        local_v(a, step).state.next_message_id == a.state.next_message_id,
{
    match (then, outcome) {
        (ThenV::UpsertMessages(r), OutcomeV::Decoded(d)) => {
            lemma_upsert_all_keeps_counter(a.state, crate::parsing::decrypted_messages_v(r, d));
        },
        _ => {},
    }
}


/// An approval request is rendered, then recorded: the listed approval with
/// the same id is replaced at its index, the count staying as it was, and an
/// approval not listed yet is appended. Nothing else in the view model
/// changes, and approval ids stay distinct.
pub proof fn law_approval_request_in_place(
    a: AppV,
    body: JsonV,
    rs: Seq<Option<(JsonV, Option<RenderedSurfaceV>)>>,
)
    requires
        approval_ids_unique(a.state.approvals),
    ensures
        bus_event_v(a, "mcp.approval.request"@, body) == (a, one(StepV::Issue(
            EffectV::Render(render_job_v(seq![surface_candidate_v(body)])),
            ThenV::ApprovalEvent(body),
        ))),
        ({
            let xs = a.state.approvals;
            let row = approval_v(body, surface_at(rs, 0));
            let (a1, applied) = apply_v(a, ThenV::ApprovalEvent(body), OutcomeV::Rendered(rs));
            &&& applied == AppliedV::Continue(Seq::empty(), None)
            &&& a1 == with_state(a, TuiStateV { approvals: a1.state.approvals, ..a.state })
            &&& forall|j: int|
                0 <= j < xs.len() && #[trigger] xs[j].id == row.id ==> a1.state.approvals == xs.update(
                    j,
                    row,
                )
            &&& (forall|j: int| 0 <= j < xs.len() ==> #[trigger] xs[j].id != row.id)
                ==> a1.state.approvals == xs.push(row)
            &&& approval_ids_unique(a1.state.approvals)
        }),
{
    assert("mcp.approval.request"@ != "gateway.deliver"@ && "mcp.approval.request"@
        != "conversation.updated"@) by {
        reveal_strlit("mcp.approval.request");
        reveal_strlit("gateway.deliver");
        reveal_strlit("conversation.updated");
        assert("mcp.approval.request"@[0] != "gateway.deliver"@[0]);
        assert("mcp.approval.request"@[0] != "conversation.updated"@[0]);
    }
    let xs = a.state.approvals;
    let row = approval_v(body, surface_at(rs, 0));
    let k = approval_pos(xs, row.id);
    lemma_approval_pos(xs, row.id);
    law_approval_request_replaces(a.state, row);
    let a1 = apply_v(a, ThenV::ApprovalEvent(body), OutcomeV::Rendered(rs)).0;
    assert(a1.state =~= (TuiStateV { approvals: a1.state.approvals, ..a.state }));
    assert forall|j: int|
        0 <= j < xs.len() && #[trigger] xs[j].id == row.id implies a1.state.approvals == xs.update(
            j,
            row,
        ) by {
        assert(k <= j);
        assert(k < xs.len());
        assert(xs[k as int].id == xs[j].id);
        assert(k == j);
    }
}

/// A task takes on its outside work one piece at a time, in order: a move
/// hands out the first step that needs outside work and keeps the later
/// steps until its outcome is back.
pub proof fn law_one_effect_at_a_time(a: AppV, t: TaskV)
    requires
        t.waiting is None,
        t.steps.len() > 0,
        t.steps[0] is Issue,
    ensures
        run_v(a, t) == (a, TaskV { steps: t.steps.drop_first(), waiting: Some(t.steps[0]->Issue_1), ..t }, t.steps[0]->Issue_0),
{
}

/// The method of the request a step makes, if it makes one.
pub open spec fn step_method(st: StepV) -> Option<Seq<char>> {
    match st {
        StepV::Issue(EffectV::Request(r), _) => Some(r.method),
        _ => None,
    }
}

/// Loading every projection makes seven requests, each as the client's
/// account, in this order: `subscription.open`, `message.read`,
/// `message.receive`, `contact.list`, `device.list`, `group.list`,
/// `mcp.approval.list`; then it makes sure of a conversation, so that a load
/// that gets through leaves one. Its first move makes the first request
/// alone; each later one waits for the outcome before it, and a failed
/// request ends the load before any later one is made.
pub proof fn law_refresh_all_in_order(a: AppV, e: TuiErrorV)
    ensures
        ({
            let steps = refresh_all_steps_v(a);
            let acct = a.state.account_id;
            &&& steps.len() == 8
            &&& forall|i: int| 0 <= i < 7 ==> (#[trigger] steps[i]) is Issue && made_as(steps[i], acct)
                && step_method(steps[i]) is Some
            &&& step_method(steps[0]) == Some("subscription.open"@)
            &&& step_method(steps[1]) == Some("message.read"@)
            &&& step_method(steps[2]) == Some("message.receive"@)
            &&& step_method(steps[3]) == Some("contact.list"@)
            &&& step_method(steps[4]) == Some("device.list"@)
            &&& step_method(steps[5]) == Some("group.list"@)
            &&& step_method(steps[6]) == Some("mcp.approval.list"@)
            &&& steps[7] == StepV::EnsureDefaultConversation
            &&& forall|b: AppV| #[trigger] local_v(b, StepV::EnsureDefaultConversation).state.conversations.len() > 0
            &&& run_v(a, crate::task::task_of(steps)) == (
                a,
                TaskV { steps: steps.drop_first(), waiting: Some(ThenV::Ignore), output: None },
                steps[0]->Issue_0,
            )
            &&& forall|t: TaskV| advance_v(a, t, OutcomeV::Failed(e)).2 == EffectV::Fail(e)
                && (#[trigger] advance_v(a, t, OutcomeV::Failed(e))).1.steps.len() == 0
        }),
{
    let steps = refresh_all_steps_v(a);
    assert forall|b: AppV| #[trigger] local_v(b, StepV::EnsureDefaultConversation).state.conversations.len() > 0 by {
        law_default_conversation(b.state);
    }
    assert forall|i: int| 0 <= i < 7 implies (#[trigger] steps[i]) is Issue && made_as(steps[i], a.state.account_id)
        && step_method(steps[i]) is Some by {
        law_switch_reloads_as_new_account(a, a.state.account_id, JsonV::Null);
        if i == 0 {} else if i == 1 {} else if i == 2 {} else if i == 3 {} else if i == 4 {} else if i == 5 {} else {}
    }
}


/// Whether no two messages share an id.
pub open spec fn message_ids_unique(ms: Seq<MessageRowV>) -> bool {
    forall|i: int, j: int| 0 <= i < j < ms.len() ==> ms[i].id != ms[j].id
}

/// The messages of `d`, in order, whose id no message of `ms` has.
pub open spec fn new_rows(ms: Seq<MessageRowV>, d: Seq<MessageRowV>) -> Seq<MessageRowV>
    decreases d.len(),
{
    if d.len() == 0 {
        Seq::empty()
    } else if message_pos(ms, d.last().id) < ms.len() {
        new_rows(ms, d.drop_last())
    } else {
        new_rows(ms, d.drop_last()).push(d.last())
    }
}

proof fn lemma_new_rows_fresh(ms: Seq<MessageRowV>, d: Seq<MessageRowV>)
    ensures
        forall|i: int, j: int|
            0 <= i < new_rows(ms, d).len() && 0 <= j < ms.len() ==> #[trigger] new_rows(ms, d)[i].id
                != #[trigger] ms[j].id,
    decreases d.len(),
{
    if d.len() > 0 {
        let d1 = d.drop_last();
        lemma_new_rows_fresh(ms, d1);
        lemma_message_pos(ms, d.last().id);
        let nr1 = new_rows(ms, d1);
        let nr = new_rows(ms, d);
        assert forall|i: int, j: int|
            0 <= i < nr.len() && 0 <= j < ms.len() implies #[trigger] nr[i].id != #[trigger] ms[j].id by {
            if i < nr1.len() {
                assert(nr[i] == nr1[i]);
            } else {
                assert(nr[i] == d.last());
            }
        }
    }
}

proof fn lemma_new_rows_avoid(ms: Seq<MessageRowV>, d: Seq<MessageRowV>, x: Seq<char>)
    requires
        forall|k: int| 0 <= k < d.len() ==> #[trigger] d[k].id != x,
    ensures
        forall|i: int| 0 <= i < new_rows(ms, d).len() ==> #[trigger] new_rows(ms, d)[i].id != x,
    decreases d.len(),
{
    if d.len() > 0 {
        let d1 = d.drop_last();
        assert forall|k: int| 0 <= k < d1.len() implies #[trigger] d1[k].id != x by {
            assert(d1[k] == d[k]);
        }
        lemma_new_rows_avoid(ms, d1, x);
        assert(d[d.len() - 1].id != x);
        let nr1 = new_rows(ms, d1);
        let nr = new_rows(ms, d);
        assert forall|i: int| 0 <= i < nr.len() implies #[trigger] nr[i].id != x by {
            if i < nr1.len() {
                assert(nr[i] == nr1[i]);
            } else {
                assert(nr[i] == d.last());
            }
        }
    }
}

proof fn lemma_new_rows_unique(ms: Seq<MessageRowV>, d: Seq<MessageRowV>)
    requires
        message_ids_unique(d),
    ensures
        message_ids_unique(new_rows(ms, d)),
    decreases d.len(),
{
    if d.len() > 0 {
        let d1 = d.drop_last();
        let m = d.last();
        assert(message_ids_unique(d1)) by {
            assert forall|i: int, j: int| 0 <= i < j < d1.len() implies d1[i].id != d1[j].id by {
                assert(d1[i] == d[i] && d1[j] == d[j]);
            }
        }
        lemma_new_rows_unique(ms, d1);
        assert forall|k: int| 0 <= k < d1.len() implies #[trigger] d1[k].id != m.id by {
            assert(d1[k] == d[k]);
        }
        lemma_new_rows_avoid(ms, d1, m.id);
    }
}

proof fn lemma_upsert_all(s: TuiStateV, d: Seq<MessageRowV>)
    requires
        message_ids_unique(s.messages),
        message_ids_unique(d),
    ensures
        ({
            let r = crate::app::upsert_all_v(s, d).messages;
            let ms = s.messages;
            &&& r.len() == ms.len() + new_rows(ms, d).len()
            &&& forall|j: int| 0 <= j < ms.len() ==> (#[trigger] r[j]).id == ms[j].id
            &&& forall|j: int|
                0 <= j < ms.len() && (forall|k: int| 0 <= k < d.len() ==> #[trigger] d[k].id != ms[j].id)
                    ==> #[trigger] r[j] == ms[j]
            &&& forall|j: int, k: int|
                0 <= j < ms.len() && 0 <= k < d.len() && #[trigger] d[k].id == #[trigger] ms[j].id
                    ==> r[j] == d[k]
            &&& forall|i: int| 0 <= i < new_rows(ms, d).len() ==> r[ms.len() + i] == #[trigger] new_rows(ms, d)[i]
        }),
    decreases d.len(),
{
    let ms = s.messages;
    if d.len() == 0 {
        return;
    }
    let d1 = d.drop_last();
    let m = d.last();
    assert(message_ids_unique(d1)) by {
        assert forall|i: int, j: int| 0 <= i < j < d1.len() implies d1[i].id != d1[j].id by {
            assert(d1[i] == d[i] && d1[j] == d[j]);
        }
    }
    assert forall|k: int| 0 <= k < d1.len() implies #[trigger] d1[k].id != m.id by {
        assert(d1[k] == d[k]);
    }
    lemma_upsert_all(s, d1);
    let st = crate::app::upsert_all_v(s, d1);
    let r1 = st.messages;
    let r = crate::app::upsert_all_v(s, d).messages;
    assert(crate::app::upsert_all_v(s, d) == upsert_message_v(st, m));
    let p = message_pos(ms, m.id);
    lemma_message_pos(ms, m.id);
    if p < ms.len() {
        assert forall|j: int| 0 <= j < p implies r1[j].id != m.id by {
            assert(r1[j].id == ms[j].id);
        }
        assert(r1[p as int].id == ms[p as int].id);
        lemma_message_pos_unique(r1, m.id, p as int);
        assert(r == r1.update(p as int, m));
        assert(new_rows(ms, d) == new_rows(ms, d1));
        assert forall|j: int| 0 <= j < ms.len() implies (#[trigger] r[j]).id == ms[j].id by {
            if j != p {
                assert(r[j] == r1[j]);
                assert(r1[j].id == ms[j].id);
            }
        }
        assert forall|j: int|
            0 <= j < ms.len() && (forall|k: int| 0 <= k < d.len() ==> #[trigger] d[k].id != ms[j].id)
                implies #[trigger] r[j] == ms[j] by {
            assert(d[d.len() - 1].id != ms[j].id);
            assert(j != p);
            assert forall|k: int| 0 <= k < d1.len() implies #[trigger] d1[k].id != ms[j].id by {
                assert(d1[k] == d[k]);
            }
            assert(r1[j] == ms[j]);
        }
        assert forall|j: int, k: int|
            0 <= j < ms.len() && 0 <= k < d.len() && #[trigger] d[k].id == #[trigger] ms[j].id
                implies r[j] == d[k] by {
            if k == d.len() - 1 {
                if j != p {
                    assert(ms[j].id == ms[p as int].id);
                    if j < p {
                    } else {
                    }
                }
            } else {
                assert(d1[k] == d[k]);
                if j == p {
                    assert(d[k].id == d[d.len() - 1].id);
                }
                assert(r1[j] == d1[k]);
            }
        }
        assert forall|i: int| 0 <= i < new_rows(ms, d).len() implies r[ms.len() + i] == #[trigger] new_rows(ms, d)[i] by {
            assert(r[ms.len() + i] == r1[ms.len() + i]);
            assert(new_rows(ms, d1)[i] == new_rows(ms, d)[i]);
        }
    } else {
        lemma_new_rows_avoid(ms, d1, m.id);
        assert forall|j: int| 0 <= j < r1.len() implies r1[j].id != m.id by {
            if j < ms.len() {
                assert(r1[j].id == ms[j].id);
            } else {
                let i = j - ms.len();
                assert(r1[ms.len() + i] == new_rows(ms, d1)[i]);
            }
        }
        lemma_message_pos_unique(r1, m.id, r1.len() as int);
        law_push_message(st, m);
        assert(r == r1.push(m));
        assert(new_rows(ms, d) == new_rows(ms, d1).push(m));
        assert forall|j: int| 0 <= j < ms.len() implies (#[trigger] r[j]).id == ms[j].id by {
            assert(r[j] == r1[j]);
            assert(r1[j].id == ms[j].id);
        }
        assert forall|j: int|
            0 <= j < ms.len() && (forall|k: int| 0 <= k < d.len() ==> #[trigger] d[k].id != ms[j].id)
                implies #[trigger] r[j] == ms[j] by {
            assert(r[j] == r1[j]);
            assert forall|k: int| 0 <= k < d1.len() implies #[trigger] d1[k].id != ms[j].id by {
                assert(d1[k] == d[k]);
            }
            assert(r1[j] == ms[j]);
        }
        assert forall|j: int, k: int|
            0 <= j < ms.len() && 0 <= k < d.len() && #[trigger] d[k].id == #[trigger] ms[j].id
                implies r[j] == d[k] by {
            assert(r[j] == r1[j]);
            if k == d.len() - 1 {
                assert(ms[j].id != m.id);
            } else {
                assert(d1[k] == d[k]);
                assert(r1[j] == d1[k]);
            }
        }
        assert forall|i: int| 0 <= i < new_rows(ms, d).len() implies r[ms.len() + i] == #[trigger] new_rows(ms, d)[i] by {
            if i < new_rows(ms, d1).len() {
                assert(r[ms.len() + i] == r1[ms.len() + i]);
                assert(new_rows(ms, d1)[i] == new_rows(ms, d)[i]);
            }
        }
    }
}

/// Received messages are upserted in order, by id: a listed message whose
/// id a received one has is replaced at its index by it; every other listed
/// message stays as it was; the received messages with new ids are appended
/// in the order received; and message ids stay distinct.
pub proof fn law_receive_upserts_by_id(a: AppV, response: JsonV, decoded: Seq<Option<Seq<char>>>)
    requires
        message_ids_unique(a.state.messages),
        message_ids_unique(decrypted_messages_v(response, decoded)),
    ensures
        apply_v(a, ThenV::ReceiveMessages, OutcomeV::Response(response)) == (a, AppliedV::Continue(
            seq![StepV::Issue(EffectV::Decode(decrypted_payloads_v(response)), ThenV::UpsertMessages(response))],
            None,
        )),
        ({
            let d = decrypted_messages_v(response, decoded);
            let ms = a.state.messages;
            let r = apply_v(a, ThenV::UpsertMessages(response), OutcomeV::Decoded(decoded)).0.state.messages;
            &&& r.len() == ms.len() + new_rows(ms, d).len()
            &&& forall|j: int|
                0 <= j < ms.len() && (forall|k: int| 0 <= k < d.len() ==> #[trigger] d[k].id != ms[j].id)
                    ==> #[trigger] r[j] == ms[j]
            &&& forall|j: int, k: int|
                0 <= j < ms.len() && 0 <= k < d.len() && #[trigger] d[k].id == #[trigger] ms[j].id
                    ==> r[j] == d[k]
            &&& r.subrange(ms.len() as int, r.len() as int) == new_rows(ms, d)
            &&& message_ids_unique(r)
        }),
{
    let d = decrypted_messages_v(response, decoded);
    let ms = a.state.messages;
    lemma_upsert_all(a.state, d);
    let r = crate::app::upsert_all_v(a.state, d).messages;
    let nr = new_rows(ms, d);
    assert(r.subrange(ms.len() as int, r.len() as int) =~= nr) by {
        assert forall|i: int| 0 <= i < nr.len() implies r.subrange(ms.len() as int, r.len() as int)[i] == nr[i] by {
            assert(r[ms.len() + i] == nr[i]);
        }
    }
    lemma_new_rows_unique(ms, d);
    lemma_new_rows_fresh(ms, d);
    assert forall|i: int, j: int| 0 <= i < j < r.len() implies r[i].id != r[j].id by {
        if j < ms.len() {
            assert(r[i].id == ms[i].id && r[j].id == ms[j].id);
        } else if i < ms.len() {
            assert(r[i].id == ms[i].id);
            assert(r[ms.len() + (j - ms.len())] == nr[j - ms.len()]);
            assert(nr[j - ms.len()].id != ms[i].id);
        } else {
            assert(r[ms.len() + (i - ms.len())] == nr[i - ms.len()]);
            assert(r[ms.len() + (j - ms.len())] == nr[j - ms.len()]);
        }
    }
}


/// Member `i` is what looking up its name finds.
pub open spec fn obj_lookup_at(es: Seq<(Seq<char>, JsonV)>, i: int) -> bool {
    crate::json::obj_lookup(es, es[i].0) == Some(es[i].1)
}

proof fn lemma_lookup_at(es: Seq<(Seq<char>, JsonV)>, k: Seq<char>, i: int)
    requires
        0 <= i < es.len(),
        es[i].0 == k,
        forall|j: int, l: int| 0 <= j < l < es.len() ==> es[j].0 != es[l].0,
    ensures
        crate::json::obj_lookup(es, k) == Some(es[i].1),
    decreases i,
{
    if i > 0 {
        let rest = es.drop_first();
        assert forall|j: int, l: int| 0 <= j < l < rest.len() implies rest[j].0 != rest[l].0 by {
            assert(rest[j] == es[j + 1] && rest[l] == es[l + 1]);
        }
        assert(rest[i - 1] == es[i]);
        lemma_lookup_at(rest, k, i - 1);
    }
}

/// Sending a message on the message panel, from its first move to the
/// daemon's answer: the input line is taken and the message counter `n`
/// moves on; the clock is read, the text encoded and the account status
/// asked for; then the queued attachments are taken and sent with the
/// message; once the daemon answers, the message shows as
/// `tui_msg_<n>`, from `me`, with the text typed, `sending`, and one
/// `uploading` attachment per queued one.
pub proof fn law_submit_message(a: AppV, t: i64, e: Seq<char>, st: JsonV, ok: JsonV)
    requires
        a.state.selected_panel == Panel::Messages,
        a.state.input.len() > 0,
        strip_prefix_spec(a.state.input, "/attach "@) is None,
    ensures
        ({
            let s = a.state;
            let n = s.next_message_id;
            let acct = s.account_id;
            let ps = s.pending_attachments;
            let d = draft_v(s, s.input, n);
            let (a1, t1) = submit_v(a);
            let (a2, r2) = apply_v(a1, ThenV::SubmitAccount(d, t, e), OutcomeV::Response(st));
            let row = sent_row_v(d, ps);
            let (a3, r3) = apply_v(a2, ThenV::Submitted(row), OutcomeV::Response(ok));
            &&& d.message_id == "tui_msg_"@ + dec(n as nat)
            &&& d.envelope_id == "tui_env_"@ + dec(n as nat)
            &&& t1 == one(StepV::Issue(EffectV::Clock, ThenV::SubmitClock(d)))
            &&& a1 == with_state(a, TuiStateV {
                input: Seq::empty(),
                next_message_id: saturating_inc_u64(n),
                ..s
            })
            &&& apply_v(a1, ThenV::SubmitClock(d), OutcomeV::Clock(t)) == (a1, AppliedV::Continue(
                seq![StepV::Issue(EffectV::Encode(vstd::utf8::encode_utf8(s.input)), ThenV::SubmitEncoded(d, t))],
                None,
            ))
            &&& apply_v(a1, ThenV::SubmitEncoded(d, t), OutcomeV::Encoded(e)) == (a1, AppliedV::Continue(
                seq![request_step(account_status_v(acct), ThenV::SubmitAccount(d, t, e))],
                None,
            ))
            &&& a2 == with_state(a1, TuiStateV { pending_attachments: Seq::empty(), ..a1.state })
            &&& r2 == AppliedV::Continue(
                seq![
                    request_step(
                        message_submit_v(acct, d, sfield(st, "principal_id"@, acct), sender_v(a1.state, st), e, t, ps),
                        ThenV::Submitted(row),
                    ),
                ],
                None,
            )
            &&& row.id == d.message_id
            &&& row.sender == "me"@
            &&& row.body == s.input
            &&& row.status == "sending"@
            &&& row.receipts.len() == 0
            &&& row.attachments.len() == ps.len()
            &&& forall|i: int| 0 <= i < ps.len() ==> #[trigger] row.attachments[i] == AttachmentRowV {
                message_id: d.envelope_id,
                object_id: ps[i].object_id,
                status: "uploading"@,
                plaintext_base64: None,
            }
            &&& r3 == AppliedV::Continue(Seq::empty(), None)
            &&& a3.state.messages == s.messages.push(row)
            &&& a3.state.input.len() == 0
            &&& a3.state.pending_attachments.len() == 0
        }),
{
    let s = a.state;
    let (a1, t1) = submit_v(a);
    assert(a1.state =~= (TuiStateV { input: Seq::empty(), next_message_id: saturating_inc_u64(s.next_message_id), ..s }));
    let d = draft_v(s, s.input, s.next_message_id);
    let (a2, r2) = apply_v(a1, ThenV::SubmitAccount(d, t, e), OutcomeV::Response(st));
    let row = sent_row_v(d, s.pending_attachments);
    law_push_message(a2.state, row);
}

/// The body of a direct message: the selected conversation's id, delivery
/// target and recipient device (the default conversation and target, and no
/// recipient, when none is selected); the principal of the account status,
/// else the account; as sender the local device, else the account status's
/// device, else the account; the numbered ids, the encoded text, the clock,
/// an hour to live, and the queued attachments.
pub proof fn law_submit_body(
    s: TuiStateV,
    body: Seq<char>,
    n: u64,
    st: JsonV,
    e: Seq<char>,
    t: i64,
    ps: Seq<PendingAttachmentV>,
)
    ensures
        ({
            let acct = s.account_id;
            let b = message_submit_v(acct, draft_v(s, body, n), sfield(st, "principal_id"@, acct), sender_v(s, st), e, t, ps).body;
            let sel = s.selected_conversation;
            let has = sel < s.conversations.len();
            &&& jget(b, "conversation_id"@) == Some(js(if has { s.conversations[sel as int].id } else { DEFAULT_CONVERSATION_ID@ }))
            &&& jget(b, "target_delivery_id"@) == Some(js(if has && s.conversations[sel as int].target_delivery_id is Some {
                s.conversations[sel as int].target_delivery_id->0
            } else {
                DEFAULT_TARGET_DELIVERY_ID@
            }))
            &&& jget(b, "recipient_device_id"@) == Some(if has && s.conversations[sel as int].recipient_device_id is Some {
                js(s.conversations[sel as int].recipient_device_id->0)
            } else {
                JsonV::Null
            })
            &&& jget(b, "source_principal_id"@) == Some(js(match jstr(jget(st, "principal_id"@)) {
                Some(p) => p,
                None => acct,
            }))
            &&& jget(b, "sender_id"@) == Some(js(match s.local_device_id {
                Some(x) => x,
                None => match jstr(jget(st, "device_id"@)) {
                    Some(x) => x,
                    None => acct,
                },
            }))
            &&& jget(b, "message_id"@) == Some(js("tui_msg_"@ + dec(n as nat)))
            &&& jget(b, "envelope_id"@) == Some(js("tui_env_"@ + dec(n as nat)))
            &&& jget(b, "plaintext_body_base64"@) == Some(js(e))
            &&& jget(b, "encrypted_body_base64"@) == Some(js(""@))
            &&& jget(b, "created_at"@) == Some(int_v(t))
            &&& jget(b, "ttl"@) == Some(uint_v(3600))
            &&& jget(b, "attachments"@) == Some(pending_list_v(ps))
        }),
{
    let acct = s.account_id;
    let d = draft_v(s, body, n);
    let b = message_submit_v(acct, d, sfield(st, "principal_id"@, acct), sender_v(s, st), e, t, ps).body;
    let es = b->Object_0;
    reveal_strlit("conversation_id");
    reveal_strlit("message_id");
    reveal_strlit("envelope_id");
    reveal_strlit("source_principal_id");
    reveal_strlit("sender_id");
    reveal_strlit("recipient_device_id");
    reveal_strlit("target_delivery_id");
    reveal_strlit("encrypted_body_base64");
    reveal_strlit("plaintext_body_base64");
    reveal_strlit("created_at");
    reveal_strlit("ttl");
    reveal_strlit("attachments");
    assert(es.len() == 12);
    assert(es[1].0[0] != es[9].0[0]);
    assert(es[2].0[0] != es[11].0[0]);
    assert(es[3].0[0] != es[5].0[0]);
    assert(es[7].0[0] != es[8].0[0]);
    assert forall|i: int, j: int| 0 <= i < j < 12 implies es[i].0 != es[j].0 by {
        if es[i].0 == es[j].0 {
            assert(es[i].0.len() == es[j].0.len());
            assert(es[i].0[0] == es[j].0[0]);
        }
    }
    assert forall|i: int| 0 <= i < 12 implies obj_lookup_at(es, i) by {
        lemma_lookup_at(es, es[i].0, i);
    }
    assert(obj_lookup_at(es, 0) && obj_lookup_at(es, 1) && obj_lookup_at(es, 2) && obj_lookup_at(es, 3));
    assert(obj_lookup_at(es, 4) && obj_lookup_at(es, 5) && obj_lookup_at(es, 6) && obj_lookup_at(es, 7));
    assert(obj_lookup_at(es, 8) && obj_lookup_at(es, 9) && obj_lookup_at(es, 10) && obj_lookup_at(es, 11));
}


/// The receive request asks for up to 100 messages of the selected
/// conversation, or of the default one when none is selected, with their
/// attachments fetched, using the relay key given.
pub proof fn law_receive_request_body(s: TuiStateV, key: Option<Seq<char>>)
    ensures
        ({
            let r = message_receive_v(s.account_id, crate::app::conv_id_v(s), key);
            let sel = s.selected_conversation;
            &&& r.account_id == Some(s.account_id)
            &&& r.method == "message.receive"@
            &&& jget(r.body, "limit"@) == Some(uint_v(100))
            &&& jget(r.body, "conversation_id"@) == Some(js(if sel < s.conversations.len() {
                s.conversations[sel as int].id
            } else {
                DEFAULT_CONVERSATION_ID@
            }))
            &&& jget(r.body, "auto_fetch_attachments"@) == Some(JsonV::Bool(true))
            &&& jget(r.body, "relay_service_key_base64"@) == Some(opt_text_v(key))
        }),
{
    let r = message_receive_v(s.account_id, crate::app::conv_id_v(s), key);
    let es = r.body->Object_0;
    reveal_strlit("limit");
    reveal_strlit("conversation_id");
    reveal_strlit("auto_fetch_attachments");
    reveal_strlit("relay_service_key_base64");
    assert(es.len() == 4);
    assert forall|i: int, j: int| 0 <= i < j < 4 implies es[i].0 != es[j].0 by {
        if es[i].0 == es[j].0 {
            assert(es[i].0.len() == es[j].0.len());
        }
    }
    assert forall|i: int| 0 <= i < 4 implies obj_lookup_at(es, i) by {
        lemma_lookup_at(es, es[i].0, i);
    }
    assert(obj_lookup_at(es, 0) && obj_lookup_at(es, 1) && obj_lookup_at(es, 2) && obj_lookup_at(es, 3));
}


/// A component with an id, a type and one child, which carries an action
/// permission.
pub open spec fn card_with_button(card: Seq<char>, kind: Seq<char>, button: Seq<char>, perm: Seq<char>) -> JsonV {
    JsonV::Object(seq![
        ("id"@, js(card)),
        ("component_type"@, js(kind)),
        ("children"@, JsonV::Array(seq![JsonV::Object(seq![("id"@, js(button)), ("action_permission"@, js(perm))])])),
    ])
}

/// The action that answers a surface is searched depth first: a component
/// with no action permission of its own is searched through its children,
/// in order, before the components after it. A surface whose only action is
/// a button inside a card is answered with that button's id and permission,
/// whatever follows the card.
pub proof fn law_action_search_goes_into_children(
    card: Seq<char>,
    kind: Seq<char>,
    button: Seq<char>,
    perm: Seq<char>,
    rest: Seq<JsonV>,
)
    ensures
        crate::a2ui::first_action_list(seq![card_with_button(card, kind, button, perm)] + rest) == Some((button, perm)),
{
    reveal_strlit("id");
    reveal_strlit("component_type");
    reveal_strlit("children");
    reveal_strlit("action_permission");
    let c = card_with_button(card, kind, button, perm);
    let b = JsonV::Object(seq![("id"@, js(button)), ("action_permission"@, js(perm))]);
    let ces = c->Object_0;
    let bes = b->Object_0;
    assert("id"@.len() == 2 && "component_type"@.len() == 14 && "children"@.len() == 8
        && "action_permission"@.len() == 17);
    assert(ces[0].0 != "action_permission"@ && ces[1].0 != "action_permission"@ && ces[2].0 != "action_permission"@);
    assert(ces[0].0 != "children"@ && ces[1].0 != "children"@);
    assert(bes[0].0 != "action_permission"@);
    assert(bes[0].0 == "id"@);
    reveal_with_fuel(crate::json::obj_lookup, 4);
    assert(jget(b, "action_permission"@) == Some(js(perm)));
    assert(jget(b, "id"@) == Some(js(button)));
    assert(crate::a2ui::first_action_one(b) == Some((button, perm)));
    assert(crate::a2ui::first_action_list(seq![b]) == Some((button, perm)));
    assert(jget(c, "action_permission"@) is None);
    assert(crate::a2ui::first_action_one(c) == Some((button, perm)));
    let cs = seq![c] + rest;
    assert(cs[0] == c);
}

/// Approving an approval whose surface holds a card with a button answers
/// the surface with that button's id and permission, then grants the
/// approval and reloads the approvals.
pub proof fn law_approve_answers_nested_button(
    a: AppV,
    card: Seq<char>,
    kind: Seq<char>,
    button: Seq<char>,
    perm: Seq<char>,
)
    requires
        a.state.selected_approval < a.state.approvals.len(),
        ({
            let ap = a.state.approvals[a.state.selected_approval as int];
            &&& ap.confirmation_mode != "remote_app"@
            &&& ap.rendered_surface is Some
            &&& ap.surface is Some
            &&& jget(ap.surface->0, "components"@) == Some(JsonV::Array(seq![card_with_button(card, kind, button, perm)]))
        }),
    ensures
        ({
            let ap = a.state.approvals[a.state.selected_approval as int];
            let surface = ap.surface->0;
            let steps = decide_v(a, "grant.approve"@).1.steps;
            &&& steps.len() == 4
            &&& steps[0] == request_step(
                crate::requests::a2ui_action_v(
                    a.state.account_id,
                    surface,
                    sfield(surface, "surface_id"@, ""@),
                    ap.rendered_surface->0.surface_hash,
                    button,
                    perm,
                    ap.id,
                ),
                ThenV::Ignore,
            )
            &&& step_method(steps[1]) == Some("grant.approve"@)
            &&& step_method(steps[3]) == Some("mcp.approval.list"@)
        }),
{
    law_action_search_goes_into_children(card, kind, button, perm, Seq::empty());
    assert(seq![card_with_button(card, kind, button, perm)] + Seq::<JsonV>::empty() =~= seq![card_with_button(card, kind, button, perm)]);
}

/// Loading the safety number of the selected contact (`S`), or marking it
/// verified (`V`), asks about that contact's target commitment: the request
/// names the contact's target as its `contact_identity_commitment`.
pub proof fn law_safety_request_names_target(a: AppV, c: char)
    requires
        a.state.input_mode == InputMode::Normal,
        a.state.selected_panel == Panel::Contacts,
        a.state.selected_contact < a.state.contacts.len(),
        c == 'S' || c == 'V',
    ensures
        ({
            let (a1, r) = handle_input_v(a, TuiInput::Char(c));
            let target = a.state.contacts[a.state.selected_contact as int].target;
            &&& a1 == a
            &&& r is Ok
            &&& r->Ok_0.steps.len() == 1
            &&& r->Ok_0.steps[0] matches StepV::Issue(EffectV::Request(q), ThenV::ContactSafety) && q.account_id
                == Some(a.state.account_id) && q.method == (if c == 'S' {
                "contact.safety_number"@
            } else {
                "contact.verify"@
            }) && jget(q.body, "contact_identity_commitment"@) == Some(js(target))
        }),
{
}

/// Each delivered envelope becomes a new message, after those listed, in
/// the order delivered: its id is the envelope's id and its sender the
/// envelope's source principal, when they are text, and it shows as a new
/// encrypted message, delivered.
pub proof fn law_delivered_envelope_fields(a: AppV, body: JsonV, method: Seq<char>, i: int)
    requires
        method == "gateway.deliver"@ || method == "conversation.updated"@,
        0 <= i < crate::json::jitems(jget(body, "entries"@)).len(),
    ensures
        ({
            let entry = crate::json::jitems(jget(body, "entries"@))[i];
            let ms = bus_event_v(a, method, body).0.state.messages;
            let n = a.state.messages.len();
            let m = ms[n + i];
            &&& ms.len() == n + crate::json::jitems(jget(body, "entries"@)).len()
            &&& ms.subrange(0, n as int) == a.state.messages
            &&& (jstr(crate::json::jget2(entry, "envelope"@, "source_principal_id"@)) matches Some(p) ==> m.sender == p)
            &&& (jstr(crate::json::jget2(entry, "envelope"@, "envelope_id"@)) matches Some(id) ==> m.id == id)
            &&& m.body == "[new encrypted message]"@
            &&& m.status == "delivered"@
        }),
{
    let rows = crate::app::event_rows_v(body);
    law_delivered_messages_appended(a.state, rows);
    let ms = bus_event_v(a, method, body).0.state.messages;
    assert(ms == a.state.messages + rows);
    assert(ms[a.state.messages.len() + i] == rows[i]);
    assert(ms.subrange(0, a.state.messages.len() as int) =~= a.state.messages);
}

/// The receipts of a listed message are read one for one, in order: a
/// receipt whose `device_id` and `state` are text keeps them.
pub proof fn law_receipts_read_one_for_one(response: JsonV, decoded: Seq<Option<Seq<char>>>, i: int, k: int)
    requires
        0 <= i < crate::json::jitems(jget(response, "messages"@)).len(),
        0 <= k < crate::json::jitems(jget(crate::json::jitems(jget(response, "messages"@))[i], "receipts"@)).len(),
    ensures
        ({
            let msg = crate::json::jitems(jget(response, "messages"@))[i];
            let rs = crate::json::jitems(jget(msg, "receipts"@));
            let row = crate::parsing::messages_v(response, decoded)[i];
            &&& row.receipts.len() == rs.len()
            &&& (jstr(jget(rs[k], "state"@)) matches Some(st) ==> row.receipts[k].state == st)
            &&& (jstr(jget(rs[k], "device_id"@)) matches Some(d) ==> row.receipts[k].device_id == d)
        }),
{
    let ms = crate::json::jitems(jget(response, "messages"@));
    let all = crate::parsing::messages_v(response, decoded);
    assert(all[i] == crate::parsing::stored_message_v(ms[i]));
}

/// The object command `status <id> <direction>` asks for the status of the
/// transfer of `<id>` in the direction typed; `status <id>` asks with no
/// direction.
pub proof fn law_status_command_direction(a: AppV, id: Seq<char>, dir: Seq<char>)
    ensures
        crate::text::words(a.state.input) == seq!["status"@, id, dir] ==> ({
            let r = object_command_v(a).1;
            &&& r is Ok
            &&& r->Ok_0.steps.len() == 1
            &&& r->Ok_0.steps[0] matches StepV::Issue(EffectV::Request(q), ThenV::Transfer)
                && q.method == "object.transfer.status"@ && q.account_id == Some(a.state.account_id)
                && jget(q.body, "object_id"@) == Some(js(id)) && jget(q.body, "direction"@) == Some(js(dir))
        }),
        crate::text::words(a.state.input) == seq!["status"@, id] ==> ({
            let r = object_command_v(a).1;
            &&& r is Ok
            &&& r->Ok_0.steps.len() == 1
            &&& r->Ok_0.steps[0] matches StepV::Issue(EffectV::Request(q), ThenV::Transfer)
                && q.method == "object.transfer.status"@ && jget(q.body, "object_id"@) == Some(js(id))
                && jget(q.body, "direction"@) == Some(JsonV::Null)
        }),
{
    reveal_strlit("status");
    reveal_strlit("put");
    reveal_strlit("get");
    reveal_strlit("object_id");
    reveal_strlit("direction");
    assert("status"@.len() == 6 && "put"@.len() == 3 && "get"@.len() == 3);
    assert("status"@ != "put"@ && "status"@ != "get"@);
    assert("object_id"@[0] != "direction"@[0]);
    assert("object_id"@ != "direction"@);
    reveal_with_fuel(crate::json::obj_lookup, 3);
    let w = crate::text::words(a.state.input);
    if w == seq!["status"@, id, dir] {
        assert(w.len() == 3 && w[0] == "status"@ && w[1] == id && w[2] == dir);
    }
    if w == seq!["status"@, id] {
        assert(w.len() == 2 && w[0] == "status"@ && w[1] == id);
    }
}


/// Each listed contact is read one for one, in order: its link, requester
/// and target commitments, state and verification state are the text of
/// `link_id`, `requester_id`, `target_id`, `state` and
/// `verification_state`, and its safety number the text items of
/// `safety_number`.
pub proof fn law_contacts_read_by_field(response: JsonV, i: int)
    requires
        0 <= i < crate::json::jitems(jget(response, "contacts"@)).len(),
    ensures
        ({
            let c = crate::json::jitems(jget(response, "contacts"@))[i];
            let rows = crate::parsing::contacts_v(response);
            let row = rows[i];
            &&& rows.len() == crate::json::jitems(jget(response, "contacts"@)).len()
            &&& (jstr(jget(c, "link_id"@)) matches Some(x) ==> row.link_id == x)
            &&& (jstr(jget(c, "requester_id"@)) matches Some(x) ==> row.requester == x)
            &&& (jstr(jget(c, "target_id"@)) matches Some(x) ==> row.target == x)
            &&& (jstr(jget(c, "state"@)) matches Some(x) ==> row.state == x)
            &&& (jstr(jget(c, "verification_state"@)) matches Some(x) ==> row.verification_state == x)
            &&& row.fingerprint_hex == jstr(jget(c, "fingerprint_hex"@))
            &&& row.safety_number == crate::json::str_items(crate::json::jitems(jget(c, "safety_number"@)))
        }),
{
}

/// Each listed group is read one for one: its id is the text of
/// `group_id`, its members the text items of `members`, its disappearing
/// time `disappearing_ttl_secs`, else `ttl_secs`, and its mute time
/// `mute_until`, each when it is an integer.
pub proof fn law_groups_read_by_field(response: JsonV, i: int)
    requires
        0 <= i < crate::json::jitems(jget(response, "groups"@)).len(),
    ensures
        ({
            let g = crate::json::jitems(jget(response, "groups"@))[i];
            let row = crate::parsing::groups_v(response)[i];
            &&& crate::parsing::groups_v(response).len() == crate::json::jitems(jget(response, "groups"@)).len()
            &&& (jstr(jget(g, "group_id"@)) matches Some(x) ==> row.id == x)
            &&& row.members == crate::json::str_items(crate::json::jitems(jget(g, "members"@)))
            &&& (jget(g, "disappearing_ttl_secs"@) is Some ==> row.disappearing_ttl_secs == crate::json::ji64(jget(g, "disappearing_ttl_secs"@)))
            &&& (jget(g, "disappearing_ttl_secs"@) is None ==> row.disappearing_ttl_secs == crate::json::ji64(jget(g, "ttl_secs"@)))
            &&& row.mute_until == crate::json::ji64(jget(g, "mute_until"@))
        }),
{
}

/// Each listed device is read one for one: its id and delivery target are
/// the text of `device_id` and `target_delivery_id`, its epoch
/// `device_epoch` (1 when absent) and whether it is this device `is_local`
/// (no when absent).
pub proof fn law_devices_read_by_field(response: JsonV, i: int)
    requires
        0 <= i < crate::json::jitems(jget(response, "devices"@)).len(),
    ensures
        ({
            let d = crate::json::jitems(jget(response, "devices"@))[i];
            let row = crate::parsing::devices_v(response)[i];
            &&& crate::parsing::devices_v(response).len() == crate::json::jitems(jget(response, "devices"@)).len()
            &&& (jstr(jget(d, "device_id"@)) matches Some(x) ==> row.device_id == x)
            &&& (jstr(jget(d, "target_delivery_id"@)) matches Some(x) ==> row.target_delivery_id == x)
            &&& (crate::json::ju64(jget(d, "device_epoch"@)) matches Some(x) ==> row.device_epoch == x)
            &&& (crate::json::ju64(jget(d, "device_epoch"@)) is None ==> row.device_epoch == 1)
            &&& (crate::json::jbool(jget(d, "is_local"@)) matches Some(x) ==> row.is_local == x)
            &&& (crate::json::jbool(jget(d, "is_local"@)) is None ==> !row.is_local)
        }),
{
}

/// A transfer response is read from its `transfer` member: the object id,
/// direction and state are its text members, the byte counts and percent
/// its integer members (0 when absent), and the last error its text
/// `last_error`; the relay settings are left for the client to fill in.
pub proof fn law_transfer_read_by_field(response: JsonV)
    ensures
        transfer_v(response) is Some == (jget(response, "transfer"@) is Some),
        jget(response, "transfer"@) matches Some(t) ==> ({
            let row = transfer_v(response)->0;
            &&& (jstr(jget(t, "object_id"@)) matches Some(x) ==> row.object_id == x)
            &&& (jstr(jget(t, "direction"@)) matches Some(x) ==> row.direction == x)
            &&& (jstr(jget(t, "state"@)) matches Some(x) ==> row.state == x)
            &&& (crate::json::ju64(jget(t, "done_bytes"@)) matches Some(x) ==> row.done_bytes == x)
            &&& (crate::json::ju64(jget(t, "total_bytes"@)) matches Some(x) ==> row.total_bytes == x)
            &&& (crate::json::ju64(jget(t, "percent"@)) matches Some(x) ==> (x <= u32::MAX ==> row.percent == x))
            &&& row.last_error == jstr(jget(t, "last_error"@))
            &&& row.relay_endpoint is None
            &&& row.relay_service_key_base64 is None
        }),
{
}

/// An approval is read from its members: id, risk, confirmation mode and
/// status are the text of `approval_id`, `risk_level`, `confirmation_mode`
/// (`remote_app` when absent) and `status`, and its tool is
/// `<server_id>/<tool_name>`.
pub proof fn law_approval_read_by_field(a: JsonV, surface: Option<(JsonV, Option<RenderedSurfaceV>)>)
    ensures
        ({
            let row = approval_v(a, surface);
            &&& (jstr(jget(a, "approval_id"@)) matches Some(x) ==> row.id == x)
            &&& (jstr(jget(a, "risk_level"@)) matches Some(x) ==> row.risk == x)
            &&& (jstr(jget(a, "confirmation_mode"@)) matches Some(x) ==> row.confirmation_mode == x && row.mode == x)
            &&& (jstr(jget(a, "confirmation_mode"@)) is None ==> row.confirmation_mode == "remote_app"@)
            &&& (jstr(jget(a, "status"@)) matches Some(x) ==> row.status == x)
            &&& (jstr(jget(a, "server_id"@)) matches Some(x) ==> jstr(jget(a, "tool_name"@)) matches Some(y)
                ==> row.tool == x + "/"@ + y)
            &&& (surface matches Some((sf, r)) ==> row.surface == Some(sf) && row.rendered_surface == r)
        }),
{
}

/// The messages of a `messages` projection are read one for one, in
/// order, before the decrypted ones: id, sender and body are the text of
/// `message_id`, `sender_id` and `body_utf8`, and each shows as sent.
pub proof fn law_stored_messages_read_by_field(response: JsonV, decoded: Seq<Option<Seq<char>>>, i: int)
    requires
        0 <= i < crate::json::jitems(jget(response, "messages"@)).len(),
    ensures
        ({
            let m = crate::json::jitems(jget(response, "messages"@))[i];
            let row = crate::parsing::messages_v(response, decoded)[i];
            &&& (jstr(jget(m, "message_id"@)) matches Some(x) ==> row.id == x)
            &&& (jstr(jget(m, "sender_id"@)) matches Some(x) ==> row.sender == x)
            &&& (jstr(jget(m, "body_utf8"@)) matches Some(x) ==> row.body == x)
            &&& row.status == "sent"@
        }),
{
    let ms = crate::json::jitems(jget(response, "messages"@));
    assert(crate::parsing::messages_v(response, decoded)[i] == crate::parsing::stored_message_v(ms[i]));
}

} // verus!
