//! The text of each panel, line by line, as the terminal front end draws it.

use vstd::prelude::*;
use crate::state::{
    views, InputMode, Panel, TuiState, TuiStateV, ConversationRowV, MessageRow, MessageRowV,
    ObjectTransferRowV, ContactRowV, DeviceRowV, GroupRowV, ApprovalRow, ApprovalRowV,
    AttachmentRowV, MessageReceiptRowV,
};
use crate::text::{cat, dec, dec_i, debug_opt_i64, join, join_strings, u64_to_string, opt_i64_debug, str_eq};

verus! {

pub open spec fn marker(i: int, selected: usize) -> Seq<char> {
    if i == selected {
        "> "@
    } else {
        "  "@
    }
}

pub open spec fn bool_text(b: bool) -> Seq<char> {
    if b {
        "true"@
    } else {
        "false"@
    }
}

pub open spec fn input_title_v(mode: InputMode) -> Seq<char> {
    match mode {
        InputMode::Compose => "Message input [COMPOSE]"@,
        InputMode::Normal => "Message input [NORMAL i=compose]"@,
    }
}

/// The title of the input box.
pub fn input_title(mode: InputMode) -> (r: &'static str)
    ensures
        r@ == input_title_v(mode),
{
    match mode {
        InputMode::Compose => "Message input [COMPOSE]",
        InputMode::Normal => "Message input [NORMAL i=compose]",
    }
}

pub open spec fn input_text_v(s: TuiStateV) -> Seq<char> {
    match s.status_message {
        Some(status) => s.input + "\n"@ + status,
        None => s.input,
    }
}

/// The text of the input box: the input, then the status line if any.
pub fn input_text(state: &TuiState) -> (r: String)
    ensures
        r@ == input_text_v(state@),
{
    match &state.status_message {
        Some(status) => {
            let mut s = state.input.clone();
            s.append("\n");
            s.append(status.as_str());
            s
        },
        None => state.input.clone(),
    }
}

fn marker_text(i: usize, selected: usize) -> (r: &'static str)
    ensures
        r@ == marker(i as int, selected),
{
    if i == selected {
        "> "
    } else {
        "  "
    }
}

fn bool_str(b: bool) -> (r: &'static str)
    ensures
        r@ == bool_text(b),
{
    if b {
        "true"
    } else {
        "false"
    }
}

pub open spec fn conversation_line_v(row: ConversationRowV, i: int, selected: usize) -> Seq<char> {
    marker(i, selected) + row.title + "  "@ + row.last_message + "  unread="@ + dec(
        row.unread as nat,
    ) + " "@ + row.status
}

pub open spec fn conversation_lines_v(s: TuiStateV) -> Seq<Seq<char>> {
    Seq::new(
        s.conversations.len(),
        |i: int| conversation_line_v(s.conversations[i], i, s.selected_conversation),
    )
}

/// One line per conversation.
pub fn conversation_lines(state: &TuiState) -> (r: Vec<String>)
    ensures
        views(r@) == conversation_lines_v(state@),
{
    let mut out: Vec<String> = Vec::new();
    let mut i: usize = 0;
    while i < state.conversations.len()
        invariant
            0 <= i <= state.conversations.len(),
            out.len() == i,
            forall|j: int|
                0 <= j < i ==> #[trigger] out@[j]@ == conversation_line_v(
                    state.conversations@[j]@,
                    j,
                    state.selected_conversation,
                ),
        decreases state.conversations.len() - i,
    {
        let row = &state.conversations[i];
        let mut s = marker_text(i, state.selected_conversation).to_owned();
        s.append(row.title.as_str());
        s.append("  ");
        s.append(row.last_message.as_str());
        s.append("  unread=");
        let n = u64_to_string(row.unread as u64);
        s.append(n.as_str());
        s.append(" ");
        s.append(row.status.as_str());
        out.push(s);
        i = i + 1;
    }
    assert(views(out@) =~= conversation_lines_v(state@));
    out
}

pub open spec fn attachment_summary_v(a: AttachmentRowV) -> Seq<char> {
    a.object_id + ":"@ + a.status
}

pub open spec fn receipt_summary_v(r: MessageReceiptRowV) -> Seq<char> {
    r.device_id + ":"@ + r.state
}

pub open spec fn message_suffix_v(m: MessageRowV) -> Seq<char> {
    (if m.attachments.len() > 0 {
        " attachments=["@ + join(
            m.attachments.map_values(|a: AttachmentRowV| attachment_summary_v(a)),
            ","@,
        ) + "]"@
    } else {
        Seq::empty()
    }) + (if m.receipts.len() > 0 {
        " receipts=["@ + join(
            m.receipts.map_values(|r: MessageReceiptRowV| receipt_summary_v(r)),
            ","@,
        ) + "]"@
    } else {
        Seq::empty()
    })
}

/// Attachment and receipt summaries shown after a message.
pub fn message_suffix(message: &MessageRow) -> (r: String)
    ensures
        r@ == message_suffix_v(message@),
{
    let mut suffix = String::new();
    if message.attachments.len() > 0 {
        let mut parts: Vec<String> = Vec::new();
        let mut i: usize = 0;
        while i < message.attachments.len()
            invariant
                0 <= i <= message.attachments.len(),
                parts.len() == i,
                forall|j: int|
                    0 <= j < i ==> #[trigger] parts@[j]@ == attachment_summary_v(
                        message.attachments@[j]@,
                    ),
            decreases message.attachments.len() - i,
        {
            let a = &message.attachments[i];
            let mut p = a.object_id.clone();
            p.append(":");
            p.append(a.status.as_str());
            parts.push(p);
            i = i + 1;
        }
        assert(parts@.map_values(|s: String| s@) =~= message@.attachments.map_values(
            |a: AttachmentRowV| attachment_summary_v(a),
        ));
        let joined = join_strings(&parts, ",");
        suffix.append(" attachments=[");
        suffix.append(joined.as_str());
        suffix.append("]");
    }
    let ghost first = suffix@;
    if message.receipts.len() > 0 {
        let mut parts: Vec<String> = Vec::new();
        let mut i: usize = 0;
        while i < message.receipts.len()
            invariant
                0 <= i <= message.receipts.len(),
                parts.len() == i,
                forall|j: int|
                    0 <= j < i ==> #[trigger] parts@[j]@ == receipt_summary_v(message.receipts@[j]@),
            decreases message.receipts.len() - i,
        {
            let r = &message.receipts[i];
            let mut p = r.device_id.clone();
            p.append(":");
            p.append(r.state.as_str());
            parts.push(p);
            i = i + 1;
        }
        assert(parts@.map_values(|s: String| s@) =~= message@.receipts.map_values(
            |r: MessageReceiptRowV| receipt_summary_v(r),
        ));
        let joined = join_strings(&parts, ",");
        suffix.append(" receipts=[");
        suffix.append(joined.as_str());
        suffix.append("]");
    }
    assert(suffix@ =~= message_suffix_v(message@));
    suffix
}

pub open spec fn message_line_v(m: MessageRowV, i: int, selected: usize) -> Seq<char> {
    marker(i, selected) + m.id + " "@ + m.sender + ": "@ + m.body + " ("@ + m.status + ")"@
        + message_suffix_v(m)
}

pub open spec fn message_lines_v(s: TuiStateV) -> Seq<Seq<char>> {
    Seq::new(s.messages.len(), |i: int| message_line_v(s.messages[i], i, s.selected_message))
}

/// One line per message.
pub fn message_lines(state: &TuiState) -> (r: Vec<String>)
    ensures
        views(r@) == message_lines_v(state@),
{
    let mut out: Vec<String> = Vec::new();
    let mut i: usize = 0;
    while i < state.messages.len()
        invariant
            0 <= i <= state.messages.len(),
            out.len() == i,
            forall|j: int|
                0 <= j < i ==> #[trigger] out@[j]@ == message_line_v(
                    state.messages@[j]@,
                    j,
                    state.selected_message,
                ),
        decreases state.messages.len() - i,
    {
        let m = &state.messages[i];
        let mut s = marker_text(i, state.selected_message).to_owned();
        s.append(m.id.as_str());
        s.append(" ");
        s.append(m.sender.as_str());
        s.append(": ");
        s.append(m.body.as_str());
        s.append(" (");
        s.append(m.status.as_str());
        s.append(")");
        let suffix = message_suffix(m);
        s.append(suffix.as_str());
        out.push(s);
        i = i + 1;
    }
    assert(views(out@) =~= message_lines_v(state@));
    out
}

pub open spec fn object_line_v(t: ObjectTransferRowV, i: int, selected: usize) -> Seq<char> {
    marker(i, selected) + t.object_id + " "@ + t.direction + " "@ + t.state + " "@ + dec(
        t.done_bytes as nat,
    ) + "/"@ + dec(t.total_bytes as nat) + " "@ + dec(t.percent as nat) + "%"@ + match t.last_error {
        Some(e) => " error="@ + e,
        None => Seq::empty(),
    }
}

pub open spec fn object_lines_v(s: TuiStateV) -> Seq<Seq<char>> {
    Seq::new(
        s.object_transfers.len(),
        |i: int| object_line_v(s.object_transfers[i], i, s.selected_object_transfer),
    )
}

/// One line per object transfer.
pub fn object_lines(state: &TuiState) -> (r: Vec<String>)
    ensures
        views(r@) == object_lines_v(state@),
{
    let mut out: Vec<String> = Vec::new();
    let mut i: usize = 0;
    while i < state.object_transfers.len()
        invariant
            0 <= i <= state.object_transfers.len(),
            out.len() == i,
            forall|j: int|
                0 <= j < i ==> #[trigger] out@[j]@ == object_line_v(
                    state.object_transfers@[j]@,
                    j,
                    state.selected_object_transfer,
                ),
        decreases state.object_transfers.len() - i,
    {
        let t = &state.object_transfers[i];
        let mut s = marker_text(i, state.selected_object_transfer).to_owned();
        s.append(t.object_id.as_str());
        s.append(" ");
        s.append(t.direction.as_str());
        s.append(" ");
        s.append(t.state.as_str());
        s.append(" ");
        let done = u64_to_string(t.done_bytes);
        s.append(done.as_str());
        s.append("/");
        let total = u64_to_string(t.total_bytes);
        s.append(total.as_str());
        s.append(" ");
        let pct = u64_to_string(t.percent as u64);
        s.append(pct.as_str());
        s.append("%");
        match &t.last_error {
            Some(e) => {
                s.append(" error=");
                s.append(e.as_str());
            },
            None => {},
        }
        out.push(s);
        i = i + 1;
    }
    assert(views(out@) =~= object_lines_v(state@));
    out
}

pub open spec fn contact_line_v(c: ContactRowV, i: int, selected: usize) -> Seq<char> {
    marker(i, selected) + c.link_id + " "@ + c.requester + " -> "@ + c.target + " "@ + c.state
        + " verify="@ + c.verification_state + " fp="@ + match c.fingerprint_hex {
        Some(f) => f,
        None => "-"@,
    } + " sn="@ + if c.safety_number.len() == 0 {
        "-"@
    } else {
        join(c.safety_number, " "@)
    }
}

pub open spec fn device_line_v(d: DeviceRowV) -> Seq<char> {
    (if d.is_local {
        "* "@
    } else {
        "  "@
    }) + "device "@ + d.device_id + " epoch="@ + dec(d.device_epoch as nat) + " target="@
        + d.target_delivery_id
}

pub open spec fn contact_lines_v(s: TuiStateV) -> Seq<Seq<char>> {
    Seq::new(s.contacts.len(), |i: int| contact_line_v(s.contacts[i], i, s.selected_contact))
        + s.devices.map_values(|d: DeviceRowV| device_line_v(d))
}

/// One line per contact, then one per device.
pub fn contact_lines(state: &TuiState) -> (r: Vec<String>)
    ensures
        views(r@) == contact_lines_v(state@),
{
    let mut out: Vec<String> = Vec::new();
    let mut i: usize = 0;
    while i < state.contacts.len()
        invariant
            0 <= i <= state.contacts.len(),
            out.len() == i,
            forall|j: int|
                0 <= j < i ==> #[trigger] out@[j]@ == contact_line_v(
                    state.contacts@[j]@,
                    j,
                    state.selected_contact,
                ),
        decreases state.contacts.len() - i,
    {
        let c = &state.contacts[i];
        let mut s = marker_text(i, state.selected_contact).to_owned();
        s.append(c.link_id.as_str());
        s.append(" ");
        s.append(c.requester.as_str());
        s.append(" -> ");
        s.append(c.target.as_str());
        s.append(" ");
        s.append(c.state.as_str());
        s.append(" verify=");
        s.append(c.verification_state.as_str());
        s.append(" fp=");
        match &c.fingerprint_hex {
            Some(f) => s.append(f.as_str()),
            None => s.append("-"),
        }
        s.append(" sn=");
        if c.safety_number.len() == 0 {
            s.append("-");
        } else {
            let j = join_strings(&c.safety_number, " ");
            s.append(j.as_str());
        }
        out.push(s);
        i = i + 1;
    }
    let n = out.len();
    let mut k: usize = 0;
    while k < state.devices.len()
        invariant
            0 <= k <= state.devices.len(),
            n == state.contacts.len(),
            out.len() == n + k,
            forall|j: int|
                0 <= j < n ==> #[trigger] out@[j]@ == contact_line_v(
                    state.contacts@[j]@,
                    j,
                    state.selected_contact,
                ),
            forall|j: int| 0 <= j < k ==> #[trigger] out@[n + j]@ == device_line_v(state.devices@[j]@),
        decreases state.devices.len() - k,
    {
        let d = &state.devices[k];
        let mut s = if d.is_local {
            "* ".to_owned()
        } else {
            "  ".to_owned()
        };
        s.append("device ");
        s.append(d.device_id.as_str());
        s.append(" epoch=");
        let e = u64_to_string(d.device_epoch);
        s.append(e.as_str());
        s.append(" target=");
        s.append(d.target_delivery_id.as_str());
        out.push(s);
        assert(out@[n + k as int]@ == device_line_v(state.devices@[k as int]@));
        k = k + 1;
    }
    assert(views(out@) =~= contact_lines_v(state@)) by {
        assert forall|j: int| 0 <= j < out.len() implies views(out@)[j] == contact_lines_v(state@)[j] by {
            if j >= n {
                assert(out@[n + (j - n)]@ == device_line_v(state.devices@[j - n]@));
            }
        }
    }
    out
}

pub open spec fn group_line_v(g: GroupRowV, i: int, selected: usize) -> Seq<char> {
    marker(i, selected) + g.id + " members="@ + join(g.members, ","@) + " disappearing="@
        + debug_opt_i64(g.disappearing_ttl_secs) + " mute_until="@ + debug_opt_i64(g.mute_until)
}

pub open spec fn group_lines_v(s: TuiStateV) -> Seq<Seq<char>> {
    Seq::new(s.groups.len(), |i: int| group_line_v(s.groups[i], i, s.selected_group))
}

/// One line per group.
pub fn group_lines(state: &TuiState) -> (r: Vec<String>)
    ensures
        views(r@) == group_lines_v(state@),
{
    let mut out: Vec<String> = Vec::new();
    let mut i: usize = 0;
    while i < state.groups.len()
        invariant
            0 <= i <= state.groups.len(),
            out.len() == i,
            forall|j: int|
                0 <= j < i ==> #[trigger] out@[j]@ == group_line_v(
                    state.groups@[j]@,
                    j,
                    state.selected_group,
                ),
        decreases state.groups.len() - i,
    {
        let g = &state.groups[i];
        let mut s = marker_text(i, state.selected_group).to_owned();
        s.append(g.id.as_str());
        s.append(" members=");
        let m = join_strings(&g.members, ",");
        s.append(m.as_str());
        s.append(" disappearing=");
        let d = opt_i64_debug(g.disappearing_ttl_secs);
        s.append(d.as_str());
        s.append(" mute_until=");
        let mu = opt_i64_debug(g.mute_until);
        s.append(mu.as_str());
        out.push(s);
        i = i + 1;
    }
    assert(views(out@) =~= group_lines_v(state@));
    out
}

pub open spec fn approval_hint_v(a: ApprovalRowV) -> Seq<char> {
    if a.confirmation_mode == "remote_app"@ {
        "remote_app: 需 App 签名"@
    } else {
        "a=approve"@
    }
}

/// The action hint of an approval: remote-app approvals are signed on the App.
pub fn approval_action_hint(item: &ApprovalRow) -> (r: &'static str)
    ensures
        r@ == approval_hint_v(item@),
{
    if str_eq(item.confirmation_mode.as_str(), "remote_app") {
        "remote_app: 需 App 签名"
    } else {
        "a=approve"
    }
}

pub open spec fn a2ui_suffix_v(a: ApprovalRowV) -> Seq<char> {
    match a.rendered_surface {
        Some(r) => " a2ui_hash="@ + r.surface_hash + " fallback="@ + bool_text(r.fallback_used) + " "@
            + r.semantic_snapshot,
        None => Seq::empty(),
    }
}

/// The rendered-surface summary shown after an approval.
pub fn approval_a2ui_suffix(item: &ApprovalRow) -> (r: String)
    ensures
        r@ == a2ui_suffix_v(item@),
{
    match &item.rendered_surface {
        Some(rendered) => {
            let mut s = " a2ui_hash=".to_owned();
            s.append(rendered.surface_hash.as_str());
            s.append(" fallback=");
            s.append(bool_str(rendered.fallback_used));
            s.append(" ");
            s.append(rendered.semantic_snapshot.as_str());
            s
        },
        None => String::new(),
    }
}

pub open spec fn approval_line_v(a: ApprovalRowV, i: int, selected: usize) -> Seq<char> {
    marker(i, selected) + a.id + " "@ + a.tool + " risk="@ + a.risk + " mode="@ + a.confirmation_mode
        + " "@ + a.status + " "@ + approval_hint_v(a) + a2ui_suffix_v(a)
}

pub open spec fn approval_lines_v(s: TuiStateV) -> Seq<Seq<char>> {
    Seq::new(s.approvals.len(), |i: int| approval_line_v(s.approvals[i], i, s.selected_approval))
}

/// One line per approval.
pub fn approval_lines(state: &TuiState) -> (r: Vec<String>)
    ensures
        views(r@) == approval_lines_v(state@),
{
    let mut out: Vec<String> = Vec::new();
    let mut i: usize = 0;
    while i < state.approvals.len()
        invariant
            0 <= i <= state.approvals.len(),
            out.len() == i,
            forall|j: int|
                0 <= j < i ==> #[trigger] out@[j]@ == approval_line_v(
                    state.approvals@[j]@,
                    j,
                    state.selected_approval,
                ),
        decreases state.approvals.len() - i,
    {
        let a = &state.approvals[i];
        let mut s = marker_text(i, state.selected_approval).to_owned();
        s.append(a.id.as_str());
        s.append(" ");
        s.append(a.tool.as_str());
        s.append(" risk=");
        s.append(a.risk.as_str());
        s.append(" mode=");
        s.append(a.confirmation_mode.as_str());
        s.append(" ");
        s.append(a.status.as_str());
        s.append(" ");
        s.append(approval_action_hint(a));
        let suffix = approval_a2ui_suffix(a);
        s.append(suffix.as_str());
        out.push(s);
        i = i + 1;
    }
    assert(views(out@) =~= approval_lines_v(state@));
    out
}

pub open spec fn panel_lines_v(s: TuiStateV) -> Seq<Seq<char>> {
    match s.selected_panel {
        Panel::Conversations => conversation_lines_v(s),
        Panel::Messages => message_lines_v(s),
        Panel::Objects => object_lines_v(s),
        Panel::Contacts => contact_lines_v(s),
        Panel::Groups => group_lines_v(s),
        Panel::Approvals => approval_lines_v(s),
    }
}

/// The lines of the selected panel's body.
pub fn panel_lines(state: &TuiState) -> (r: Vec<String>)
    ensures
        views(r@) == panel_lines_v(state@),
{
    match state.selected_panel {
        Panel::Conversations => conversation_lines(state),
        Panel::Messages => message_lines(state),
        Panel::Objects => object_lines(state),
        Panel::Contacts => contact_lines(state),
        Panel::Groups => group_lines(state),
        Panel::Approvals => approval_lines(state),
    }
}

pub open spec fn panel_heading_v(p: Panel) -> Seq<char> {
    match p {
        Panel::Conversations => "Conversations"@,
        Panel::Messages => "Messages  /attach <path> l=delivered r=read x=delete"@,
        Panel::Objects => "Objects  put/get/status/resume commands  s=status r=resume"@,
        Panel::Contacts => "Contacts/Devices  add/switch/accept + Enter  S=safety V=verify"@,
        Panel::Groups => "Groups  m=mute u=unmute e=disappearing"@,
        Panel::Approvals => "Approvals  a=approve d=deny"@,
    }
}

/// The heading of a panel's body, naming its keys.
pub fn panel_heading(p: Panel) -> (r: &'static str)
    ensures
        r@ == panel_heading_v(p),
{
    match p {
        Panel::Conversations => "Conversations",
        Panel::Messages => "Messages  /attach <path> l=delivered r=read x=delete",
        Panel::Objects => "Objects  put/get/status/resume commands  s=status r=resume",
        Panel::Contacts => "Contacts/Devices  add/switch/accept + Enter  S=safety V=verify",
        Panel::Groups => "Groups  m=mute u=unmute e=disappearing",
        Panel::Approvals => "Approvals  a=approve d=deny",
    }
}

} // verus!
