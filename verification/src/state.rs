//! The view model: panels, inputs, rows and the whole client state.

use vstd::prelude::*;
use crate::json::{Json, JsonV};

verus! {

/// Account used when none is given.
pub const DEFAULT_ACCOUNT_ID: &'static str = "default";

/// Conversation used when none is selected.
pub const DEFAULT_CONVERSATION_ID: &'static str = "conv_tui_default";

/// Delivery target used when the selected conversation names none.
pub const DEFAULT_TARGET_DELIVERY_ID: &'static str = "target_tui_default";

pub open spec fn views<T: View>(s: Seq<T>) -> Seq<T::V> {
    s.map_values(|x: T| x@)
}

pub proof fn lemma_views_push<T: View>(s: Seq<T>, x: T)
    ensures
        views(s.push(x)) == views(s).push(x@),
{
    assert(views(s.push(x)) =~= views(s).push(x@));
}

pub proof fn lemma_views_update<T: View>(s: Seq<T>, i: int, x: T)
    requires
        0 <= i < s.len(),
    ensures
        views(s.update(i, x)) == views(s).update(i, x@),
{
    assert(views(s.update(i, x)) =~= views(s).update(i, x@));
}

/// Replaces the element at `i`, handing back the one it replaced.
pub fn replace_at<T>(v: &mut Vec<T>, i: usize, x: T) -> (r: T)
    requires
        i < old(v).len(),
    ensures
        final(v)@ == old(v)@.update(i as int, x),
        r == old(v)@[i as int],
{
    let r = v.remove(i);
    v.insert(i, x);
    assert(final(v)@ =~= old(v)@.update(i as int, x));
    r
}

pub open spec fn opt_view<T: View>(o: Option<T>) -> Option<T::V> {
    match o {
        Some(x) => Some(x@),
        None => None,
    }
}

/// Top-level panel.
#[derive(Clone, Copy, Debug, PartialEq, Eq, Structural)]
pub enum Panel {
    Conversations,
    Messages,
    Objects,
    Contacts,
    Groups,
    Approvals,
}

pub open spec fn panel_index(p: Panel) -> nat {
    match p {
        Panel::Conversations => 0,
        Panel::Messages => 1,
        Panel::Objects => 2,
        Panel::Contacts => 3,
        Panel::Groups => 4,
        Panel::Approvals => 5,
    }
}

pub open spec fn panel_at(i: nat) -> Panel {
    if i == 0 {
        Panel::Conversations
    } else if i == 1 {
        Panel::Messages
    } else if i == 2 {
        Panel::Objects
    } else if i == 3 {
        Panel::Contacts
    } else if i == 4 {
        Panel::Groups
    } else {
        Panel::Approvals
    }
}

pub open spec fn panel_title(p: Panel) -> Seq<char> {
    match p {
        Panel::Conversations => "Conversations"@,
        Panel::Messages => "Messages"@,
        Panel::Objects => "Objects"@,
        Panel::Contacts => "Contacts"@,
        Panel::Groups => "Groups"@,
        Panel::Approvals => "Approvals"@,
    }
}

/// The panel that Tab moves to: the tabs in order, wrapping round.
pub open spec fn panel_next(p: Panel) -> Panel {
    panel_at((panel_index(p) + 1) % 6)
}

impl Panel {
    pub fn title(self) -> (r: &'static str)
        ensures
            r@ == panel_title(self),
    {
        match self {
            Panel::Conversations => "Conversations",
            Panel::Messages => "Messages",
            Panel::Objects => "Objects",
            Panel::Contacts => "Contacts",
            Panel::Groups => "Groups",
            Panel::Approvals => "Approvals",
        }
    }

    pub fn next(self) -> (r: Panel)
        ensures
            r == panel_next(self),
    {
        match self {
            Panel::Conversations => Panel::Messages,
            Panel::Messages => Panel::Objects,
            Panel::Objects => Panel::Contacts,
            Panel::Contacts => Panel::Groups,
            Panel::Groups => Panel::Approvals,
            Panel::Approvals => Panel::Conversations,
        }
    }

    pub fn index(self) -> (r: usize)
        ensures
            r == panel_index(self),
    {
        match self {
            Panel::Conversations => 0,
            Panel::Messages => 1,
            Panel::Objects => 2,
            Panel::Contacts => 3,
            Panel::Groups => 4,
            Panel::Approvals => 5,
        }
    }
}

/// Input events handled by the client.
#[derive(Clone, Copy, Debug, PartialEq, Eq, Structural)]
pub enum TuiInput {
    Tab,
    Up,
    Down,
    Enter,
    EnterCompose,
    ExitCompose,
    Char(char),
    Backspace,
    Quit,
}

/// Input handling mode of the message composer.
#[derive(Clone, Copy, Debug, PartialEq, Eq, Structural)]
pub enum InputMode {
    Normal,
    Compose,
}

/// A terminal key, as far as the client tells keys apart.
#[derive(Clone, Copy, Debug, PartialEq, Eq, Structural)]
pub enum KeyCode {
    Tab,
    Up,
    Down,
    Enter,
    Esc,
    Backspace,
    Char(char),
    Other,
}

pub open spec fn spec_key_to_input(code: KeyCode) -> Option<TuiInput> {
    match code {
        KeyCode::Tab => Some(TuiInput::Tab),
        KeyCode::Up => Some(TuiInput::Up),
        KeyCode::Down => Some(TuiInput::Down),
        KeyCode::Enter => Some(TuiInput::Enter),
        KeyCode::Esc => Some(TuiInput::ExitCompose),
        KeyCode::Backspace => Some(TuiInput::Backspace),
        KeyCode::Char(c) => if c == 'q' {
            Some(TuiInput::Quit)
        } else if c == 'i' {
            Some(TuiInput::EnterCompose)
        } else {
            Some(TuiInput::Char(c))
        },
        KeyCode::Other => None,
    }
}

/// Converts one terminal key into an input event.
pub fn key_to_input(code: KeyCode) -> (r: Option<TuiInput>)
    ensures
        r == spec_key_to_input(code),
{
    match code {
        KeyCode::Tab => Some(TuiInput::Tab),
        KeyCode::Up => Some(TuiInput::Up),
        KeyCode::Down => Some(TuiInput::Down),
        KeyCode::Enter => Some(TuiInput::Enter),
        KeyCode::Esc => Some(TuiInput::ExitCompose),
        KeyCode::Backspace => Some(TuiInput::Backspace),
        KeyCode::Char('q') => Some(TuiInput::Quit),
        KeyCode::Char('i') => Some(TuiInput::EnterCompose),
        KeyCode::Char(value) => Some(TuiInput::Char(value)),
        KeyCode::Other => None,
    }
}

/// Conversation list row.
#[derive(Clone, Debug, PartialEq, Eq)]
pub struct ConversationRow {
    pub id: String,
    pub title: String,
    pub last_message: String,
    pub unread: usize,
    pub status: String,
    pub recipient_device_id: Option<String>,
    pub target_delivery_id: Option<String>,
}

pub struct ConversationRowV {
    pub id: Seq<char>,
    pub title: Seq<char>,
    pub last_message: Seq<char>,
    pub unread: usize,
    pub status: Seq<char>,
    pub recipient_device_id: Option<Seq<char>>,
    pub target_delivery_id: Option<Seq<char>>,
}

impl View for ConversationRow {
    type V = ConversationRowV;

    open spec fn view(&self) -> ConversationRowV {
        ConversationRowV {
            id: self.id@,
            title: self.title@,
            last_message: self.last_message@,
            unread: self.unread,
            status: self.status@,
            recipient_device_id: opt_view(self.recipient_device_id),
            target_delivery_id: opt_view(self.target_delivery_id),
        }
    }
}

/// Attachment row shown in the message and object surfaces.
#[derive(Clone, Debug, PartialEq, Eq)]
pub struct AttachmentRow {
    pub message_id: String,
    pub object_id: String,
    pub status: String,
    pub plaintext_base64: Option<String>,
}

pub struct AttachmentRowV {
    pub message_id: Seq<char>,
    pub object_id: Seq<char>,
    pub status: Seq<char>,
    pub plaintext_base64: Option<Seq<char>>,
}

impl View for AttachmentRow {
    type V = AttachmentRowV;

    open spec fn view(&self) -> AttachmentRowV {
        AttachmentRowV {
            message_id: self.message_id@,
            object_id: self.object_id@,
            status: self.status@,
            plaintext_base64: opt_view(self.plaintext_base64),
        }
    }
}

/// Per-peer receipt of a message.
#[derive(Clone, Debug, PartialEq, Eq)]
pub struct MessageReceiptRow {
    pub device_id: String,
    pub state: String,
}

pub struct MessageReceiptRowV {
    pub device_id: Seq<char>,
    pub state: Seq<char>,
}

impl View for MessageReceiptRow {
    type V = MessageReceiptRowV;

    open spec fn view(&self) -> MessageReceiptRowV {
        MessageReceiptRowV { device_id: self.device_id@, state: self.state@ }
    }
}

/// Message row.
#[derive(Clone, Debug, PartialEq, Eq)]
pub struct MessageRow {
    pub id: String,
    pub sender: String,
    pub body: String,
    pub status: String,
    pub attachments: Vec<AttachmentRow>,
    pub receipts: Vec<MessageReceiptRow>,
}

pub struct MessageRowV {
    pub id: Seq<char>,
    pub sender: Seq<char>,
    pub body: Seq<char>,
    pub status: Seq<char>,
    pub attachments: Seq<AttachmentRowV>,
    pub receipts: Seq<MessageReceiptRowV>,
}

impl View for MessageRow {
    type V = MessageRowV;

    open spec fn view(&self) -> MessageRowV {
        MessageRowV {
            id: self.id@,
            sender: self.sender@,
            body: self.body@,
            status: self.status@,
            attachments: views(self.attachments@),
            receipts: views(self.receipts@),
        }
    }
}

/// Transfer row shown in the object panel.
#[derive(Clone, Debug, PartialEq, Eq)]
pub struct ObjectTransferRow {
    pub object_id: String,
    pub direction: String,
    pub state: String,
    pub done_bytes: u64,
    pub total_bytes: u64,
    pub percent: u32,
    pub last_error: Option<String>,
    pub relay_endpoint: Option<String>,
    pub relay_service_key_base64: Option<String>,
}

pub struct ObjectTransferRowV {
    pub object_id: Seq<char>,
    pub direction: Seq<char>,
    pub state: Seq<char>,
    pub done_bytes: u64,
    pub total_bytes: u64,
    pub percent: u32,
    pub last_error: Option<Seq<char>>,
    pub relay_endpoint: Option<Seq<char>>,
    pub relay_service_key_base64: Option<Seq<char>>,
}

impl View for ObjectTransferRow {
    type V = ObjectTransferRowV;

    open spec fn view(&self) -> ObjectTransferRowV {
        ObjectTransferRowV {
            object_id: self.object_id@,
            direction: self.direction@,
            state: self.state@,
            done_bytes: self.done_bytes,
            total_bytes: self.total_bytes,
            percent: self.percent,
            last_error: opt_view(self.last_error),
            relay_endpoint: opt_view(self.relay_endpoint),
            relay_service_key_base64: opt_view(self.relay_service_key_base64),
        }
    }
}

/// Attachment queued for the next direct message.
#[derive(Clone, Debug, PartialEq, Eq)]
pub struct PendingAttachment {
    pub object_id: String,
    pub plaintext_base64: String,
    pub chunk_size: usize,
    pub relay_endpoint: String,
    pub relay_service_key_base64: Option<String>,
}

pub struct PendingAttachmentV {
    pub object_id: Seq<char>,
    pub plaintext_base64: Seq<char>,
    pub chunk_size: usize,
    pub relay_endpoint: Seq<char>,
    pub relay_service_key_base64: Option<Seq<char>>,
}

impl View for PendingAttachment {
    type V = PendingAttachmentV;

    open spec fn view(&self) -> PendingAttachmentV {
        PendingAttachmentV {
            object_id: self.object_id@,
            plaintext_base64: self.plaintext_base64@,
            chunk_size: self.chunk_size,
            relay_endpoint: self.relay_endpoint@,
            relay_service_key_base64: opt_view(self.relay_service_key_base64),
        }
    }
}

/// Contact row.
#[derive(Clone, Debug, PartialEq, Eq)]
pub struct ContactRow {
    pub link_id: String,
    pub requester: String,
    pub target: String,
    pub state: String,
    pub safety_number: Vec<String>,
    pub fingerprint_hex: Option<String>,
    pub verification_state: String,
}

pub struct ContactRowV {
    pub link_id: Seq<char>,
    pub requester: Seq<char>,
    pub target: Seq<char>,
    pub state: Seq<char>,
    pub safety_number: Seq<Seq<char>>,
    pub fingerprint_hex: Option<Seq<char>>,
    pub verification_state: Seq<char>,
}

impl View for ContactRow {
    type V = ContactRowV;

    open spec fn view(&self) -> ContactRowV {
        ContactRowV {
            link_id: self.link_id@,
            requester: self.requester@,
            target: self.target@,
            state: self.state@,
            safety_number: views(self.safety_number@),
            fingerprint_hex: opt_view(self.fingerprint_hex),
            verification_state: self.verification_state@,
        }
    }
}

/// Local account device row.
#[derive(Clone, Debug, PartialEq, Eq)]
pub struct DeviceRow {
    pub device_id: String,
    pub device_epoch: u64,
    pub target_delivery_id: String,
    pub is_local: bool,
}

pub struct DeviceRowV {
    pub device_id: Seq<char>,
    pub device_epoch: u64,
    pub target_delivery_id: Seq<char>,
    pub is_local: bool,
}

impl View for DeviceRow {
    type V = DeviceRowV;

    open spec fn view(&self) -> DeviceRowV {
        DeviceRowV {
            device_id: self.device_id@,
            device_epoch: self.device_epoch,
            target_delivery_id: self.target_delivery_id@,
            is_local: self.is_local,
        }
    }
}

/// Group row.
#[derive(Clone, Debug, PartialEq, Eq)]
pub struct GroupRow {
    pub id: String,
    pub members: Vec<String>,
    pub disappearing_ttl_secs: Option<i64>,
    pub mute_until: Option<i64>,
}

pub struct GroupRowV {
    pub id: Seq<char>,
    pub members: Seq<Seq<char>>,
    pub disappearing_ttl_secs: Option<i64>,
    pub mute_until: Option<i64>,
}

impl View for GroupRow {
    type V = GroupRowV;

    open spec fn view(&self) -> GroupRowV {
        GroupRowV {
            id: self.id@,
            members: views(self.members@),
            disappearing_ttl_secs: self.disappearing_ttl_secs,
            mute_until: self.mute_until,
        }
    }
}

/// What rendering an approval surface yields.
#[derive(Clone, Debug, PartialEq, Eq)]
pub struct RenderedSurface {
    pub surface_hash: String,
    pub fallback_used: bool,
    pub semantic_snapshot: String,
}

pub struct RenderedSurfaceV {
    pub surface_hash: Seq<char>,
    pub fallback_used: bool,
    pub semantic_snapshot: Seq<char>,
}

impl View for RenderedSurface {
    type V = RenderedSurfaceV;

    open spec fn view(&self) -> RenderedSurfaceV {
        RenderedSurfaceV {
            surface_hash: self.surface_hash@,
            fallback_used: self.fallback_used,
            semantic_snapshot: self.semantic_snapshot@,
        }
    }
}

/// Pending approval row. `surface` is the approval's surface document in the
/// normal form that the surface renderer reads it in.
#[derive(Debug)]
pub struct ApprovalRow {
    pub id: String,
    pub tool: String,
    pub risk: String,
    pub mode: String,
    pub confirmation_mode: String,
    pub status: String,
    pub surface: Option<Json>,
    pub rendered_surface: Option<RenderedSurface>,
}

pub struct ApprovalRowV {
    pub id: Seq<char>,
    pub tool: Seq<char>,
    pub risk: Seq<char>,
    pub mode: Seq<char>,
    pub confirmation_mode: Seq<char>,
    pub status: Seq<char>,
    pub surface: Option<JsonV>,
    pub rendered_surface: Option<RenderedSurfaceV>,
}

impl View for ApprovalRow {
    type V = ApprovalRowV;

    open spec fn view(&self) -> ApprovalRowV {
        ApprovalRowV {
            id: self.id@,
            tool: self.tool@,
            risk: self.risk@,
            mode: self.mode@,
            confirmation_mode: self.confirmation_mode@,
            status: self.status@,
            surface: opt_view(self.surface),
            rendered_surface: opt_view(self.rendered_surface),
        }
    }
}

/// The view model rendered by the terminal front end.
#[derive(Debug)]
pub struct TuiState {
    pub account_id: String,
    pub local_device_id: Option<String>,
    pub selected_panel: Panel,
    pub selected_conversation: usize,
    pub selected_message: usize,
    pub selected_object_transfer: usize,
    pub selected_contact: usize,
    pub selected_group: usize,
    pub input: String,
    pub input_mode: InputMode,
    pub conversations: Vec<ConversationRow>,
    pub messages: Vec<MessageRow>,
    pub object_transfers: Vec<ObjectTransferRow>,
    pub pending_attachments: Vec<PendingAttachment>,
    pub contacts: Vec<ContactRow>,
    pub devices: Vec<DeviceRow>,
    pub groups: Vec<GroupRow>,
    pub approvals: Vec<ApprovalRow>,
    pub selected_approval: usize,
    pub status_message: Option<String>,
    pub next_message_id: u64,
}

pub struct TuiStateV {
    pub account_id: Seq<char>,
    pub local_device_id: Option<Seq<char>>,
    pub selected_panel: Panel,
    pub selected_conversation: usize,
    pub selected_message: usize,
    pub selected_object_transfer: usize,
    pub selected_contact: usize,
    pub selected_group: usize,
    pub input: Seq<char>,
    pub input_mode: InputMode,
    pub conversations: Seq<ConversationRowV>,
    pub messages: Seq<MessageRowV>,
    pub object_transfers: Seq<ObjectTransferRowV>,
    pub pending_attachments: Seq<PendingAttachmentV>,
    pub contacts: Seq<ContactRowV>,
    pub devices: Seq<DeviceRowV>,
    pub groups: Seq<GroupRowV>,
    pub approvals: Seq<ApprovalRowV>,
    pub selected_approval: usize,
    pub status_message: Option<Seq<char>>,
    pub next_message_id: u64,
}

impl View for TuiState {
    type V = TuiStateV;

    open spec fn view(&self) -> TuiStateV {
        TuiStateV {
            account_id: self.account_id@,
            local_device_id: opt_view(self.local_device_id),
            selected_panel: self.selected_panel,
            selected_conversation: self.selected_conversation,
            selected_message: self.selected_message,
            selected_object_transfer: self.selected_object_transfer,
            selected_contact: self.selected_contact,
            selected_group: self.selected_group,
            input: self.input@,
            input_mode: self.input_mode,
            conversations: views(self.conversations@),
            messages: views(self.messages@),
            object_transfers: views(self.object_transfers@),
            pending_attachments: views(self.pending_attachments@),
            contacts: views(self.contacts@),
            devices: views(self.devices@),
            groups: views(self.groups@),
            approvals: views(self.approvals@),
            selected_approval: self.selected_approval,
            status_message: opt_view(self.status_message),
            next_message_id: self.next_message_id,
        }
    }
}

/// The state a client starts from for `account`.
pub open spec fn initial_state(account: Seq<char>) -> TuiStateV {
    TuiStateV {
        account_id: account,
        local_device_id: None,
        selected_panel: Panel::Conversations,
        selected_conversation: 0,
        selected_message: 0,
        selected_object_transfer: 0,
        selected_contact: 0,
        selected_group: 0,
        input: Seq::empty(),
        input_mode: InputMode::Normal,
        conversations: Seq::empty(),
        messages: Seq::empty(),
        object_transfers: Seq::empty(),
        pending_attachments: Seq::empty(),
        contacts: Seq::empty(),
        devices: Seq::empty(),
        groups: Seq::empty(),
        approvals: Seq::empty(),
        selected_approval: 0,
        status_message: None,
        next_message_id: 1,
    }
}

impl TuiState {
    /// The state a client starts from for `account_id`.
    pub fn for_account(account_id: String) -> (r: TuiState)
        ensures
            r@ == initial_state(account_id@),
    {
        let r = TuiState {
            account_id,
            local_device_id: None,
            selected_panel: Panel::Conversations,
            selected_conversation: 0,
            selected_message: 0,
            selected_object_transfer: 0,
            selected_contact: 0,
            selected_group: 0,
            input: String::new(),
            input_mode: InputMode::Normal,
            conversations: Vec::new(),
            messages: Vec::new(),
            object_transfers: Vec::new(),
            pending_attachments: Vec::new(),
            contacts: Vec::new(),
            devices: Vec::new(),
            groups: Vec::new(),
            approvals: Vec::new(),
            selected_approval: 0,
            status_message: None,
            next_message_id: 1,
        };
        assert(r@.conversations =~= Seq::empty());
        assert(r@.messages =~= Seq::empty());
        assert(r@.object_transfers =~= Seq::empty());
        assert(r@.pending_attachments =~= Seq::empty());
        assert(r@.contacts =~= Seq::empty());
        assert(r@.devices =~= Seq::empty());
        assert(r@.groups =~= Seq::empty());
        assert(r@.approvals =~= Seq::empty());
        r
    }
}

impl Default for TuiState {
    fn default() -> (r: TuiState)
        ensures
            r@ == initial_state(DEFAULT_ACCOUNT_ID@),
    {
        TuiState::for_account(DEFAULT_ACCOUNT_ID.to_owned())
    }
}

} // verus!
