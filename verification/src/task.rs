//! Work in progress: the steps an operation still has to take, the outside
//! work each step hands to the front end, and what the front end hands back.

use vstd::prelude::*;
use crate::json::{Json, JsonV};
use crate::bus::{BusRequest, BusRequestV};
use crate::state::{views, opt_view, MessageRow, MessageRowV, RenderedSurface, RenderedSurfaceV};
use crate::parsing::{surface_outcomes_v, opt_strings_v};

verus! {

/// An error the client raises itself, with its message.
#[derive(Debug, PartialEq, Eq)]
pub enum TuiError {
    LocalBus(String),
}

pub enum TuiErrorV {
    LocalBus(Seq<char>),
}

impl View for TuiError {
    type V = TuiErrorV;

    open spec fn view(&self) -> TuiErrorV {
        match self {
            TuiError::LocalBus(m) => TuiErrorV::LocalBus(m@),
        }
    }
}

/// Surfaces to render, with the catalogs and permissions the client accepts.
#[derive(Debug)]
pub struct RenderJob {
    pub candidates: Vec<Option<Json>>,
    pub supported_catalogs: Vec<String>,
    pub permissions: Vec<String>,
}

pub struct RenderJobV {
    pub candidates: Seq<Option<JsonV>>,
    pub supported_catalogs: Seq<Seq<char>>,
    pub permissions: Seq<Seq<char>>,
}

impl View for RenderJob {
    type V = RenderJobV;

    open spec fn view(&self) -> RenderJobV {
        RenderJobV {
            candidates: self.candidates@.map_values(|c: Option<Json>| opt_view(c)),
            supported_catalogs: views(self.supported_catalogs@),
            permissions: views(self.permissions@),
        }
    }
}

/// Outside work for the front end, or the end of the operation.
#[derive(Debug)]
pub enum Effect {
    /// Send this request over the local bus and hand back the response.
    Request(BusRequest),
    /// Encode these bytes as base64url text.
    Encode(Vec<u8>),
    /// Decode each base64url payload and hand back its text when it is UTF-8.
    Decode(Vec<Option<String>>),
    /// Read each surface document and render it.
    Render(RenderJob),
    /// Read the file at this path.
    ReadFile(String),
    /// Read the wall clock, in seconds since the Unix epoch.
    Clock,
    /// The operation is over, with its result if it has one.
    Done(Option<Json>),
    /// The operation failed.
    Fail(TuiError),
}

pub enum EffectV {
    Request(BusRequestV),
    Encode(Seq<u8>),
    Decode(Seq<Option<Seq<char>>>),
    Render(RenderJobV),
    ReadFile(Seq<char>),
    Clock,
    Done(Option<JsonV>),
    Fail(TuiErrorV),
}

impl View for Effect {
    type V = EffectV;

    open spec fn view(&self) -> EffectV {
        match self {
            Effect::Request(r) => EffectV::Request(r@),
            Effect::Encode(b) => EffectV::Encode(b@),
            Effect::Decode(p) => EffectV::Decode(opt_strings_v(p@)),
            Effect::Render(j) => EffectV::Render(j@),
            Effect::ReadFile(p) => EffectV::ReadFile(p@),
            Effect::Clock => EffectV::Clock,
            Effect::Done(o) => EffectV::Done(opt_view(*o)),
            Effect::Fail(e) => EffectV::Fail(e@),
        }
    }
}

/// What the front end hands back for the last effect.
#[derive(Debug)]
pub enum Outcome {
    /// Nothing: the operation is just starting.
    Start,
    /// The response to a request.
    Response(Json),
    /// The base64url text of the bytes.
    Encoded(String),
    /// The text of each payload, when it decodes to UTF-8.
    Decoded(Vec<Option<String>>),
    /// For each surface document: its normal form and rendering, or nothing
    /// when it is no surface.
    Rendered(Vec<Option<(Json, Option<RenderedSurface>)>>),
    /// The contents of the file, and its file name when it has a UTF-8 one.
    FileRead(Vec<u8>, Option<String>),
    /// The wall clock.
    Clock(i64),
    /// The outside work failed.
    Failed(TuiError),
}

pub enum OutcomeV {
    Start,
    Response(JsonV),
    Encoded(Seq<char>),
    Decoded(Seq<Option<Seq<char>>>),
    Rendered(Seq<Option<(JsonV, Option<RenderedSurfaceV>)>>),
    FileRead(Seq<u8>, Option<Seq<char>>),
    Clock(i64),
    Failed(TuiErrorV),
}

impl View for Outcome {
    type V = OutcomeV;

    open spec fn view(&self) -> OutcomeV {
        match self {
            Outcome::Start => OutcomeV::Start,
            Outcome::Response(j) => OutcomeV::Response(j@),
            Outcome::Encoded(s) => OutcomeV::Encoded(s@),
            Outcome::Decoded(d) => OutcomeV::Decoded(opt_strings_v(d@)),
            Outcome::Rendered(r) => OutcomeV::Rendered(surface_outcomes_v(r@)),
            Outcome::FileRead(b, n) => OutcomeV::FileRead(b@, opt_view(*n)),
            Outcome::Clock(t) => OutcomeV::Clock(*t),
            Outcome::Failed(e) => OutcomeV::Failed(e@),
        }
    }
}

/// A direct message on its way out.
#[derive(Debug)]
pub struct MessageDraft {
    pub body: String,
    pub message_id: String,
    pub envelope_id: String,
    pub conversation_id: String,
    pub recipient_device_id: Option<String>,
    pub target_delivery_id: String,
}

pub struct MessageDraftV {
    pub body: Seq<char>,
    pub message_id: Seq<char>,
    pub envelope_id: Seq<char>,
    pub conversation_id: Seq<char>,
    pub recipient_device_id: Option<Seq<char>>,
    pub target_delivery_id: Seq<char>,
}

impl View for MessageDraft {
    type V = MessageDraftV;

    open spec fn view(&self) -> MessageDraftV {
        MessageDraftV {
            body: self.body@,
            message_id: self.message_id@,
            envelope_id: self.envelope_id@,
            conversation_id: self.conversation_id@,
            recipient_device_id: opt_view(self.recipient_device_id),
            target_delivery_id: self.target_delivery_id@,
        }
    }
}

/// What to do with the outcome of a step's effect.
#[derive(Debug)]
pub enum Then {
    Ignore,
    ReturnResponse,
    ReadMessages,
    StoreMessages(Json),
    ReceiveMessages,
    UpsertMessages(Json),
    StoreContacts,
    StoreDevices,
    StoreGroups,
    ListApprovals,
    StoreApprovals(Json),
    ApprovalEvent(Json),
    Transfer,
    ContactSafety,
    Switched(String),
    MessageStatus(String),
    GroupTombstone,
    GroupMembers,
    GroupTtl,
    GroupMute,
    ObjectFetched(String),
    SubmitClock(MessageDraft),
    SubmitEncoded(MessageDraft, i64),
    SubmitAccount(MessageDraft, i64, String),
    Submitted(MessageRow),
    AttachFile,
    QueueAttachment(String, String, Option<String>),
    PutFile(String),
    PutEncoded(String),
}

pub enum ThenV {
    Ignore,
    ReturnResponse,
    ReadMessages,
    StoreMessages(JsonV),
    ReceiveMessages,
    UpsertMessages(JsonV),
    StoreContacts,
    StoreDevices,
    StoreGroups,
    ListApprovals,
    StoreApprovals(JsonV),
    ApprovalEvent(JsonV),
    Transfer,
    ContactSafety,
    Switched(Seq<char>),
    MessageStatus(Seq<char>),
    GroupTombstone,
    GroupMembers,
    GroupTtl,
    GroupMute,
    ObjectFetched(Seq<char>),
    SubmitClock(MessageDraftV),
    SubmitEncoded(MessageDraftV, i64),
    SubmitAccount(MessageDraftV, i64, Seq<char>),
    Submitted(MessageRowV),
    AttachFile,
    QueueAttachment(Seq<char>, Seq<char>, Option<Seq<char>>),
    PutFile(Seq<char>),
    PutEncoded(Seq<char>),
}

impl View for Then {
    type V = ThenV;

    open spec fn view(&self) -> ThenV {
        match self {
            Then::Ignore => ThenV::Ignore,
            Then::ReturnResponse => ThenV::ReturnResponse,
            Then::ReadMessages => ThenV::ReadMessages,
            Then::StoreMessages(j) => ThenV::StoreMessages(j@),
            Then::ReceiveMessages => ThenV::ReceiveMessages,
            Then::UpsertMessages(j) => ThenV::UpsertMessages(j@),
            Then::StoreContacts => ThenV::StoreContacts,
            Then::StoreDevices => ThenV::StoreDevices,
            Then::StoreGroups => ThenV::StoreGroups,
            Then::ListApprovals => ThenV::ListApprovals,
            Then::StoreApprovals(j) => ThenV::StoreApprovals(j@),
            Then::ApprovalEvent(j) => ThenV::ApprovalEvent(j@),
            Then::Transfer => ThenV::Transfer,
            Then::ContactSafety => ThenV::ContactSafety,
            Then::Switched(s) => ThenV::Switched(s@),
            Then::MessageStatus(s) => ThenV::MessageStatus(s@),
            Then::GroupTombstone => ThenV::GroupTombstone,
            Then::GroupMembers => ThenV::GroupMembers,
            Then::GroupTtl => ThenV::GroupTtl,
            Then::GroupMute => ThenV::GroupMute,
            Then::ObjectFetched(s) => ThenV::ObjectFetched(s@),
            Then::SubmitClock(d) => ThenV::SubmitClock(d@),
            Then::SubmitEncoded(d, t) => ThenV::SubmitEncoded(d@, *t),
            Then::SubmitAccount(d, t, s) => ThenV::SubmitAccount(d@, *t, s@),
            Then::Submitted(m) => ThenV::Submitted(m@),
            Then::AttachFile => ThenV::AttachFile,
            Then::QueueAttachment(a, b, c) => ThenV::QueueAttachment(a@, b@, opt_view(*c)),
            Then::PutFile(s) => ThenV::PutFile(s@),
            Then::PutEncoded(s) => ThenV::PutEncoded(s@),
        }
    }
}

/// One step of an operation: outside work and what to do with its outcome,
/// or a change of the view model alone.
#[derive(Debug)]
pub enum Step {
    Issue(Effect, Then),
    SetStatus(Option<String>),
    EnsureDefaultConversation,
    FinishCompose,
}

pub enum StepV {
    Issue(EffectV, ThenV),
    SetStatus(Option<Seq<char>>),
    EnsureDefaultConversation,
    FinishCompose,
}

impl View for Step {
    type V = StepV;

    open spec fn view(&self) -> StepV {
        match self {
            Step::Issue(e, t) => StepV::Issue(e@, t@),
            Step::SetStatus(s) => StepV::SetStatus(opt_view(*s)),
            Step::EnsureDefaultConversation => StepV::EnsureDefaultConversation,
            Step::FinishCompose => StepV::FinishCompose,
        }
    }
}

/// An operation in progress: the steps still to take, in order, the step
/// waiting for an outcome, and the result so far.
#[derive(Debug)]
pub struct Task {
    pub steps: Vec<Step>,
    pub waiting: Option<Then>,
    pub output: Option<Json>,
}

pub struct TaskV {
    pub steps: Seq<StepV>,
    pub waiting: Option<ThenV>,
    pub output: Option<JsonV>,
}

impl View for Task {
    type V = TaskV;

    open spec fn view(&self) -> TaskV {
        TaskV { steps: views(self.steps@), waiting: opt_view(self.waiting), output: opt_view(self.output) }
    }
}

/// A task that takes these steps.
pub open spec fn task_of(steps: Seq<StepV>) -> TaskV {
    TaskV { steps, waiting: None, output: None }
}

impl Task {
    pub fn of(steps: Vec<Step>) -> (r: Task)
        ensures
            r@ == task_of(views(steps@)),
    {
        Task { steps, waiting: None, output: None }
    }

    pub fn empty() -> (r: Task)
        ensures
            r@ == task_of(Seq::empty()),
    {
        let r = Task::of(Vec::new());
        assert(views(Seq::<Step>::empty()) =~= Seq::<StepV>::empty());
        r
    }

    /// Whether the task has nothing left to do.
    pub fn is_finished(&self) -> (r: bool)
        ensures
            r == (self@.steps.len() == 0 && self@.waiting is None),
    {
        self.steps.len() == 0 && self.waiting.is_none()
    }
}

} // verus!
