//! The plain data that travels between a coordinator, the canister engine and
//! the handler code: entry modes, the execution context, request identities
//! and the terminal outcome of a request.

use vstd::prelude::*;
use vstd::string::*;
use vstd::utf8::encode_utf8;

verus! {

/// The category under which an invocation runs. It decides which system
/// calls the handler may make.
#[derive(Clone, Copy, Debug, PartialEq, Eq, Hash, Structural)]
pub enum EntryMode {
    Init,
    PreUpgrade,
    PostUpgrade,
    InspectMessage,
    Heartbeat,
    Update,
    Query,
    CustomTask,
    ReplyCallback,
    RejectCallback,
}

impl EntryMode {
    /// The name under which a mode appears in error messages.
    pub open spec fn spec_name(&self) -> Seq<char> {
        match self {
            EntryMode::Init => "canister_init"@,
            EntryMode::PreUpgrade => "canister_pre_upgrade"@,
            EntryMode::PostUpgrade => "canister_post_upgrade"@,
            EntryMode::InspectMessage => "canister_inspect_message"@,
            EntryMode::Heartbeat => "canister_heartbeat"@,
            EntryMode::Update => "canister_update"@,
            EntryMode::Query => "canister_query"@,
            EntryMode::CustomTask => "custom_task"@,
            EntryMode::ReplyCallback => "reply_callback"@,
            EntryMode::RejectCallback => "reject_callback"@,
        }
    }

    /// Lifecycle hooks: invocations that answer no request.
    pub open spec fn spec_is_lifecycle(&self) -> bool {
        *self is Init || *self is PreUpgrade || *self is PostUpgrade || *self is InspectMessage
            || *self is Heartbeat
    }

    /// Ordinary request handlers: a new top-level request whose caller waits
    /// for exactly one response.
    pub open spec fn spec_expects_response(&self) -> bool {
        *self is Update || *self is Query
    }

    /// Modes that run when an outgoing call of this canister has resolved.
    pub open spec fn spec_is_callback(&self) -> bool {
        *self is ReplyCallback || *self is RejectCallback
    }

    /// Modes in which the handler is answering a top-level request, and in
    /// which the engine therefore knows the request it works for.
    pub open spec fn spec_answers_request(&self) -> bool {
        self.spec_expects_response() || self.spec_is_callback()
    }

    /// The name under which the mode appears in error messages.
    pub fn name(&self) -> (name: &'static str)
        ensures
            name@ == self.spec_name(),
    {
        match self {
            EntryMode::Init => "canister_init",
            EntryMode::PreUpgrade => "canister_pre_upgrade",
            EntryMode::PostUpgrade => "canister_post_upgrade",
            EntryMode::InspectMessage => "canister_inspect_message",
            EntryMode::Heartbeat => "canister_heartbeat",
            EntryMode::Update => "canister_update",
            EntryMode::Query => "canister_query",
            EntryMode::CustomTask => "custom_task",
            EntryMode::ReplyCallback => "reply_callback",
            EntryMode::RejectCallback => "reject_callback",
        }
    }

    /// Whether the mode is a lifecycle hook.
    #[verifier::when_used_as_spec(spec_is_lifecycle)]
    pub fn is_lifecycle(&self) -> (b: bool)
        ensures
            b == self.spec_is_lifecycle(),
    {
        match self {
            EntryMode::Init
            | EntryMode::PreUpgrade
            | EntryMode::PostUpgrade
            | EntryMode::InspectMessage
            | EntryMode::Heartbeat => true,
            _ => false,
        }
    }

    /// Whether the mode is an ordinary request handler.
    #[verifier::when_used_as_spec(spec_expects_response)]
    pub fn expects_response(&self) -> (b: bool)
        ensures
            b == self.spec_expects_response(),
    {
        match self {
            EntryMode::Update | EntryMode::Query => true,
            _ => false,
        }
    }

    /// Whether the mode runs for an outgoing call that has resolved.
    #[verifier::when_used_as_spec(spec_is_callback)]
    pub fn is_callback(&self) -> (b: bool)
        ensures
            b == self.spec_is_callback(),
    {
        match self {
            EntryMode::ReplyCallback | EntryMode::RejectCallback => true,
            _ => false,
        }
    }

    /// Whether the handler is answering a top-level request.
    #[verifier::when_used_as_spec(spec_answers_request)]
    pub fn answers_request(&self) -> (b: bool)
        ensures
            b == self.spec_answers_request(),
    {
        self.expects_response() || self.is_callback()
    }
}

/// Why a request was refused.
#[derive(Clone, Copy, Debug, PartialEq, Eq, Hash, Structural)]
pub enum RejectionCode {
    NoError,
    SysFatal,
    SysTransient,
    DestinationInvalid,
    CanisterReject,
    CanisterError,
    Unknown,
}

impl RejectionCode {
    /// The number by which the platform's interface knows a rejection code.
    pub open spec fn spec_code(&self) -> i32 {
        match self {
            RejectionCode::NoError => 0,
            RejectionCode::SysFatal => 1,
            RejectionCode::SysTransient => 2,
            RejectionCode::DestinationInvalid => 3,
            RejectionCode::CanisterReject => 4,
            RejectionCode::CanisterError => 5,
            RejectionCode::Unknown => 6,
        }
    }

    /// The number of the rejection code.
    #[verifier::when_used_as_spec(spec_code)]
    pub fn code(&self) -> (code: i32)
        ensures
            code == self.spec_code(),
    {
        match self {
            RejectionCode::NoError => 0,
            RejectionCode::SysFatal => 1,
            RejectionCode::SysTransient => 2,
            RejectionCode::DestinationInvalid => 3,
            RejectionCode::CanisterReject => 4,
            RejectionCode::CanisterError => 5,
            RejectionCode::Unknown => 6,
        }
    }
}

/// The token of a top-level request that this canister is answering.
#[derive(Clone, Copy, Debug, PartialEq, Eq, Hash, Structural)]
pub struct IncomingRequestId(pub u64);

/// The execution context of one invocation. A new invocation replaces it as
/// a whole.
#[derive(Clone, Debug, PartialEq, Eq)]
pub struct Env {
    pub entry_mode: EntryMode,
    /// The raw argument bytes.
    pub args: Vec<u8>,
    /// The bytes of the caller's principal.
    pub sender: Vec<u8>,
    pub cycles_available: u128,
    pub cycles_refunded: u128,
    pub rejection_code: RejectionCode,
    pub rejection_message: String,
}

/// What an execution context holds, as mathematical values.
#[verifier::ext_equal]
pub struct EnvView {
    pub entry_mode: EntryMode,
    pub args: Seq<u8>,
    pub sender: Seq<u8>,
    pub cycles_available: u128,
    pub cycles_refunded: u128,
    pub rejection_code: RejectionCode,
    pub rejection_message: Seq<char>,
}

impl EnvView {
    /// The rejection message as the bytes a handler reads.
    pub open spec fn rejection_bytes(self) -> Seq<u8> {
        encode_utf8(self.rejection_message)
    }

    /// The context of an engine that has not yet been handed a message.
    pub open spec fn idle() -> EnvView {
        EnvView {
            entry_mode: EntryMode::CustomTask,
            args: Seq::empty(),
            sender: Seq::empty(),
            cycles_available: 0,
            cycles_refunded: 0,
            rejection_code: RejectionCode::NoError,
            rejection_message: Seq::empty(),
        }
    }
}

impl View for Env {
    type V = EnvView;

    open spec fn view(&self) -> EnvView {
        EnvView {
            entry_mode: self.entry_mode,
            args: self.args@,
            sender: self.sender@,
            cycles_available: self.cycles_available,
            cycles_refunded: self.cycles_refunded,
            rejection_code: self.rejection_code,
            rejection_message: self.rejection_message@,
        }
    }
}

impl Default for Env {
    fn default() -> (env: Env)
        ensures
            env@ == EnvView::idle(),
    {
        Env {
            entry_mode: EntryMode::CustomTask,
            args: Vec::new(),
            sender: Vec::new(),
            cycles_available: 0,
            cycles_refunded: 0,
            rejection_code: RejectionCode::NoError,
            rejection_message: String::new(),
        }
    }
}

impl Env {
    /// The name of the current entry mode, as error messages quote it.
    pub fn get_entry_point_name(&self) -> (name: String)
        ensures
            name@ == self@.entry_mode.spec_name(),
    {
        String::from_str(self.entry_mode.name())
    }
}

/// The terminal outcome of one incoming request.
#[derive(Clone, Debug, PartialEq, Eq)]
pub enum CanisterReply {
    Reply { data: Vec<u8>, cycles_refunded: u128 },
    Reject { rejection_code: RejectionCode, rejection_message: String, cycles_refunded: u128 },
}

/// A terminal outcome as mathematical values.
#[verifier::ext_equal]
pub enum ReplyView {
    Reply { data: Seq<u8>, cycles_refunded: u128 },
    Reject { rejection_code: RejectionCode, rejection_message: Seq<char>, cycles_refunded: u128 },
}

impl ReplyView {
    /// The cycles that go back to the caller with this outcome.
    pub open spec fn refund(self) -> u128 {
        match self {
            ReplyView::Reply { cycles_refunded, .. } => cycles_refunded,
            ReplyView::Reject { cycles_refunded, .. } => cycles_refunded,
        }
    }
}

impl View for CanisterReply {
    type V = ReplyView;

    open spec fn view(&self) -> ReplyView {
        match self {
            CanisterReply::Reply { data, cycles_refunded } => ReplyView::Reply {
                data: data@,
                cycles_refunded: *cycles_refunded,
            },
            CanisterReply::Reject {
                rejection_code,
                rejection_message,
                cycles_refunded,
            } => ReplyView::Reject {
                rejection_code: *rejection_code,
                rejection_message: rejection_message@,
                cycles_refunded: *cycles_refunded,
            },
        }
    }
}

impl CanisterReply {
    /// The cycles handed back to the caller with this outcome.
    pub fn cycles_refunded(&self) -> (cycles: u128)
        ensures
            cycles == self@.refund(),
    {
        match self {
            CanisterReply::Reply { cycles_refunded, .. } => *cycles_refunded,
            CanisterReply::Reject { cycles_refunded, .. } => *cycles_refunded,
        }
    }
}

/// One message for the engine: which registered entry point to run, for
/// which request, and in which context.
#[derive(Clone, Debug, PartialEq, Eq)]
pub struct Message {
    pub request_id: IncomingRequestId,
    /// The exported name of the entry point.
    pub entry_point: String,
    pub env: Env,
}

/// How a task on the execution side ended.
#[derive(Clone, Debug, PartialEq, Eq)]
pub enum Completion {
    Returned,
    Panicked(String),
}

/// A completion as mathematical values.
pub enum CompletionView {
    Returned,
    Panicked(Seq<char>),
}

impl View for Completion {
    type V = CompletionView;

    open spec fn view(&self) -> CompletionView {
        match self {
            Completion::Returned => CompletionView::Returned,
            Completion::Panicked(description) => CompletionView::Panicked(description@),
        }
    }
}

} // verus!
