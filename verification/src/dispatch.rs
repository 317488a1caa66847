//! One invocation seen from the engine's side: the system calls that arrive
//! from the execution side, the answer that goes back for each, and the end
//! of the task.

use crate::canister::Canister;
use crate::model::{
    may_answer, may_move_cycles, may_read_arguments, may_read_caller, may_read_refund,
    may_read_rejection, CanisterView,
};
use crate::types::{CanisterReply, Completion, EntryMode, ReplyView};
use vstd::prelude::*;

verus! {

/// A system call as the execution side sends it. Where the handler named a
/// place in its own memory to read from, the request carries the bytes that
/// stand there; where it named a place to write to, the answer carries the
/// bytes to put there.
#[derive(Clone, Debug, PartialEq, Eq)]
pub enum Request {
    MsgArgDataSize,
    MsgArgDataCopy { offset: isize, size: isize },
    MsgCallerSize,
    MsgCallerCopy { offset: isize, size: isize },
    MsgRejectCode,
    MsgRejectMsgSize,
    MsgRejectMsgCopy { offset: isize, size: isize },
    MsgReplyDataAppend { data: Vec<u8> },
    MsgReply,
    MsgReject { message: Vec<u8> },
    MsgCyclesAvailable,
    MsgCyclesAvailable128,
    MsgCyclesRefunded,
    MsgCyclesRefunded128,
    MsgCyclesAccept { max_amount: i64 },
    MsgCyclesAccept128 { max_amount_high: i64, max_amount_low: i64 },
    CanisterSelfSize,
    CanisterSelfCopy { offset: isize, size: isize },
}

impl Request {
    /// The name of the system call.
    pub open spec fn name(self) -> Seq<char> {
        match self {
            Request::MsgArgDataSize => "msg_arg_data_size"@,
            Request::MsgArgDataCopy { .. } => "msg_arg_data_copy"@,
            Request::MsgCallerSize => "msg_caller_size"@,
            Request::MsgCallerCopy { .. } => "msg_caller_copy"@,
            Request::MsgRejectCode => "msg_reject_code"@,
            Request::MsgRejectMsgSize => "msg_reject_msg_size"@,
            Request::MsgRejectMsgCopy { .. } => "msg_reject_msg_copy"@,
            Request::MsgReplyDataAppend { .. } => "msg_reply_data_append"@,
            Request::MsgReply => "msg_reply"@,
            Request::MsgReject { .. } => "msg_reject"@,
            Request::MsgCyclesAvailable => "msg_cycles_available"@,
            Request::MsgCyclesAvailable128 => "msg_cycles_available128"@,
            Request::MsgCyclesRefunded => "msg_cycles_refunded"@,
            Request::MsgCyclesRefunded128 => "msg_cycles_refunded128"@,
            Request::MsgCyclesAccept { .. } => "msg_cycles_accept"@,
            Request::MsgCyclesAccept128 { .. } => "msg_cycles_accept128"@,
            Request::CanisterSelfSize => "canister_self_size"@,
            Request::CanisterSelfCopy { .. } => "canister_self_copy"@,
        }
    }

    /// Whether a handler that runs in `mode` may make this call.
    pub open spec fn admitted_in(self, mode: EntryMode) -> bool {
        match self {
            Request::MsgArgDataSize | Request::MsgArgDataCopy { .. } => may_read_arguments(mode),
            Request::MsgCallerSize | Request::MsgCallerCopy { .. } => may_read_caller(mode),
            Request::MsgRejectCode
            | Request::MsgRejectMsgSize
            | Request::MsgRejectMsgCopy { .. } => may_read_rejection(mode),
            Request::MsgReplyDataAppend { .. }
            | Request::MsgReply
            | Request::MsgReject { .. } => may_answer(mode),
            Request::MsgCyclesAvailable
            | Request::MsgCyclesAvailable128
            | Request::MsgCyclesAccept { .. }
            | Request::MsgCyclesAccept128 { .. } => may_move_cycles(mode),
            Request::MsgCyclesRefunded | Request::MsgCyclesRefunded128 => may_read_refund(mode),
            Request::CanisterSelfSize | Request::CanisterSelfCopy { .. } => true,
        }
    }

    /// The calls that end a request: a reply or a rejection.
    pub open spec fn is_answer(self) -> bool {
        self is MsgReply || self is MsgReject
    }
}

/// What goes back to the execution side for one system call.
#[derive(Clone, Debug, PartialEq, Eq)]
pub enum Response {
    /// The call succeeded and has nothing to hand back.
    Done,
    Isize(isize),
    I32(i32),
    I64(i64),
    /// The bytes to write where the handler asked for them.
    Bytes(Vec<u8>),
    /// The call failed; the invocation goes on.
    Error(String),
}

/// An answer as mathematical values.
#[verifier::ext_equal]
pub enum ResponseView {
    Done,
    Isize(isize),
    I32(i32),
    I64(i64),
    Bytes(Seq<u8>),
    Error(Seq<char>),
}

impl View for Response {
    type V = ResponseView;

    open spec fn view(&self) -> ResponseView {
        match self {
            Response::Done => ResponseView::Done,
            Response::Isize(n) => ResponseView::Isize(*n),
            Response::I32(n) => ResponseView::I32(*n),
            Response::I64(n) => ResponseView::I64(*n),
            Response::Bytes(bytes) => ResponseView::Bytes(bytes@),
            Response::Error(e) => ResponseView::Error(e@),
        }
    }
}

/// What servicing one system call gives: the answer for the execution side
/// and, where the call ended a request, the outcome to deliver to whoever
/// waits for that request.
#[derive(Clone, Debug, PartialEq, Eq)]
pub struct Handled {
    pub response: Response,
    pub reply: Option<CanisterReply>,
}

/// What one system call gives, and the state it leaves, as mathematical
/// values.
#[verifier::ext_equal]
pub struct Step {
    pub response: ResponseView,
    pub reply: Option<ReplyView>,
    pub next: CanisterView,
}

/// The step of a call that answers with a size and delivers nothing.
pub open spec fn size_step(r: Result<isize, Seq<char>>, next: CanisterView) -> Step {
    Step {
        response: match r {
            Ok(n) => ResponseView::Isize(n),
            Err(e) => ResponseView::Error(e),
        },
        reply: None,
        next,
    }
}

/// The step of a call that answers with a 32-bit number.
pub open spec fn code_step(r: Result<i32, Seq<char>>, next: CanisterView) -> Step {
    Step {
        response: match r {
            Ok(n) => ResponseView::I32(n),
            Err(e) => ResponseView::Error(e),
        },
        reply: None,
        next,
    }
}

/// The step of a call that answers with a 64-bit amount.
pub open spec fn amount_step(r: Result<i64, Seq<char>>, next: CanisterView) -> Step {
    Step {
        response: match r {
            Ok(n) => ResponseView::I64(n),
            Err(e) => ResponseView::Error(e),
        },
        reply: None,
        next,
    }
}

/// The step of a call that answers with bytes for the handler's memory.
pub open spec fn bytes_step(r: Result<Seq<u8>, Seq<char>>, next: CanisterView) -> Step {
    Step {
        response: match r {
            Ok(bytes) => ResponseView::Bytes(bytes),
            Err(e) => ResponseView::Error(e),
        },
        reply: None,
        next,
    }
}

/// The step of a call that has nothing to hand back.
pub open spec fn unit_step(r: Result<(), Seq<char>>, next: CanisterView) -> Step {
    Step {
        response: match r {
            Ok(_) => ResponseView::Done,
            Err(e) => ResponseView::Error(e),
        },
        reply: None,
        next,
    }
}

/// The step of a reply or a rejection: where it succeeds, the outcome is
/// delivered and the execution side is told that the call is done.
pub open spec fn answer_step(r: Result<ReplyView, Seq<char>>, next: CanisterView) -> Step {
    match r {
        Ok(reply) => Step { response: ResponseView::Done, reply: Some(reply), next },
        Err(e) => Step { response: ResponseView::Error(e), reply: None, next },
    }
}

/// What the engine in state `s` does with `request`.
pub open spec fn step(s: CanisterView, request: Request) -> Step {
    match request {
        Request::MsgArgDataSize => size_step(s.msg_arg_data_size(), s),
        Request::MsgArgDataCopy { offset, size } => bytes_step(
            s.msg_arg_data_copy(offset, size),
            s,
        ),
        Request::MsgCallerSize => size_step(s.msg_caller_size(), s),
        Request::MsgCallerCopy { offset, size } => bytes_step(s.msg_caller_copy(offset, size), s),
        Request::MsgRejectCode => code_step(s.msg_reject_code(), s),
        Request::MsgRejectMsgSize => size_step(s.msg_reject_msg_size(), s),
        Request::MsgRejectMsgCopy { offset, size } => bytes_step(
            s.msg_reject_msg_copy(offset, size),
            s,
        ),
        Request::MsgReplyDataAppend { data } => unit_step(
            s.msg_reply_data_append(data@).0,
            s.msg_reply_data_append(data@).1,
        ),
        Request::MsgReply => answer_step(s.msg_reply().0, s.msg_reply().1),
        Request::MsgReject { message } => answer_step(
            s.msg_reject(message@).0,
            s.msg_reject(message@).1,
        ),
        Request::MsgCyclesAvailable => amount_step(s.msg_cycles_available(), s),
        Request::MsgCyclesAvailable128 => bytes_step(s.msg_cycles_available128(), s),
        Request::MsgCyclesRefunded => amount_step(s.msg_cycles_refunded(), s),
        Request::MsgCyclesRefunded128 => bytes_step(s.msg_cycles_refunded128(), s),
        Request::MsgCyclesAccept { max_amount } => amount_step(
            s.msg_cycles_accept(max_amount).0,
            s.msg_cycles_accept(max_amount).1,
        ),
        Request::MsgCyclesAccept128 { max_amount_high, max_amount_low } => bytes_step(
            s.msg_cycles_accept128(max_amount_high, max_amount_low).0,
            s.msg_cycles_accept128(max_amount_high, max_amount_low).1,
        ),
        Request::CanisterSelfSize => size_step(s.canister_self_size(), s),
        Request::CanisterSelfCopy { offset, size } => bytes_step(
            s.canister_self_copy(offset, size),
            s,
        ),
    }
}

/// The outcome that a serviced call asks to deliver, as mathematical values.
pub open spec fn delivered(reply: Option<CanisterReply>) -> Option<ReplyView> {
    match reply {
        Some(reply) => Some(reply@),
        None => None,
    }
}

fn respond_size(r: Result<isize, String>) -> (handled: Handled)
    ensures
        handled.reply is None,
        handled.response@ == (match r {
            Ok(n) => ResponseView::Isize(n),
            Err(e) => ResponseView::Error(e@),
        }),
{
    match r {
        Ok(n) => Handled { response: Response::Isize(n), reply: None },
        Err(e) => Handled { response: Response::Error(e), reply: None },
    }
}

fn respond_code(r: Result<i32, String>) -> (handled: Handled)
    ensures
        handled.reply is None,
        handled.response@ == (match r {
            Ok(n) => ResponseView::I32(n),
            Err(e) => ResponseView::Error(e@),
        }),
{
    match r {
        Ok(n) => Handled { response: Response::I32(n), reply: None },
        Err(e) => Handled { response: Response::Error(e), reply: None },
    }
}

fn respond_amount(r: Result<i64, String>) -> (handled: Handled)
    ensures
        handled.reply is None,
        handled.response@ == (match r {
            Ok(n) => ResponseView::I64(n),
            Err(e) => ResponseView::Error(e@),
        }),
{
    match r {
        Ok(n) => Handled { response: Response::I64(n), reply: None },
        Err(e) => Handled { response: Response::Error(e), reply: None },
    }
}

fn respond_bytes(r: Result<Vec<u8>, String>) -> (handled: Handled)
    ensures
        handled.reply is None,
        handled.response@ == (match r {
            Ok(bytes) => ResponseView::Bytes(bytes@),
            Err(e) => ResponseView::Error(e@),
        }),
{
    match r {
        Ok(bytes) => Handled { response: Response::Bytes(bytes), reply: None },
        Err(e) => Handled { response: Response::Error(e), reply: None },
    }
}

fn respond_unit(r: Result<(), String>) -> (handled: Handled)
    ensures
        handled.reply is None,
        handled.response@ == (match r {
            Ok(_) => ResponseView::Done,
            Err(e) => ResponseView::Error(e@),
        }),
{
    match r {
        Ok(_) => Handled { response: Response::Done, reply: None },
        Err(e) => Handled { response: Response::Error(e), reply: None },
    }
}

fn respond_answer(r: Result<CanisterReply, String>) -> (handled: Handled)
    ensures
        match r {
            Ok(reply) => handled.response@ == ResponseView::Done && delivered(handled.reply)
                == Some(reply@),
            Err(e) => handled.response@ == ResponseView::Error(e@) && handled.reply is None,
        },
{
    match r {
        Ok(reply) => Handled { response: Response::Done, reply: Some(reply) },
        Err(e) => Handled { response: Response::Error(e), reply: None },
    }
}

/// What happens on the engine's side while a task runs.
#[derive(Clone, Debug, PartialEq, Eq)]
pub enum Event {
    /// The task has ended.
    TaskCompleted(Completion),
    /// The task has made a system call and waits for its answer.
    SystemCall(Request),
}

/// What the engine's owner does next.
#[derive(Clone, Debug, PartialEq, Eq)]
pub enum Action {
    /// The invocation is over: stop waiting and hand the completion on.
    Finish(Completion),
    /// Send the answer to the execution side, deliver the outcome if there
    /// is one, and wait for the next event.
    Respond(Handled),
}

impl Canister {
    /// Services one system call: decides it by the current mode and the
    /// engine's state, and says what goes back to the execution side.
    pub fn proxy(&mut self, request: &Request) -> (handled: Handled)
        requires
            old(self).wf(),
        ensures
            final(self).wf(),
            handled.response@ == step(old(self)@, *request).response,
            delivered(handled.reply) == step(old(self)@, *request).reply,
            final(self)@ == step(old(self)@, *request).next,
    {
        match request {
            Request::MsgArgDataSize => respond_size(self.msg_arg_data_size()),
            Request::MsgArgDataCopy { offset, size } => respond_bytes(
                self.msg_arg_data_copy(*offset, *size),
            ),
            Request::MsgCallerSize => respond_size(self.msg_caller_size()),
            Request::MsgCallerCopy { offset, size } => respond_bytes(
                self.msg_caller_copy(*offset, *size),
            ),
            Request::MsgRejectCode => respond_code(self.msg_reject_code()),
            Request::MsgRejectMsgSize => respond_size(self.msg_reject_msg_size()),
            Request::MsgRejectMsgCopy { offset, size } => respond_bytes(
                self.msg_reject_msg_copy(*offset, *size),
            ),
            Request::MsgReplyDataAppend { data } => respond_unit(
                self.msg_reply_data_append(data.as_slice()),
            ),
            Request::MsgReply => respond_answer(self.msg_reply()),
            Request::MsgReject { message } => respond_answer(self.msg_reject(message.as_slice())),
            Request::MsgCyclesAvailable => respond_amount(self.msg_cycles_available()),
            Request::MsgCyclesAvailable128 => respond_bytes(self.msg_cycles_available128()),
            Request::MsgCyclesRefunded => respond_amount(self.msg_cycles_refunded()),
            Request::MsgCyclesRefunded128 => respond_bytes(self.msg_cycles_refunded128()),
            Request::MsgCyclesAccept { max_amount } => respond_amount(
                self.msg_cycles_accept(*max_amount),
            ),
            Request::MsgCyclesAccept128 { max_amount_high, max_amount_low } => respond_bytes(
                self.msg_cycles_accept128(*max_amount_high, *max_amount_low),
            ),
            Request::CanisterSelfSize => respond_size(self.canister_self_size()),
            Request::CanisterSelfCopy { offset, size } => respond_bytes(
                self.canister_self_copy(*offset, *size),
            ),
        }
    }

    /// Decides what follows an event of the running task: the end of the
    /// task ends the invocation and leaves the engine as it is, with a
    /// faulted task as with one that returned; a system call is serviced
    /// and answered.
    pub fn on_event(&mut self, event: Event) -> (action: Action)
        requires
            old(self).wf(),
        ensures
            final(self).wf(),
            match event {
                Event::TaskCompleted(completion) => {
                    &&& action == Action::Finish(completion)
                    &&& final(self)@ == old(self)@
                },
                Event::SystemCall(request) => {
                    &&& action matches Action::Respond(handled)
                    &&& handled.response@ == step(old(self)@, request).response
                    &&& delivered(handled.reply) == step(old(self)@, request).reply
                    &&& final(self)@ == step(old(self)@, request).next
                },
            },
    {
        match event {
            Event::TaskCompleted(completion) => Action::Finish(completion),
            Event::SystemCall(request) => Action::Respond(self.proxy(&request)),
        }
    }
}

} // verus!
