//! What holds of every engine, whatever its state and whatever call arrives.

use crate::dispatch::{step, Request, ResponseView};
use crate::memory::{in_bounds, out_of_bounds_message, spec_copy_range};
use crate::model::{
    amount_of, amount_of_halves, answered_message, denied_message, may_answer, may_move_cycles,
    min_amount, raw_of, CanisterView,
};
use crate::types::{EnvView, IncomingRequestId, ReplyView};
use vstd::bytes::{lemma_auto_spec_u128_to_from_le_bytes, spec_u128_from_le_bytes};
use vstd::prelude::*;

verus! {

/// An entry point can be registered once: in the engine that has registered
/// `name`, the name is taken, so that no second registration of it is
/// admitted, and every name that was taken before still is.
pub proof fn lemma_registered_name_is_taken(s: CanisterView, name: Seq<char>)
    requires
        s.wf(),
        !s.has_method(name),
    ensures
        s.with_method(name).wf(),
        s.with_method(name).has_method(name),
        forall|other: Seq<char>| s.has_method(other) ==> s.with_method(name).has_method(other),
{
    let after = s.with_method(name);
    let at = s.methods.len() as int;
    assert(after.methods[at] == name);
    assert forall|other: Seq<char>| s.has_method(other) implies after.has_method(other) by {
        let i = choose|i: int| 0 <= i < s.methods.len() && s.methods[i] == other;
        assert(after.methods[i] == other);
    }
}

/// Beginning an invocation keeps the engine's invariant, whatever its mode,
/// as long as the cycles in play fit in 128 bits. It registers nothing,
/// accepts no cycles, and answers no request.
pub proof fn lemma_begun_keeps_invariant(s: CanisterView, id: IncomingRequestId, env: EnvView)
    requires
        s.wf(),
        s.cycles_accepted + env.cycles_available <= u128::MAX,
    ensures
        s.begun(id, env).wf(),
        s.begun(id, env).methods == s.methods,
        s.begun(id, env).cycles_accepted == s.cycles_accepted,
        s.pending().subset_of(s.begun(id, env).pending()),
        forall|other: u64|
            s.pending().contains(other) ==> s.begun(id, env).reply_data[other]
                == s.reply_data[other],
        s.begun(id, env).env == env,
        s.begun(id, env).request_id == Some(id),
{
}

/// A request that expects a response waits for it from the moment its
/// invocation begins.
pub proof fn lemma_begun_request_waits(s: CanisterView, id: IncomingRequestId, env: EnvView)
    requires
        s.wf(),
        s.cycles_accepted + env.cycles_available <= u128::MAX,
        env.entry_mode.spec_expects_response(),
    ensures
        s.begun(id, env).wf(),
        may_answer(s.begun(id, env).mode()),
        s.begun(id, env).awaits_response(),
{
}

/// A request is answered at most once. While the request in work waits for
/// its response, one reply or rejection succeeds and hands out the outcome
/// to deliver. Any reply or rejection after it fails with the error of a
/// request that is already answered, hands out no outcome, and leaves the
/// engine as the first answer left it.
pub proof fn lemma_answer_at_most_once(s: CanisterView, first: Request, second: Request)
    requires
        s.wf(),
        may_answer(s.mode()),
        s.awaits_response(),
        first.is_answer(),
        second.is_answer(),
    ensures
        step(s, first).response == ResponseView::Done,
        step(s, first).reply is Some,
        step(s, first).next.wf(),
        step(step(s, first).next, second).response == ResponseView::Error(
            answered_message(second.name()),
        ),
        step(step(s, first).next, second).reply is None,
        step(step(s, first).next, second).next == step(s, first).next,
{
}

/// An update or a query is answered exactly once: from the beginning of its
/// invocation, the first reply or rejection succeeds, and every later one
/// fails and changes nothing.
pub proof fn lemma_request_is_answered_once(
    s: CanisterView,
    id: IncomingRequestId,
    env: EnvView,
    first: Request,
    second: Request,
)
    requires
        s.wf(),
        s.cycles_accepted + env.cycles_available <= u128::MAX,
        env.entry_mode.spec_expects_response(),
        first.is_answer(),
        second.is_answer(),
    ensures
        step(s.begun(id, env), first).response == ResponseView::Done,
        step(s.begun(id, env), first).reply is Some,
        step(step(s.begun(id, env), first).next, second).response == ResponseView::Error(
            answered_message(second.name()),
        ),
        step(step(s.begun(id, env), first).next, second).reply is None,
        step(step(s.begun(id, env), first).next, second).next == step(
            s.begun(id, env),
            first,
        ).next,
{
    lemma_begun_request_waits(s, id, env);
    lemma_answer_at_most_once(s.begun(id, env), first, second);
}

/// The outcome of a reply: the bytes gathered by the appends that came
/// before it, and as refund the cycles that no acceptance has taken.
pub proof fn lemma_reply_carries_gathered_bytes(s: CanisterView, data: Seq<u8>)
    requires
        s.wf(),
        may_answer(s.mode()),
        s.awaits_response(),
    ensures
        s.msg_reply_data_append(data).0 is Ok,
        s.msg_reply_data_append(data).1.msg_reply().0 == Ok::<ReplyView, Seq<char>>(
            ReplyView::Reply {
                data: s.gathered() + data,
                cycles_refunded: s.env.cycles_available,
            },
        ),
{
}

/// An acceptance never takes more than was asked for, nor more than is
/// there; what it takes leaves the invocation and reaches the canister.
pub proof fn lemma_accept_moves_the_lesser(s: CanisterView, max_amount: i64)
    requires
        s.wf(),
        may_move_cycles(s.mode()),
    ensures
        ({
            let amount = s.acceptable(amount_of(max_amount));
            let next = s.msg_cycles_accept(max_amount).1;
            &&& amount <= amount_of(max_amount)
            &&& amount <= s.env.cycles_available
            &&& amount == min_amount(amount_of(max_amount), s.env.cycles_available)
            &&& s.msg_cycles_accept(max_amount).0 == Ok::<i64, Seq<char>>(raw_of(amount))
            &&& amount_of(raw_of(amount)) == amount
            &&& next.env.cycles_available == s.env.cycles_available - amount
            &&& next.cycles_accepted == s.cycles_accepted + amount
            &&& next.cycles_available_store[s.current()] == next.env.cycles_available
            &&& next.wf()
        }),
{
    let amount = s.acceptable(amount_of(max_amount));
    assert(amount_of(raw_of(amount)) == amount) by {
        let low: u64 = amount as u64;
        assert((low as i64) as u64 == low) by (bit_vector);
    }
}

/// The wide acceptance obeys the same bounds: it takes the lesser of the
/// amount that its two halves transport and the available cycles.
pub proof fn lemma_wide_accept_moves_the_lesser(
    s: CanisterView,
    max_amount_high: i64,
    max_amount_low: i64,
)
    requires
        s.wf(),
        may_move_cycles(s.mode()),
    ensures
        ({
            let requested = amount_of_halves(max_amount_high, max_amount_low);
            let amount = s.acceptable(requested);
            let next = s.msg_cycles_accept128(max_amount_high, max_amount_low).1;
            &&& amount == min_amount(requested, s.env.cycles_available)
            &&& s.msg_cycles_accept128(max_amount_high, max_amount_low).0 matches Ok(bytes)
            &&& bytes.len() == 16
            &&& spec_u128_from_le_bytes(bytes) == amount
            &&& next.env.cycles_available == s.env.cycles_available - amount
            &&& next.cycles_accepted == s.cycles_accepted + amount
            &&& next.cycles_available_store[s.current()] == next.env.cycles_available
            &&& next.wf()
        }),
{
    lemma_auto_spec_u128_to_from_le_bytes();
}

/// The two widths of acceptance follow one rule: asked for the same amount
/// in the same state, they take the same amount and leave the same state,
/// and the wide answer holds that amount in sixteen bytes.
pub proof fn lemma_accept_widths_agree(
    s: CanisterView,
    max_amount: i64,
    max_amount_high: i64,
    max_amount_low: i64,
)
    requires
        s.wf(),
        may_move_cycles(s.mode()),
        amount_of(max_amount) == amount_of_halves(max_amount_high, max_amount_low),
    ensures
        s.msg_cycles_accept128(max_amount_high, max_amount_low).1 == s.msg_cycles_accept(
            max_amount,
        ).1,
        ({
            let amount = s.acceptable(amount_of(max_amount));
            &&& s.msg_cycles_accept128(max_amount_high, max_amount_low).0 matches Ok(bytes)
            &&& bytes.len() == 16
            &&& spec_u128_from_le_bytes(bytes) == amount
        }),
{
    lemma_auto_spec_u128_to_from_le_bytes();
}

/// A copy that asks for bytes beyond the end of its source fails and hands
/// out no byte.
pub proof fn lemma_copy_beyond_source_fails(offset: int, size: int, data: Seq<u8>)
    requires
        offset + size > data.len(),
    ensures
        spec_copy_range(offset, size, data) == Err::<Seq<u8>, Seq<char>>(out_of_bounds_message()),
{
}

/// A copy within its source hands out exactly the bytes asked for.
pub proof fn lemma_copy_within_source(offset: int, size: int, data: Seq<u8>)
    requires
        in_bounds(offset, size, data.len() as int),
    ensures
        spec_copy_range(offset, size, data) matches Ok(bytes) && bytes.len() == size && (forall|
            i: int,
        | 0 <= i < size ==> bytes[i] == data[offset + i]),
{
}

/// The source of the bytes that a copying call reads.
pub open spec fn copy_source(s: CanisterView, request: Request) -> Seq<u8> {
    match request {
        Request::MsgArgDataCopy { .. } => s.env.args,
        Request::MsgCallerCopy { .. } => s.env.sender,
        Request::MsgRejectMsgCopy { .. } => s.env.rejection_bytes(),
        Request::CanisterSelfCopy { .. } => s.canister_id,
        _ => Seq::empty(),
    }
}

/// The range that a copying call asks for.
pub open spec fn copy_window(request: Request) -> Option<(isize, isize)> {
    match request {
        Request::MsgArgDataCopy { offset, size } => Some((offset, size)),
        Request::MsgCallerCopy { offset, size } => Some((offset, size)),
        Request::MsgRejectMsgCopy { offset, size } => Some((offset, size)),
        Request::CanisterSelfCopy { offset, size } => Some((offset, size)),
        _ => None,
    }
}

/// Every copying call is bounded by its source: made from a mode that
/// admits it, with a range that leaves the source, it fails with the
/// out-of-bounds error, hands out no byte and changes nothing.
pub proof fn lemma_copying_call_is_bounded(s: CanisterView, request: Request)
    requires
        request.admitted_in(s.mode()),
        copy_window(request) matches Some(window) && window.0 + window.1 > copy_source(
            s,
            request,
        ).len(),
    ensures
        step(s, request).response == ResponseView::Error(out_of_bounds_message()),
        step(s, request).reply is None,
        step(s, request).next == s,
{
}

/// A system call made from a mode that does not admit it fails with the
/// error that names the call and the mode, hands out no outcome, and leaves
/// the engine as it was.
pub proof fn lemma_denied_call_changes_nothing(s: CanisterView, request: Request)
    requires
        !request.admitted_in(s.mode()),
    ensures
        step(s, request).response == ResponseView::Error(
            denied_message(request.name(), s.mode()),
        ),
        step(s, request).reply is None,
        step(s, request).next == s,
{
}

/// A call that fails leaves the engine as it was.
pub proof fn lemma_failed_call_changes_nothing(s: CanisterView, request: Request)
    requires
        step(s, request).response is Error,
    ensures
        step(s, request).reply is None,
        step(s, request).next == s,
{
}

/// No system call breaks the engine's invariant. A call registers nothing,
/// replaces neither the context's mode nor the request in work, never makes
/// a request wait that did not, never lowers the accepted cycles and never
/// raises the available ones; and the available cycles change only by an
/// acceptance or, to zero, by an answer.
pub proof fn lemma_step_keeps_invariant(s: CanisterView, request: Request)
    requires
        s.wf(),
    ensures
        step(s, request).next.wf(),
        step(s, request).next.methods == s.methods,
        step(s, request).next.canister_id == s.canister_id,
        step(s, request).next.balance == s.balance,
        step(s, request).next.mode() == s.mode(),
        step(s, request).next.request_id == s.request_id,
        step(s, request).next.pending().subset_of(s.pending()),
        step(s, request).next.cycles_accepted >= s.cycles_accepted,
        step(s, request).next.env.cycles_available <= s.env.cycles_available,
        step(s, request).reply is Some ==> step(s, request).next.env.cycles_available == 0,
        step(s, request).reply is Some <==> s.pending().contains(s.current()) && !step(
            s,
            request,
        ).next.pending().contains(s.current()),
        step(s, request).next.cycles_accepted + step(s, request).next.env.cycles_available
            <= s.cycles_accepted + s.env.cycles_available,
{
}

/// The state that a sequence of system calls leaves, made one after the
/// other in one invocation.
pub open spec fn after(s: CanisterView, requests: Seq<Request>) -> CanisterView
    decreases requests.len(),
{
    if requests.len() == 0 {
        s
    } else {
        after(step(s, requests[0]).next, requests.drop_first())
    }
}

/// The number of outcomes that a sequence of system calls asks to deliver.
pub open spec fn outcomes(s: CanisterView, requests: Seq<Request>) -> nat
    decreases requests.len(),
{
    if requests.len() == 0 {
        0
    } else {
        let first: nat = if step(s, requests[0]).reply is Some {
            1
        } else {
            0
        };
        first + outcomes(step(s, requests[0]).next, requests.drop_first())
    }
}

/// Whatever a handler does in one invocation, the engine stays well formed,
/// and at most one outcome is delivered: none if the request in work does
/// not wait for a response, and one exactly if it waited and does not wait
/// any more.
pub proof fn lemma_at_most_one_outcome(s: CanisterView, requests: Seq<Request>)
    requires
        s.wf(),
    ensures
        after(s, requests).wf(),
        after(s, requests).pending().subset_of(s.pending()),
        after(s, requests).cycles_accepted >= s.cycles_accepted,
        after(s, requests).env.cycles_available <= s.env.cycles_available,
        outcomes(s, requests) <= 1,
        outcomes(s, requests) == 1 <==> s.pending().contains(s.current()) && !after(
            s,
            requests,
        ).pending().contains(s.current()),
    decreases requests.len(),
{
    if requests.len() > 0 {
        let next = step(s, requests[0]).next;
        lemma_step_keeps_invariant(s, requests[0]);
        lemma_at_most_one_outcome(next, requests.drop_first());
    }
}

/// The cycles that the outcomes of a sequence of system calls hand back.
pub open spec fn refunded(s: CanisterView, requests: Seq<Request>) -> nat
    decreases requests.len(),
{
    if requests.len() == 0 {
        0
    } else {
        let first: nat = match step(s, requests[0]).reply {
            Some(reply) => reply.refund() as nat,
            None => 0,
        };
        first + refunded(step(s, requests[0]).next, requests.drop_first())
    }
}

/// No cycle is made or lost by system calls: what the canister has
/// accepted, what the invocation still has and what went back with an
/// outcome add up to what was there before.
pub proof fn lemma_cycles_are_conserved(s: CanisterView, requests: Seq<Request>)
    requires
        s.wf(),
    ensures
        after(s, requests).cycles_accepted + after(s, requests).env.cycles_available + refunded(
            s,
            requests,
        ) == s.cycles_accepted + s.env.cycles_available,
    decreases requests.len(),
{
    if requests.len() > 0 {
        lemma_step_keeps_invariant(s, requests[0]);
        lemma_cycles_are_conserved(step(s, requests[0]).next, requests.drop_first());
    }
}

} // verus!
