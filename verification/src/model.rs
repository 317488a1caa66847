//! The engine as a state machine over mathematical values: what a canister
//! engine holds, which entry modes admit which system call, and what each
//! system call answers and changes.

use crate::memory::{spec_copy_range, utf8_lossy};
use crate::types::{EntryMode, EnvView, IncomingRequestId, RejectionCode, ReplyView};
use vstd::bytes::spec_u128_to_le_bytes;
use vstd::prelude::*;

verus! {

/// The balance of an engine that was given none.
pub const DEFAULT_BALANCE: u128 = 100_000_000_000_000;

/// The rejection code of a request that the handler itself rejected.
pub open spec fn handler_rejection() -> RejectionCode {
    RejectionCode::CanisterReject
}

/// The error of a second registration of an entry point.
pub open spec fn duplicate_message(name: Seq<char>) -> Seq<char> {
    "The canister already has a '"@ + name + "' method."@
}

/// The error of a system call made from a mode that does not admit it.
pub open spec fn denied_message(call: Seq<char>, mode: EntryMode) -> Seq<char> {
    call + " can not be called from '"@ + mode.spec_name() + "'"@
}

/// The error of a call that needs a request which is already answered.
pub open spec fn answered_message(call: Seq<char>) -> Seq<char> {
    call + " may only be invoked before canister responses."@
}

/// The error of the 64-bit read of an amount that needs more than 64 bits.
pub open spec fn too_wide_message(what: Seq<char>) -> Seq<char> {
    what + " cycles does not fit in u64"@
}

/// Modes that receive arguments from their caller.
pub open spec fn may_read_arguments(mode: EntryMode) -> bool {
    mode is Init || mode is PostUpgrade || mode is InspectMessage || mode is Update
        || mode is Query || mode is CustomTask || mode is ReplyCallback
}

/// Modes that know a caller: all but the callbacks.
pub open spec fn may_read_caller(mode: EntryMode) -> bool {
    !mode.spec_is_callback()
}

/// Modes that hold a rejection to look at.
pub open spec fn may_read_rejection(mode: EntryMode) -> bool {
    mode is RejectCallback || mode is CustomTask
}

/// Modes that are answering a top-level request.
pub open spec fn may_answer(mode: EntryMode) -> bool {
    mode.spec_answers_request()
}

/// Modes that carry cycles which the canister may accept.
pub open spec fn may_move_cycles(mode: EntryMode) -> bool {
    mode is Update || mode.spec_is_callback()
}

/// Modes that can see what an outgoing call handed back.
pub open spec fn may_read_refund(mode: EntryMode) -> bool {
    mode is CustomTask || mode.spec_is_callback()
}

/// A signed 64-bit argument read as the unsigned amount it transports.
pub open spec fn amount_of(raw: i64) -> u128 {
    (raw as u64) as u128
}

/// The amount that two 64-bit halves transport.
pub open spec fn amount_of_halves(high: i64, low: i64) -> u128 {
    ((high as u64) as int * 0x1_0000_0000_0000_0000 + (low as u64) as int) as u128
}

/// An amount of at most 64 bits as the signed integer that transports it.
pub open spec fn raw_of(amount: u128) -> i64 {
    (amount as u64) as i64
}

/// A length as the size integer in which a handler receives it.
pub open spec fn size_of(len: nat) -> isize {
    (len as usize) as isize
}

/// The lesser of two amounts.
pub open spec fn min_amount(a: u128, b: u128) -> u128 {
    if a <= b {
        a
    } else {
        b
    }
}

/// What a canister engine holds.
#[verifier::ext_equal]
pub struct CanisterView {
    /// The bytes of the canister's own principal.
    pub canister_id: Seq<u8>,
    pub balance: u128,
    /// The exported names of the registered entry points, in the order of
    /// their registration.
    pub methods: Seq<Seq<char>>,
    /// The requests that still wait for their one response, each with the
    /// reply bytes gathered for it so far.
    pub reply_data: Map<u64, Seq<u8>>,
    /// The cycles that each request had left after its last acceptance.
    pub cycles_available_store: Map<u64, u128>,
    /// The cycles accepted so far.
    pub cycles_accepted: u128,
    pub env: EnvView,
    /// The request that the current invocation works for.
    pub request_id: Option<IncomingRequestId>,
}

impl CanisterView {
    /// The state of an engine that holds `canister_id` and nothing else.
    pub open spec fn fresh(canister_id: Seq<u8>) -> CanisterView {
        CanisterView {
            canister_id,
            balance: DEFAULT_BALANCE,
            methods: Seq::empty(),
            reply_data: Map::empty(),
            cycles_available_store: Map::empty(),
            cycles_accepted: 0,
            env: EnvView::idle(),
            request_id: None,
        }
    }

    /// The invariant of an engine: no entry point is registered twice, a
    /// mode that answers a request knows which, and the cycles in play fit
    /// in 128 bits.
    pub open spec fn wf(self) -> bool {
        &&& self.methods.no_duplicates()
        &&& self.env.entry_mode.spec_answers_request() ==> self.request_id is Some
        &&& self.cycles_accepted + self.env.cycles_available <= u128::MAX
    }

    /// The requests that still wait for their one response.
    pub open spec fn pending(self) -> Set<u64> {
        self.reply_data.dom()
    }

    /// The entry mode of the current invocation.
    pub open spec fn mode(self) -> EntryMode {
        self.env.entry_mode
    }

    /// The number of the request in work.
    pub open spec fn current(self) -> u64 {
        self.request_id.unwrap().0
    }

    /// The request in work still waits for its response.
    pub open spec fn awaits_response(self) -> bool {
        self.reply_data.contains_key(self.current())
    }

    /// The reply bytes gathered for the request in work.
    pub open spec fn gathered(self) -> Seq<u8> {
        if self.reply_data.contains_key(self.current()) {
            self.reply_data[self.current()]
        } else {
            Seq::empty()
        }
    }

    /// An entry point is registered under `name`.
    pub open spec fn has_method(self, name: Seq<char>) -> bool {
        self.methods.contains(name)
    }

    /// The state with `name` registered behind the entry points so far.
    pub open spec fn with_method(self, name: Seq<char>) -> CanisterView {
        CanisterView { methods: self.methods.push(name), ..self }
    }

    /// The state with the balance set.
    pub open spec fn with_balance(self, balance: u128) -> CanisterView {
        CanisterView { balance, ..self }
    }

    /// The state in which the invocation of `env` for the request `id` has
    /// begun: the context is replaced, and a request that expects a
    /// response starts to wait for it, with no reply bytes yet.
    pub open spec fn begun(self, id: IncomingRequestId, env: EnvView) -> CanisterView {
        CanisterView {
            env,
            request_id: Some(id),
            reply_data: if env.entry_mode.spec_expects_response() && !self.reply_data.contains_key(
                id.0,
            ) {
                self.reply_data.insert(id.0, Seq::empty())
            } else {
                self.reply_data
            },
            ..self
        }
    }

    /// The state in which the current invocation has given its answer: the
    /// request waits no longer, its gathered bytes are gone, and the cycles
    /// that were left have gone back with the answer.
    pub open spec fn answered(self) -> CanisterView {
        CanisterView {
            reply_data: self.reply_data.remove(self.current()),
            env: EnvView { cycles_available: 0, ..self.env },
            ..self
        }
    }

    /// The state after the canister has taken `amount` of the available
    /// cycles.
    pub open spec fn accepted(self, amount: u128) -> CanisterView {
        let left = (self.env.cycles_available - amount) as u128;
        CanisterView {
            cycles_accepted: (self.cycles_accepted + amount) as u128,
            cycles_available_store: self.cycles_available_store.insert(self.current(), left),
            env: EnvView { cycles_available: left, ..self.env },
            ..self
        }
    }

    /// The length of the argument bytes, in the modes that receive arguments.
    pub open spec fn msg_arg_data_size(self) -> Result<isize, Seq<char>> {
        if may_read_arguments(self.mode()) {
            Ok(size_of(self.env.args.len()))
        } else {
            Err(denied_message("msg_arg_data_size"@, self.mode()))
        }
    }

    /// A range of the argument bytes, in the modes that receive arguments.
    pub open spec fn msg_arg_data_copy(self, offset: isize, size: isize) -> Result<
        Seq<u8>,
        Seq<char>,
    > {
        if may_read_arguments(self.mode()) {
            spec_copy_range(offset as int, size as int, self.env.args)
        } else {
            Err(denied_message("msg_arg_data_copy"@, self.mode()))
        }
    }

    /// The length of the caller's principal, in the modes that know a caller.
    pub open spec fn msg_caller_size(self) -> Result<isize, Seq<char>> {
        if may_read_caller(self.mode()) {
            Ok(size_of(self.env.sender.len()))
        } else {
            Err(denied_message("msg_caller_size"@, self.mode()))
        }
    }

    /// A range of the caller's principal, in the modes that know a caller.
    pub open spec fn msg_caller_copy(self, offset: isize, size: isize) -> Result<
        Seq<u8>,
        Seq<char>,
    > {
        if may_read_caller(self.mode()) {
            spec_copy_range(offset as int, size as int, self.env.sender)
        } else {
            Err(denied_message("msg_caller_copy"@, self.mode()))
        }
    }

    /// The number of the rejection code, in the modes that hold a rejection.
    pub open spec fn msg_reject_code(self) -> Result<i32, Seq<char>> {
        if may_read_rejection(self.mode()) {
            Ok(self.env.rejection_code.spec_code())
        } else {
            Err(denied_message("msg_reject_code"@, self.mode()))
        }
    }

    /// The length of the rejection message in bytes, in the modes that hold
    /// a rejection.
    pub open spec fn msg_reject_msg_size(self) -> Result<isize, Seq<char>> {
        if may_read_rejection(self.mode()) {
            Ok(size_of(self.env.rejection_bytes().len()))
        } else {
            Err(denied_message("msg_reject_msg_size"@, self.mode()))
        }
    }

    /// A range of the rejection message's bytes, in the modes that hold a
    /// rejection.
    pub open spec fn msg_reject_msg_copy(self, offset: isize, size: isize) -> Result<
        Seq<u8>,
        Seq<char>,
    > {
        if may_read_rejection(self.mode()) {
            spec_copy_range(offset as int, size as int, self.env.rejection_bytes())
        } else {
            Err(denied_message("msg_reject_msg_copy"@, self.mode()))
        }
    }

    /// The available cycles in 64 bits, in the modes that carry cycles, as
    /// long as they fit.
    pub open spec fn msg_cycles_available(self) -> Result<i64, Seq<char>> {
        if !may_move_cycles(self.mode()) {
            Err(denied_message("msg_cycles_available"@, self.mode()))
        } else if self.env.cycles_available > u64::MAX {
            Err(too_wide_message("available"@))
        } else {
            Ok(raw_of(self.env.cycles_available))
        }
    }

    /// The available cycles in sixteen bytes, in the modes that carry cycles.
    pub open spec fn msg_cycles_available128(self) -> Result<Seq<u8>, Seq<char>> {
        if may_move_cycles(self.mode()) {
            Ok(spec_u128_to_le_bytes(self.env.cycles_available))
        } else {
            Err(denied_message("msg_cycles_available128"@, self.mode()))
        }
    }

    /// The refunded cycles in 64 bits, in the modes that can see a refund, as
    /// long as they fit.
    pub open spec fn msg_cycles_refunded(self) -> Result<i64, Seq<char>> {
        if !may_read_refund(self.mode()) {
            Err(denied_message("msg_cycles_refunded"@, self.mode()))
        } else if self.env.cycles_refunded > u64::MAX {
            Err(too_wide_message("refunded"@))
        } else {
            Ok(raw_of(self.env.cycles_refunded))
        }
    }

    /// The refunded cycles in sixteen bytes, in the modes that can see a
    /// refund.
    pub open spec fn msg_cycles_refunded128(self) -> Result<Seq<u8>, Seq<char>> {
        if may_read_refund(self.mode()) {
            Ok(spec_u128_to_le_bytes(self.env.cycles_refunded))
        } else {
            Err(denied_message("msg_cycles_refunded128"@, self.mode()))
        }
    }

    /// The length of the canister's own principal, in every mode.
    pub open spec fn canister_self_size(self) -> Result<isize, Seq<char>> {
        Ok(size_of(self.canister_id.len()))
    }

    /// A range of the canister's own principal, in every mode.
    pub open spec fn canister_self_copy(self, offset: isize, size: isize) -> Result<
        Seq<u8>,
        Seq<char>,
    > {
        spec_copy_range(offset as int, size as int, self.canister_id)
    }

    /// Gathers `data` behind the bytes already gathered for the request in
    /// work, while that request still waits for its response.
    pub open spec fn msg_reply_data_append(self, data: Seq<u8>) -> (
        Result<(), Seq<char>>,
        CanisterView,
    ) {
        if !may_answer(self.mode()) {
            (Err(denied_message("msg_reply_data_append"@, self.mode())), self)
        } else if !self.awaits_response() {
            (Err(answered_message("msg_reply_data_append"@)), self)
        } else {
            (
                Ok(()),
                CanisterView {
                    reply_data: self.reply_data.insert(self.current(), self.gathered() + data),
                    ..self
                },
            )
        }
    }

    /// Answers the request in work with the gathered bytes.
    pub open spec fn msg_reply(self) -> (Result<ReplyView, Seq<char>>, CanisterView) {
        if !may_answer(self.mode()) {
            (Err(denied_message("msg_reply"@, self.mode())), self)
        } else if !self.awaits_response() {
            (Err(answered_message("msg_reply"@)), self)
        } else {
            (
                Ok(
                    ReplyView::Reply {
                        data: self.gathered(),
                        cycles_refunded: self.env.cycles_available,
                    },
                ),
                self.answered(),
            )
        }
    }

    /// Answers the request in work with a rejection whose message is the
    /// text of `message`.
    pub open spec fn msg_reject(self, message: Seq<u8>) -> (
        Result<ReplyView, Seq<char>>,
        CanisterView,
    ) {
        if !may_answer(self.mode()) {
            (Err(denied_message("msg_reject"@, self.mode())), self)
        } else if !self.awaits_response() {
            (Err(answered_message("msg_reject"@)), self)
        } else {
            (
                Ok(
                    ReplyView::Reject {
                        rejection_code: handler_rejection(),
                        rejection_message: utf8_lossy(message),
                        cycles_refunded: self.env.cycles_available,
                    },
                ),
                self.answered(),
            )
        }
    }

    /// The amount that an acceptance of at most `requested` cycles takes.
    pub open spec fn acceptable(self, requested: u128) -> u128 {
        min_amount(self.env.cycles_available, requested)
    }

    /// Accepts the lesser of the amount asked for and the available cycles,
    /// in the modes that carry cycles.
    pub open spec fn msg_cycles_accept(self, max_amount: i64) -> (
        Result<i64, Seq<char>>,
        CanisterView,
    ) {
        if may_move_cycles(self.mode()) {
            let amount = self.acceptable(amount_of(max_amount));
            (Ok(raw_of(amount)), self.accepted(amount))
        } else {
            (Err(denied_message("msg_cycles_accept"@, self.mode())), self)
        }
    }

    /// Accepts as the narrow call does; the amount asked for comes in two
    /// halves and the amount accepted goes back in sixteen bytes.
    pub open spec fn msg_cycles_accept128(self, max_amount_high: i64, max_amount_low: i64) -> (
        Result<Seq<u8>, Seq<char>>,
        CanisterView,
    ) {
        if may_move_cycles(self.mode()) {
            let amount = self.acceptable(amount_of_halves(max_amount_high, max_amount_low));
            (Ok(spec_u128_to_le_bytes(amount)), self.accepted(amount))
        } else {
            (Err(denied_message("msg_cycles_accept128"@, self.mode())), self)
        }
    }
}

} // verus!
