//! The canister engine: the state of one simulated canister and the system
//! calls that its handlers make. Every call is decided on plain values; the
//! caller moves the bytes to and from the handler's memory and delivers the
//! outcome of a request to whoever waits for it.

use crate::memory::{bytes_result, copy_range, decode_lossy, reply_result, value_result};
use crate::model::{
    answered_message, denied_message, duplicate_message, may_answer, may_move_cycles,
    may_read_arguments, may_read_caller, may_read_refund, may_read_rejection, too_wide_message,
    CanisterView, DEFAULT_BALANCE,
};
use crate::types::{CanisterReply, EntryMode, Env, IncomingRequestId, Message, RejectionCode};
use std::collections::HashMap;
use vstd::bytes::u128_to_le_bytes;
use vstd::prelude::*;
use vstd::std_specs::hash::*;
use vstd::string::*;

verus! {

broadcast use vstd::std_specs::hash::group_hash_axioms;

/// A canister that is being executed.
#[derive(Debug, PartialEq, Eq)]
pub struct Canister {
    /// The bytes of the canister's principal.
    canister_id: Vec<u8>,
    /// The canister's cycle balance.
    balance: u128,
    /// The exported name of each registered entry point. The place of a name
    /// is the number of its task.
    symbol_table: Vec<String>,
    /// The incoming requests whose response is still owed, each with the
    /// reply bytes gathered for it so far.
    msg_reply_data: HashMap<u64, Vec<u8>>,
    /// The cycles that each incoming request had left after its last
    /// acceptance.
    cycles_available_store: HashMap<u64, u128>,
    /// The cycles accepted so far.
    cycles_accepted: u128,
    /// The execution context of the current invocation.
    env: Env,
    /// The request that the current invocation works for.
    request_id: Option<IncomingRequestId>,
}

/// A method exported by the canister.
pub trait CanisterMethod {
    /// The name under which the canister exports the method, such as
    /// `canister_init`, `canister_update increment` or
    /// `canister_pre_upgrade`.
    const EXPORT_NAME: &'static str;

    /// The exported method itself: it takes and returns nothing, reads its
    /// arguments and sends its response through system calls.
    fn exported_method();
}

impl View for Canister {
    type V = CanisterView;

    closed spec fn view(&self) -> CanisterView {
        CanisterView {
            canister_id: self.canister_id@,
            balance: self.balance,
            methods: self.symbol_table@.map_values(|name: String| name@),
            reply_data: self.msg_reply_data@.map_values(|bytes: Vec<u8>| bytes@),
            cycles_available_store: self.cycles_available_store@,
            cycles_accepted: self.cycles_accepted,
            env: self.env@,
            request_id: self.request_id,
        }
    }
}

/// Builds the error of a system call that the current mode does not admit.
fn denied(call: &str, mode: EntryMode) -> (e: String)
    ensures
        e@ == denied_message(call@, mode),
{
    let mut e = String::from_str(call);
    e.append(" can not be called from '");
    e.append(mode.name());
    e.append("'");
    e
}

/// Builds the error of a call that came after the request was answered.
fn answered(call: &str) -> (e: String)
    ensures
        e@ == answered_message(call@),
{
    let mut e = String::from_str(call);
    e.append(" may only be invoked before canister responses.");
    e
}

/// Builds the error of a 64-bit read of an amount that is wider.
fn too_wide(what: &str) -> (e: String)
    ensures
        e@ == too_wide_message(what@),
{
    let mut e = String::from_str(what);
    e.append(" cycles does not fit in u64");
    e
}

fn can_read_arguments(mode: EntryMode) -> (b: bool)
    ensures
        b == may_read_arguments(mode),
{
    match mode {
        EntryMode::Init
        | EntryMode::PostUpgrade
        | EntryMode::InspectMessage
        | EntryMode::Update
        | EntryMode::Query
        | EntryMode::CustomTask
        | EntryMode::ReplyCallback => true,
        _ => false,
    }
}

fn can_read_caller(mode: EntryMode) -> (b: bool)
    ensures
        b == may_read_caller(mode),
{
    !mode.is_callback()
}

fn can_read_rejection(mode: EntryMode) -> (b: bool)
    ensures
        b == may_read_rejection(mode),
{
    match mode {
        EntryMode::RejectCallback | EntryMode::CustomTask => true,
        _ => false,
    }
}

fn can_answer(mode: EntryMode) -> (b: bool)
    ensures
        b == may_answer(mode),
{
    mode.answers_request()
}

fn can_move_cycles(mode: EntryMode) -> (b: bool)
    ensures
        b == may_move_cycles(mode),
{
    match mode {
        EntryMode::Update | EntryMode::ReplyCallback | EntryMode::RejectCallback => true,
        _ => false,
    }
}

fn can_read_refund(mode: EntryMode) -> (b: bool)
    ensures
        b == may_read_refund(mode),
{
    match mode {
        EntryMode::CustomTask | EntryMode::ReplyCallback | EntryMode::RejectCallback => true,
        _ => false,
    }
}

impl Canister {
    /// The invariant that every engine keeps.
    pub open spec fn wf(&self) -> bool {
        self@.wf()
    }

    /// An engine for the canister with the given principal: the default
    /// balance, no entry point, no request, and an idle context.
    pub fn new(canister_id: Vec<u8>) -> (canister: Canister)
        ensures
            canister.wf(),
            canister@ == CanisterView::fresh(canister_id@),
    {
        let canister = Canister {
            canister_id,
            balance: DEFAULT_BALANCE,
            symbol_table: Vec::new(),
            msg_reply_data: HashMap::new(),
            cycles_available_store: HashMap::new(),
            cycles_accepted: 0,
            env: Env::default(),
            request_id: None,
        };
        canister
    }

    /// The bytes of the canister's principal.
    pub fn canister_id(&self) -> (id: &Vec<u8>)
        ensures
            id@ == self@.canister_id,
    {
        &self.canister_id
    }

    /// The canister's cycle balance.
    pub fn balance(&self) -> (balance: u128)
        ensures
            balance == self@.balance,
    {
        self.balance
    }

    /// The cycles accepted so far.
    pub fn cycles_accepted(&self) -> (cycles: u128)
        ensures
            cycles == self@.cycles_accepted,
    {
        self.cycles_accepted
    }

    /// The cycles that the current invocation can still accept or hand back.
    pub fn cycles_available(&self) -> (cycles: u128)
        ensures
            cycles == self@.env.cycles_available,
    {
        self.env.cycles_available
    }

    /// The entry mode of the current invocation.
    pub fn entry_mode(&self) -> (mode: EntryMode)
        ensures
            mode == self@.mode(),
    {
        self.env.entry_mode
    }

    /// The request that the current invocation works for.
    pub fn request_id(&self) -> (id: Option<IncomingRequestId>)
        ensures
            id == self@.request_id,
    {
        self.request_id
    }

    /// Whether the response to the request `id` is still owed.
    pub fn is_pending(&self, id: IncomingRequestId) -> (b: bool)
        ensures
            b == self@.pending().contains(id.0),
    {
        self.msg_reply_data.contains_key(&id.0)
    }

    /// The cycles that the request `id` had left after its last acceptance.
    pub fn stored_cycles(&self, id: IncomingRequestId) -> (cycles: Option<u128>)
        ensures
            cycles == (if self@.cycles_available_store.contains_key(id.0) {
                Some(self@.cycles_available_store[id.0])
            } else {
                None
            }),
    {
        match self.cycles_available_store.get(&id.0) {
            Some(cycles) => Some(*cycles),
            None => None,
        }
    }

    /// The number of registered entry points.
    pub fn method_count(&self) -> (n: usize)
        ensures
            n == self@.methods.len(),
    {
        self.symbol_table.len()
    }

    /// Checks the engine's invariant.
    pub fn is_well_formed(&self) -> (b: bool)
        ensures
            b == self.wf(),
    {
        if self.env.entry_mode.answers_request() && self.request_id.is_none() {
            return false;
        }
        if self.env.cycles_available > u128::MAX - self.cycles_accepted {
            return false;
        }
        let mut i: usize = 0;
        while i < self.symbol_table.len()
            invariant
                i <= self.symbol_table.len(),
                forall|a: int, b: int|
                    0 <= a < b < i ==> self@.methods[a] != self@.methods[b],
            decreases self.symbol_table.len() - i,
        {
            let mut j: usize = 0;
            while j < i
                invariant
                    j <= i < self.symbol_table.len(),
                    forall|a: int| 0 <= a < j ==> self@.methods[a] != self@.methods[i as int],
                decreases i - j,
            {
                if self.symbol_table[j] == self.symbol_table[i] {
                    assert(self@.methods[j as int] == self@.methods[i as int]);
                    return false;
                }
                j = j + 1;
            }
            i = i + 1;
        }
        true
    }

    /// Whether a message with a context of so many available cycles can
    /// begin: the cycles in play must fit in 128 bits.
    pub fn can_begin(&self, cycles_available: u128) -> (b: bool)
        ensures
            b == (self@.cycles_accepted + cycles_available <= u128::MAX),
    {
        cycles_available <= u128::MAX - self.cycles_accepted
    }

    /// The place of the entry point `name` in the symbol table.
    pub fn find_method(&self, name: &str) -> (task: Option<usize>)
        ensures
            match task {
                Some(i) => {
                    &&& i < self@.methods.len()
                    &&& self@.methods[i as int] == name@
                    &&& forall|j: int| 0 <= j < i ==> self@.methods[j] != name@
                },
                None => !self@.has_method(name@),
            },
    {
        let wanted = String::from_str(name);
        let mut i: usize = 0;
        while i < self.symbol_table.len()
            invariant
                i <= self.symbol_table.len(),
                wanted@ == name@,
                forall|j: int| 0 <= j < i ==> self@.methods[j] != name@,
            decreases self.symbol_table.len() - i,
        {
            if self.symbol_table[i] == wanted {
                return Some(i);
            }
            i = i + 1;
        }
        None
    }

    /// Whether an entry point is registered under `name`.
    pub fn has_method(&self, name: &str) -> (b: bool)
        ensures
            b == self@.has_method(name@),
    {
        self.find_method(name).is_some()
    }

    /// Appends an entry point that is not yet registered to the symbol table.
    fn push_method(self, name: &str) -> (canister: Canister)
        requires
            self.wf(),
            !self@.has_method(name@),
        ensures
            canister.wf(),
            canister@ == self@.with_method(name@),
            canister@.has_method(name@),
    {
        let mut canister = self;
        canister.symbol_table.push(String::from_str(name));
        assert(canister@ =~= self@.with_method(name@));
        assert(canister@.methods[self@.methods.len() as int] == name@);
        canister
    }

    /// Provides the canister with the definition of the method `M`, under
    /// the name that `M` exports. A name can be registered once; the
    /// method's task gets the next free number.
    pub fn with_method<M: CanisterMethod>(self) -> (canister: Canister)
        requires
            self.wf(),
            !self@.has_method(M::EXPORT_NAME@),
        ensures
            canister.wf(),
            canister@ == self@.with_method(M::EXPORT_NAME@),
            canister@.has_method(M::EXPORT_NAME@),
    {
        self.push_method(M::EXPORT_NAME)
    }

    /// Registers an entry point under `name`, unless the name is taken: a
    /// second registration of a name fails and names the method.
    pub fn try_with_method(self, name: &str) -> (r: Result<Canister, String>)
        requires
            self.wf(),
        ensures
            match r {
                Ok(canister) => {
                    &&& !self@.has_method(name@)
                    &&& canister.wf()
                    &&& canister@ == self@.with_method(name@)
                    &&& canister@.has_method(name@)
                },
                Err(e) => self@.has_method(name@) && e@ == duplicate_message(name@),
            },
    {
        if self.has_method(name) {
            let mut e = String::from_str("The canister already has a '");
            e.append(name);
            e.append("' method.");
            Err(e)
        } else {
            Ok(self.push_method(name))
        }
    }

    /// Sets the canister's cycle balance.
    pub fn with_balance(self, balance: u128) -> (canister: Canister)
        ensures
            canister@ == self@.with_balance(balance),
            self.wf() ==> canister.wf(),
    {
        let mut canister = self;
        canister.balance = balance;
        canister
    }

    /// The length of the argument bytes.
    pub fn msg_arg_data_size(&self) -> (r: Result<isize, String>)
        ensures
            value_result(r) == self@.msg_arg_data_size(),
    {
        if can_read_arguments(self.env.entry_mode) {
            Ok(self.env.args.len() as isize)
        } else {
            Err(denied("msg_arg_data_size", self.env.entry_mode))
        }
    }

    /// The `size` argument bytes at `offset`, for the handler's memory.
    pub fn msg_arg_data_copy(&self, offset: isize, size: isize) -> (r: Result<Vec<u8>, String>)
        ensures
            bytes_result(r) == self@.msg_arg_data_copy(offset, size),
    {
        if can_read_arguments(self.env.entry_mode) {
            copy_range(offset, size, self.env.args.as_slice())
        } else {
            Err(denied("msg_arg_data_copy", self.env.entry_mode))
        }
    }

    /// The length of the caller's principal.
    pub fn msg_caller_size(&self) -> (r: Result<isize, String>)
        ensures
            value_result(r) == self@.msg_caller_size(),
    {
        if can_read_caller(self.env.entry_mode) {
            Ok(self.env.sender.len() as isize)
        } else {
            Err(denied("msg_caller_size", self.env.entry_mode))
        }
    }

    /// The `size` bytes at `offset` of the caller's principal.
    pub fn msg_caller_copy(&self, offset: isize, size: isize) -> (r: Result<Vec<u8>, String>)
        ensures
            bytes_result(r) == self@.msg_caller_copy(offset, size),
    {
        if can_read_caller(self.env.entry_mode) {
            copy_range(offset, size, self.env.sender.as_slice())
        } else {
            Err(denied("msg_caller_copy", self.env.entry_mode))
        }
    }

    /// The number of the rejection code that the invocation answers to.
    pub fn msg_reject_code(&self) -> (r: Result<i32, String>)
        ensures
            value_result(r) == self@.msg_reject_code(),
    {
        if can_read_rejection(self.env.entry_mode) {
            Ok(self.env.rejection_code.code())
        } else {
            Err(denied("msg_reject_code", self.env.entry_mode))
        }
    }

    /// The length of the rejection message in bytes.
    pub fn msg_reject_msg_size(&self) -> (r: Result<isize, String>)
        ensures
            value_result(r) == self@.msg_reject_msg_size(),
    {
        if can_read_rejection(self.env.entry_mode) {
            Ok(self.env.rejection_message.as_str().len() as isize)
        } else {
            Err(denied("msg_reject_msg_size", self.env.entry_mode))
        }
    }

    /// The `size` bytes at `offset` of the rejection message.
    pub fn msg_reject_msg_copy(&self, offset: isize, size: isize) -> (r: Result<Vec<u8>, String>)
        ensures
            bytes_result(r) == self@.msg_reject_msg_copy(offset, size),
    {
        if can_read_rejection(self.env.entry_mode) {
            copy_range(offset, size, self.env.rejection_message.as_str().as_bytes())
        } else {
            Err(denied("msg_reject_msg_copy", self.env.entry_mode))
        }
    }

    /// The cycles that the invocation still has, where they fit in 64 bits.
    pub fn msg_cycles_available(&self) -> (r: Result<i64, String>)
        ensures
            value_result(r) == self@.msg_cycles_available(),
    {
        if !can_move_cycles(self.env.entry_mode) {
            Err(denied("msg_cycles_available", self.env.entry_mode))
        } else if self.env.cycles_available > 0xffff_ffff_ffff_ffff {
            Err(too_wide("available"))
        } else {
            Ok(self.env.cycles_available as u64 as i64)
        }
    }

    /// The cycles that the invocation still has, as sixteen bytes, the least
    /// significant first.
    pub fn msg_cycles_available128(&self) -> (r: Result<Vec<u8>, String>)
        ensures
            bytes_result(r) == self@.msg_cycles_available128(),
    {
        if can_move_cycles(self.env.entry_mode) {
            Ok(u128_to_le_bytes(self.env.cycles_available))
        } else {
            Err(denied("msg_cycles_available128", self.env.entry_mode))
        }
    }

    /// The cycles that came back from an outgoing call, where they fit in 64
    /// bits.
    pub fn msg_cycles_refunded(&self) -> (r: Result<i64, String>)
        ensures
            value_result(r) == self@.msg_cycles_refunded(),
    {
        if !can_read_refund(self.env.entry_mode) {
            Err(denied("msg_cycles_refunded", self.env.entry_mode))
        } else if self.env.cycles_refunded > 0xffff_ffff_ffff_ffff {
            Err(too_wide("refunded"))
        } else {
            Ok(self.env.cycles_refunded as u64 as i64)
        }
    }

    /// The cycles that came back from an outgoing call, as sixteen bytes, the
    /// least significant first.
    pub fn msg_cycles_refunded128(&self) -> (r: Result<Vec<u8>, String>)
        ensures
            bytes_result(r) == self@.msg_cycles_refunded128(),
    {
        if can_read_refund(self.env.entry_mode) {
            Ok(u128_to_le_bytes(self.env.cycles_refunded))
        } else {
            Err(denied("msg_cycles_refunded128", self.env.entry_mode))
        }
    }

    /// The length of the canister's own principal. Every mode admits it.
    pub fn canister_self_size(&self) -> (r: Result<isize, String>)
        ensures
            value_result(r) == self@.canister_self_size(),
    {
        Ok(self.canister_id.len() as isize)
    }

    /// The `size` bytes at `offset` of the canister's own principal. Every
    /// mode admits it.
    pub fn canister_self_copy(&self, offset: isize, size: isize) -> (r: Result<Vec<u8>, String>)
        ensures
            bytes_result(r) == self@.canister_self_copy(offset, size),
    {
        copy_range(offset, size, self.canister_id.as_slice())
    }
}

impl Canister {
    /// The number of the request that an answering invocation works for.
    fn current_request(&self) -> (id: u64)
        requires
            self.wf(),
            self@.mode().spec_answers_request(),
        ensures
            id == self@.current(),
    {
        match self.request_id {
            Some(id) => id.0,
            // Not reached: a mode that answers a request knows which.
            None => 0,
        }
    }

    /// Begins the invocation that `message` asks for: looks up its entry
    /// point and, where it is registered, installs the message's context and
    /// request. Returns the number of the task to run. A message for an
    /// entry point that is not registered changes nothing.
    pub fn begin_message(&mut self, message: Message) -> (task: Option<usize>)
        requires
            old(self).wf(),
            old(self)@.cycles_accepted + message.env.cycles_available <= u128::MAX,
        ensures
            final(self).wf(),
            match task {
                Some(i) => {
                    &&& i < old(self)@.methods.len()
                    &&& old(self)@.methods[i as int] == message.entry_point@
                    &&& final(self)@ == old(self)@.begun(message.request_id, message.env@)
                },
                None => {
                    &&& !old(self)@.has_method(message.entry_point@)
                    &&& final(self)@ == old(self)@
                },
            },
    {
        let task = self.find_method(message.entry_point.as_str());
        if task.is_none() {
            return None;
        }
        if message.env.entry_mode.expects_response() && !self.msg_reply_data.contains_key(
            &message.request_id.0,
        ) {
            self.msg_reply_data.insert(message.request_id.0, Vec::new());
        }
        self.env = message.env;
        self.request_id = Some(message.request_id);
        task
    }

    /// Gathers `data` behind the reply bytes of the request in work, as long
    /// as that request waits for its response.
    pub fn msg_reply_data_append(&mut self, data: &[u8]) -> (r: Result<(), String>)
        requires
            old(self).wf(),
        ensures
            final(self).wf(),
            value_result(r) == old(self)@.msg_reply_data_append(data@).0,
            final(self)@ == old(self)@.msg_reply_data_append(data@).1,
    {
        if !can_answer(self.env.entry_mode) {
            return Err(denied("msg_reply_data_append", self.env.entry_mode));
        }
        let id = self.current_request();
        let mut reply_data: Vec<u8> = match self.msg_reply_data.remove(&id) {
            Some(gathered) => gathered,
            None => {
                return Err(answered("msg_reply_data_append"));
            },
        };
        let ghost gathered = reply_data@;
        reply_data.extend_from_slice(data);
        assert(reply_data@ =~= gathered + data@);
        self.msg_reply_data.insert(id, reply_data);
        Ok(())
    }

    /// Takes the request in work out of the waiting ones, with the bytes
    /// gathered for it. Returns `None`, and changes nothing, where the
    /// request does not wait for a response any more.
    fn take_pending(&mut self, id: u64) -> (gathered: Option<Vec<u8>>)
        requires
            old(self).wf(),
            old(self)@.mode().spec_answers_request(),
            id == old(self)@.current(),
        ensures
            match gathered {
                Some(bytes) => {
                    &&& old(self)@.awaits_response()
                    &&& bytes@ == old(self)@.gathered()
                    &&& final(self)@ == (CanisterView {
                        env: old(self)@.env,
                        ..old(self)@.answered()
                    })
                },
                None => !old(self)@.awaits_response() && final(self)@ == old(self)@,
            },
    {
        self.msg_reply_data.remove(&id)
    }

    /// Answers the request in work with the bytes gathered for it. The
    /// caller delivers the returned outcome to whoever waits for it.
    pub fn msg_reply(&mut self) -> (r: Result<CanisterReply, String>)
        requires
            old(self).wf(),
        ensures
            final(self).wf(),
            reply_result(r) == old(self)@.msg_reply().0,
            final(self)@ == old(self)@.msg_reply().1,
    {
        if !can_answer(self.env.entry_mode) {
            return Err(denied("msg_reply", self.env.entry_mode));
        }
        let id = self.current_request();
        match self.take_pending(id) {
            None => Err(answered("msg_reply")),
            Some(data) => {
                let cycles_refunded = self.env.cycles_available;
                self.env.cycles_available = 0;
                Ok(CanisterReply::Reply { data, cycles_refunded })
            },
        }
    }

    /// Answers the request in work with a rejection whose message is the
    /// text of `message`. The caller delivers the returned outcome.
    pub fn msg_reject(&mut self, message: &[u8]) -> (r: Result<CanisterReply, String>)
        requires
            old(self).wf(),
        ensures
            final(self).wf(),
            reply_result(r) == old(self)@.msg_reject(message@).0,
            final(self)@ == old(self)@.msg_reject(message@).1,
    {
        if !can_answer(self.env.entry_mode) {
            return Err(denied("msg_reject", self.env.entry_mode));
        }
        let id = self.current_request();
        match self.take_pending(id) {
            None => Err(answered("msg_reject")),
            Some(_) => {
                let cycles_refunded = self.env.cycles_available;
                let rejection_message = decode_lossy(message);
                self.env.cycles_available = 0;
                Ok(
                    CanisterReply::Reject {
                        rejection_code: RejectionCode::CanisterReject,
                        rejection_message,
                        cycles_refunded,
                    },
                )
            },
        }
    }

    /// Moves the lesser of `requested` and the available cycles from the
    /// invocation to the canister, and records what the request has left.
    fn accept_cycles(&mut self, requested: u128) -> (amount: u128)
        requires
            old(self).wf(),
            may_move_cycles(old(self)@.mode()),
        ensures
            final(self).wf(),
            amount == old(self)@.acceptable(requested),
            final(self)@ == old(self)@.accepted(amount),
    {
        let id = self.current_request();
        let amount: u128 = if self.env.cycles_available <= requested {
            self.env.cycles_available
        } else {
            requested
        };
        self.env.cycles_available = self.env.cycles_available - amount;
        self.cycles_accepted = self.cycles_accepted + amount;
        self.cycles_available_store.insert(id, self.env.cycles_available);
        amount
    }

    /// Accepts at most `max_amount` of the available cycles, read as an
    /// unsigned amount, and returns the amount accepted.
    pub fn msg_cycles_accept(&mut self, max_amount: i64) -> (r: Result<i64, String>)
        requires
            old(self).wf(),
        ensures
            final(self).wf(),
            value_result(r) == old(self)@.msg_cycles_accept(max_amount).0,
            final(self)@ == old(self)@.msg_cycles_accept(max_amount).1,
    {
        if !can_move_cycles(self.env.entry_mode) {
            return Err(denied("msg_cycles_accept", self.env.entry_mode));
        }
        let amount = self.accept_cycles(max_amount as u64 as u128);
        Ok(amount as u64 as i64)
    }

    /// Accepts at most the amount that the two halves make up, the high one
    /// counting 2^64 times, and returns the amount accepted as sixteen bytes,
    /// the least significant first.
    pub fn msg_cycles_accept128(&mut self, max_amount_high: i64, max_amount_low: i64) -> (r:
        Result<Vec<u8>, String>)
        requires
            old(self).wf(),
        ensures
            final(self).wf(),
            bytes_result(r) == old(self)@.msg_cycles_accept128(max_amount_high, max_amount_low).0,
            final(self)@ == old(self)@.msg_cycles_accept128(max_amount_high, max_amount_low).1,
    {
        if !can_move_cycles(self.env.entry_mode) {
            return Err(denied("msg_cycles_accept128", self.env.entry_mode));
        }
        let high: u128 = max_amount_high as u64 as u128;
        let low: u128 = max_amount_low as u64 as u128;
        let amount = self.accept_cycles(high * 0x1_0000_0000_0000_0000u128 + low);
        Ok(u128_to_le_bytes(amount))
    }
}

} // verus!
