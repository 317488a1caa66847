use ic_kit::canister::{Canister, CanisterMethod};
use ic_kit::types::{
    CanisterReply, EntryMode, Env, IncomingRequestId, Message, RejectionCode,
};

const ECHO: &str = "canister_query echo";
const PAY: &str = "canister_update pay";

fn env(entry_mode: EntryMode, args: &[u8], cycles_available: u128) -> Env {
    Env {
        entry_mode,
        args: args.to_vec(),
        sender: vec![9, 8, 7, 6],
        cycles_available,
        cycles_refunded: 0,
        rejection_code: RejectionCode::NoError,
        rejection_message: String::new(),
    }
}

fn message(id: u64, entry_point: &str, env: Env) -> Message {
    Message { request_id: IncomingRequestId(id), entry_point: entry_point.to_string(), env }
}

fn engine() -> Canister {
    Canister::new(vec![0, 0, 0, 0, 0, 0, 0, 1, 1, 1])
        .try_with_method(ECHO)
        .unwrap()
        .try_with_method(PAY)
        .unwrap()
}

fn engine_in(entry_mode: EntryMode, cycles_available: u128) -> Canister {
    let mut canister = engine();
    assert!(canister.can_begin(cycles_available));
    let task = canister.begin_message(message(1, PAY, env(entry_mode, &[5, 6], cycles_available)));
    assert_eq!(task, Some(1));
    canister
}

fn denied(call: &str, mode: &str) -> String {
    format!("{} can not be called from '{}'", call, mode)
}

struct Increment;

impl CanisterMethod for Increment {
    const EXPORT_NAME: &'static str = "canister_update increment";

    fn exported_method() {}
}

#[test]
fn new_engine_is_idle() {
    let canister = Canister::new(vec![1, 2, 3]);
    assert_eq!(canister.canister_id(), &vec![1, 2, 3]);
    assert_eq!(canister.balance(), 100_000_000_000_000);
    assert_eq!(canister.cycles_accepted(), 0);
    assert_eq!(canister.cycles_available(), 0);
    assert_eq!(canister.entry_mode(), EntryMode::CustomTask);
    assert_eq!(canister.request_id(), None);
    assert_eq!(canister.method_count(), 0);
    assert!(!canister.is_pending(IncomingRequestId(0)));
}

#[test]
fn with_balance_sets_the_balance_only() {
    let canister = engine().with_balance(42);
    assert_eq!(canister.balance(), 42);
    assert_eq!(canister.method_count(), 2);
    assert_eq!(canister.cycles_accepted(), 0);
}

#[test]
fn with_method_registers_under_the_exported_name() {
    let canister = Canister::new(vec![]).with_method::<Increment>();
    assert!(canister.has_method("canister_update increment"));
    assert_eq!(canister.find_method("canister_update increment"), Some(0));
    assert!(!canister.has_method("canister_update"));
}

#[test]
fn methods_are_numbered_in_the_order_of_registration() {
    let canister = engine();
    assert_eq!(canister.find_method(ECHO), Some(0));
    assert_eq!(canister.find_method(PAY), Some(1));
    assert_eq!(canister.find_method("canister_init"), None);
}

#[test]
fn registering_a_name_twice_fails() {
    let canister = Canister::new(vec![]).try_with_method(ECHO).unwrap();
    assert!(canister.has_method(ECHO));
    let second = canister.try_with_method(ECHO);
    assert_eq!(
        second,
        Err("The canister already has a 'canister_query echo' method.".to_string())
    );
}

#[test]
fn unknown_entry_point_begins_nothing() {
    let mut canister = engine();
    let task = canister.begin_message(message(3, "canister_update nope", env(EntryMode::Update, &[], 10)));
    assert_eq!(task, None);
    assert_eq!(canister, engine());
}

#[test]
fn begin_message_installs_context_and_request() {
    let mut canister = engine();
    let task = canister.begin_message(message(3, ECHO, env(EntryMode::Query, &[1], 77)));
    assert_eq!(task, Some(0));
    assert_eq!(canister.entry_mode(), EntryMode::Query);
    assert_eq!(canister.request_id(), Some(IncomingRequestId(3)));
    assert_eq!(canister.cycles_available(), 77);
    assert!(canister.is_pending(IncomingRequestId(3)));
}

#[test]
fn lifecycle_message_owes_no_response() {
    let mut canister = engine();
    canister.begin_message(message(3, ECHO, env(EntryMode::Init, &[1], 0)));
    assert_eq!(canister.request_id(), Some(IncomingRequestId(3)));
    assert!(!canister.is_pending(IncomingRequestId(3)));
}

#[test]
fn can_begin_guards_the_cycle_ledger() {
    let mut canister = engine_in(EntryMode::Update, 500);
    assert_eq!(canister.msg_cycles_accept(500), Ok(500));
    assert!(canister.can_begin(u128::MAX - 500));
    assert!(!canister.can_begin(u128::MAX - 499));
}

#[test]
fn query_echoes_its_argument() {
    let mut canister = engine();
    let task = canister.begin_message(message(1, ECHO, env(EntryMode::Query, &[1, 2, 3], 0)));
    assert_eq!(task, Some(0));
    let size = canister.msg_arg_data_size().unwrap();
    assert_eq!(size, 3);
    let bytes = canister.msg_arg_data_copy(0, size).unwrap();
    assert_eq!(bytes, vec![1, 2, 3]);
    assert_eq!(canister.msg_reply_data_append(&bytes), Ok(()));
    assert_eq!(
        canister.msg_reply(),
        Ok(CanisterReply::Reply { data: vec![1, 2, 3], cycles_refunded: 0 })
    );
    assert!(!canister.is_pending(IncomingRequestId(1)));
}

#[test]
fn second_reply_is_refused() {
    let mut canister = engine_in(EntryMode::Update, 30);
    canister.msg_reply_data_append(&[7]).unwrap();
    let first = canister.msg_reply();
    assert_eq!(first, Ok(CanisterReply::Reply { data: vec![7], cycles_refunded: 30 }));
    let mut after_first = engine_in(EntryMode::Update, 30);
    after_first.msg_reply().unwrap();
    assert_eq!(
        canister.msg_reply(),
        Err("msg_reply may only be invoked before canister responses.".to_string())
    );
    assert_eq!(canister, after_first);
    assert_eq!(
        canister.msg_reject(b"late"),
        Err("msg_reject may only be invoked before canister responses.".to_string())
    );
    assert_eq!(canister, after_first);
    assert_eq!(
        canister.msg_reply_data_append(&[1]),
        Err("msg_reply_data_append may only be invoked before canister responses.".to_string())
    );
    assert_eq!(canister, after_first);
}

#[test]
fn reply_after_reject_is_refused() {
    let mut canister = engine_in(EntryMode::Query, 0);
    assert!(canister.msg_reject(b"no").is_ok());
    assert_eq!(
        canister.msg_reply(),
        Err("msg_reply may only be invoked before canister responses.".to_string())
    );
}

#[test]
fn reply_without_appends_is_empty() {
    let mut canister = engine_in(EntryMode::Update, 5);
    assert_eq!(canister.msg_reply(), Ok(CanisterReply::Reply { data: vec![], cycles_refunded: 5 }));
    assert_eq!(canister.cycles_available(), 0);
}

#[test]
fn appends_gather_in_order() {
    let mut canister = engine_in(EntryMode::Update, 0);
    canister.msg_reply_data_append(&[1, 2]).unwrap();
    canister.msg_reply_data_append(&[]).unwrap();
    canister.msg_reply_data_append(&[3]).unwrap();
    assert_eq!(
        canister.msg_reply(),
        Ok(CanisterReply::Reply { data: vec![1, 2, 3], cycles_refunded: 0 })
    );
}

#[test]
fn reject_drops_gathered_bytes_and_carries_the_message() {
    let mut canister = engine_in(EntryMode::Update, 12);
    canister.msg_reply_data_append(&[1, 2]).unwrap();
    assert_eq!(
        canister.msg_reject("not today".as_bytes()),
        Ok(CanisterReply::Reject {
            rejection_code: RejectionCode::CanisterReject,
            rejection_message: "not today".to_string(),
            cycles_refunded: 12,
        })
    );
    assert_eq!(canister.cycles_available(), 0);
    assert!(!canister.is_pending(IncomingRequestId(1)));
}

#[test]
fn reject_message_replaces_invalid_bytes() {
    let mut canister = engine_in(EntryMode::Update, 0);
    let reply = canister.msg_reject(&[b'a', 0xff, b'b']).unwrap();
    assert_eq!(
        reply,
        CanisterReply::Reject {
            rejection_code: RejectionCode::CanisterReject,
            rejection_message: "a\u{fffd}b".to_string(),
            cycles_refunded: 0,
        }
    );
}

#[test]
fn reject_message_decodes_multibyte_text() {
    let mut canister = engine_in(EntryMode::Update, 0);
    let reply = canister.msg_reject("gr\u{fc}n".as_bytes()).unwrap();
    match reply {
        CanisterReply::Reject { rejection_message, .. } => {
            assert_eq!(rejection_message.chars().count(), 4);
            assert_eq!(rejection_message, "gr\u{fc}n");
        }
        CanisterReply::Reply { .. } => panic!("a rejection was expected"),
    }
}

#[test]
fn accept_takes_what_is_available() {
    let mut canister = engine_in(EntryMode::Update, 500);
    assert_eq!(canister.msg_cycles_accept(1000), Ok(500));
    assert_eq!(canister.msg_cycles_available(), Ok(0));
    assert_eq!(canister.cycles_available(), 0);
    assert_eq!(canister.cycles_accepted(), 500);
    assert_eq!(canister.stored_cycles(IncomingRequestId(1)), Some(0));
}

#[test]
fn accept_takes_what_is_asked_for() {
    let mut canister = engine_in(EntryMode::Update, 500);
    assert_eq!(canister.msg_cycles_accept(120), Ok(120));
    assert_eq!(canister.cycles_available(), 380);
    assert_eq!(canister.cycles_accepted(), 120);
    assert_eq!(canister.stored_cycles(IncomingRequestId(1)), Some(380));
    assert_eq!(canister.msg_cycles_accept(0), Ok(0));
    assert_eq!(canister.cycles_available(), 380);
    assert_eq!(canister.msg_cycles_accept(380), Ok(380));
    assert_eq!(canister.cycles_available(), 0);
    assert_eq!(canister.cycles_accepted(), 500);
}

#[test]
fn accepted_cycles_add_up_over_messages() {
    let mut canister = engine_in(EntryMode::Update, 500);
    assert_eq!(canister.msg_cycles_accept(500), Ok(500));
    canister.msg_reply().unwrap();
    canister.begin_message(message(2, PAY, env(EntryMode::Update, &[], 40)));
    assert_eq!(canister.msg_cycles_accept(15), Ok(15));
    assert_eq!(canister.cycles_accepted(), 515);
    assert_eq!(canister.stored_cycles(IncomingRequestId(2)), Some(25));
    assert_eq!(canister.msg_reply(), Ok(CanisterReply::Reply { data: vec![], cycles_refunded: 25 }));
}

#[test]
fn accept_reads_a_negative_argument_as_unsigned() {
    let mut canister = engine_in(EntryMode::Update, 1u128 << 70);
    assert_eq!(canister.msg_cycles_accept(-1), Ok(-1));
    assert_eq!(canister.cycles_accepted(), u64::MAX as u128);
    assert_eq!(canister.cycles_available(), (1u128 << 70) - u64::MAX as u128);
}

#[test]
fn wide_accept_joins_its_halves() {
    let mut canister = engine_in(EntryMode::Update, 1u128 << 70);
    let bytes = canister.msg_cycles_accept128(1, 5).unwrap();
    let amount = (1u128 << 64) + 5;
    assert_eq!(bytes, amount.to_le_bytes().to_vec());
    assert_eq!(canister.cycles_accepted(), amount);
    assert_eq!(canister.cycles_available(), (1u128 << 70) - amount);
    assert_eq!(canister.stored_cycles(IncomingRequestId(1)), Some((1u128 << 70) - amount));
}

#[test]
fn wide_accept_agrees_with_narrow_accept() {
    let mut narrow = engine_in(EntryMode::Update, 500);
    let mut wide = engine_in(EntryMode::Update, 500);
    assert_eq!(narrow.msg_cycles_accept(1000), Ok(500));
    assert_eq!(wide.msg_cycles_accept128(0, 1000), Ok(500u128.to_le_bytes().to_vec()));
    assert_eq!(narrow, wide);
}

#[test]
fn wide_accept_is_capped_by_what_is_available() {
    let mut canister = engine_in(EntryMode::ReplyCallback, 9);
    let bytes = canister.msg_cycles_accept128(-1, -1).unwrap();
    assert_eq!(bytes, 9u128.to_le_bytes().to_vec());
    assert_eq!(canister.cycles_available(), 0);
    assert_eq!(canister.cycles_accepted(), 9);
}

#[test]
fn available_cycles_in_both_widths() {
    let canister = engine_in(EntryMode::Update, 0x0102);
    assert_eq!(canister.msg_cycles_available(), Ok(0x0102));
    let mut expected = vec![0u8; 16];
    expected[0] = 0x02;
    expected[1] = 0x01;
    assert_eq!(canister.msg_cycles_available128(), Ok(expected));
}

#[test]
fn available_cycles_beyond_64_bits() {
    let canister = engine_in(EntryMode::Update, u64::MAX as u128 + 1);
    assert_eq!(
        canister.msg_cycles_available(),
        Err("available cycles does not fit in u64".to_string())
    );
    assert_eq!(
        canister.msg_cycles_available128(),
        Ok((u64::MAX as u128 + 1).to_le_bytes().to_vec())
    );
    let at_limit = engine_in(EntryMode::Update, u64::MAX as u128);
    assert_eq!(at_limit.msg_cycles_available(), Ok(-1));
}

#[test]
fn refunded_cycles_in_both_widths() {
    let mut canister = engine();
    let mut context = env(EntryMode::ReplyCallback, &[], 0);
    context.cycles_refunded = 321;
    canister.begin_message(message(4, PAY, context));
    assert_eq!(canister.msg_cycles_refunded(), Ok(321));
    assert_eq!(canister.msg_cycles_refunded128(), Ok(321u128.to_le_bytes().to_vec()));
}

#[test]
fn refunded_cycles_beyond_64_bits() {
    let mut canister = engine();
    let mut context = env(EntryMode::RejectCallback, &[], 0);
    context.cycles_refunded = 1u128 << 64;
    canister.begin_message(message(4, PAY, context));
    assert_eq!(
        canister.msg_cycles_refunded(),
        Err("refunded cycles does not fit in u64".to_string())
    );
    assert_eq!(canister.msg_cycles_refunded128(), Ok((1u128 << 64).to_le_bytes().to_vec()));
}

#[test]
fn caller_bytes_are_readable() {
    let canister = engine_in(EntryMode::Update, 0);
    assert_eq!(canister.msg_caller_size(), Ok(4));
    assert_eq!(canister.msg_caller_copy(1, 2), Ok(vec![8, 7]));
    assert_eq!(canister.msg_caller_copy(0, 4), Ok(vec![9, 8, 7, 6]));
}

#[test]
fn own_identity_is_always_readable() {
    let canister = engine_in(EntryMode::Heartbeat, 0);
    assert_eq!(canister.canister_self_size(), Ok(10));
    assert_eq!(canister.canister_self_copy(7, 3), Ok(vec![1, 1, 1]));
    assert_eq!(canister.canister_self_copy(8, 3), Err("Out of bound read.".to_string()));
    let idle = Canister::new(vec![4]);
    assert_eq!(idle.canister_self_size(), Ok(1));
    assert_eq!(idle.canister_self_copy(0, 1), Ok(vec![4]));
}

#[test]
fn rejection_is_readable_in_a_reject_callback() {
    let mut canister = engine();
    let mut context = env(EntryMode::RejectCallback, &[], 0);
    context.rejection_code = RejectionCode::CanisterError;
    context.rejection_message = "tr\u{e8}s mal".to_string();
    canister.begin_message(message(4, PAY, context));
    assert_eq!(canister.msg_reject_code(), Ok(5));
    assert_eq!(canister.msg_reject_msg_size(), Ok(9));
    assert_eq!(canister.msg_reject_msg_copy(0, 9), Ok("tr\u{e8}s mal".as_bytes().to_vec()));
    assert_eq!(canister.msg_reject_msg_copy(2, 2), Ok(vec![0xc3, 0xa8]));
    assert_eq!(canister.msg_reject_msg_copy(2, 8), Err("Out of bound read.".to_string()));
}

#[test]
fn rejection_codes_have_their_numbers() {
    assert_eq!(RejectionCode::NoError.code(), 0);
    assert_eq!(RejectionCode::SysFatal.code(), 1);
    assert_eq!(RejectionCode::SysTransient.code(), 2);
    assert_eq!(RejectionCode::DestinationInvalid.code(), 3);
    assert_eq!(RejectionCode::CanisterReject.code(), 4);
    assert_eq!(RejectionCode::CanisterError.code(), 5);
    assert_eq!(RejectionCode::Unknown.code(), 6);
}

#[test]
fn copy_beyond_the_arguments_fails() {
    let canister = engine_in(EntryMode::Update, 0);
    let out_of_bounds = Err("Out of bound read.".to_string());
    assert_eq!(canister.msg_arg_data_copy(0, 3), out_of_bounds);
    assert_eq!(canister.msg_arg_data_copy(1, 2), out_of_bounds);
    assert_eq!(canister.msg_arg_data_copy(3, 0), out_of_bounds);
    assert_eq!(canister.msg_arg_data_copy(-1, 1), out_of_bounds);
    assert_eq!(canister.msg_arg_data_copy(0, -1), out_of_bounds);
    assert_eq!(canister.msg_arg_data_copy(isize::MAX, isize::MAX), out_of_bounds);
    assert_eq!(canister.msg_arg_data_copy(2, 0), Ok(vec![]));
    assert_eq!(canister.msg_arg_data_copy(1, 1), Ok(vec![6]));
    assert_eq!(canister.msg_arg_data_copy(0, 2), Ok(vec![5, 6]));
}

#[test]
fn calls_from_a_disallowed_mode_name_the_mode() {
    let mut canister = engine_in(EntryMode::Init, 50);
    let before = engine_in(EntryMode::Init, 50);
    assert_eq!(canister.msg_reply(), Err(denied("msg_reply", "canister_init")));
    assert_eq!(canister.msg_reject(b"x"), Err(denied("msg_reject", "canister_init")));
    assert_eq!(
        canister.msg_reply_data_append(&[1]),
        Err(denied("msg_reply_data_append", "canister_init"))
    );
    assert_eq!(canister.msg_cycles_accept(10), Err(denied("msg_cycles_accept", "canister_init")));
    assert_eq!(
        canister.msg_cycles_accept128(0, 10),
        Err(denied("msg_cycles_accept128", "canister_init"))
    );
    assert_eq!(canister.msg_cycles_available(), Err(denied("msg_cycles_available", "canister_init")));
    assert_eq!(
        canister.msg_cycles_available128(),
        Err(denied("msg_cycles_available128", "canister_init"))
    );
    assert_eq!(canister.msg_cycles_refunded(), Err(denied("msg_cycles_refunded", "canister_init")));
    assert_eq!(
        canister.msg_cycles_refunded128(),
        Err(denied("msg_cycles_refunded128", "canister_init"))
    );
    assert_eq!(canister.msg_reject_code(), Err(denied("msg_reject_code", "canister_init")));
    assert_eq!(canister.msg_reject_msg_size(), Err(denied("msg_reject_msg_size", "canister_init")));
    assert_eq!(
        canister.msg_reject_msg_copy(0, 0),
        Err(denied("msg_reject_msg_copy", "canister_init"))
    );
    assert_eq!(canister, before);
}

#[test]
fn callbacks_know_no_caller() {
    let canister = engine_in(EntryMode::ReplyCallback, 0);
    assert_eq!(canister.msg_caller_size(), Err(denied("msg_caller_size", "reply_callback")));
    assert_eq!(canister.msg_caller_copy(0, 1), Err(denied("msg_caller_copy", "reply_callback")));
    let canister = engine_in(EntryMode::RejectCallback, 0);
    assert_eq!(canister.msg_caller_size(), Err(denied("msg_caller_size", "reject_callback")));
    assert_eq!(canister.msg_arg_data_size(), Err(denied("msg_arg_data_size", "reject_callback")));
    assert_eq!(
        canister.msg_arg_data_copy(0, 0),
        Err(denied("msg_arg_data_copy", "reject_callback"))
    );
}

#[test]
fn each_mode_admits_its_calls() {
    let modes = [
        EntryMode::Init,
        EntryMode::PreUpgrade,
        EntryMode::PostUpgrade,
        EntryMode::InspectMessage,
        EntryMode::Heartbeat,
        EntryMode::Update,
        EntryMode::Query,
        EntryMode::CustomTask,
        EntryMode::ReplyCallback,
        EntryMode::RejectCallback,
    ];
    //            args   caller rejection answer cycles refund
    let table = [
        (true, true, false, false, false, false),
        (false, true, false, false, false, false),
        (true, true, false, false, false, false),
        (true, true, false, false, false, false),
        (false, true, false, false, false, false),
        (true, true, false, true, true, false),
        (true, true, false, true, false, false),
        (true, true, true, false, false, true),
        (true, false, false, true, true, true),
        (false, false, true, true, true, true),
    ];
    for (mode, row) in modes.iter().zip(table.iter()) {
        let mut canister = engine_in(*mode, 3);
        assert_eq!(canister.msg_arg_data_size().is_ok(), row.0, "{:?}", mode);
        assert_eq!(canister.msg_arg_data_copy(0, 1).is_ok(), row.0, "{:?}", mode);
        assert_eq!(canister.msg_caller_size().is_ok(), row.1, "{:?}", mode);
        assert_eq!(canister.msg_caller_copy(0, 1).is_ok(), row.1, "{:?}", mode);
        assert_eq!(canister.msg_reject_code().is_ok(), row.2, "{:?}", mode);
        assert_eq!(canister.msg_reject_msg_size().is_ok(), row.2, "{:?}", mode);
        assert_eq!(canister.msg_reject_msg_copy(0, 0).is_ok(), row.2, "{:?}", mode);
        assert_eq!(canister.msg_cycles_available().is_ok(), row.4, "{:?}", mode);
        assert_eq!(canister.msg_cycles_available128().is_ok(), row.4, "{:?}", mode);
        assert_eq!(canister.msg_cycles_refunded().is_ok(), row.5, "{:?}", mode);
        assert_eq!(canister.msg_cycles_refunded128().is_ok(), row.5, "{:?}", mode);
        assert_eq!(canister.msg_cycles_accept(1).is_ok(), row.4, "{:?}", mode);
        assert_eq!(canister.msg_cycles_accept128(0, 1).is_ok(), row.4, "{:?}", mode);
        assert!(canister.canister_self_size().is_ok());
        assert!(canister.canister_self_copy(0, 1).is_ok());
        if mode.expects_response() {
            assert_eq!(canister.msg_reply_data_append(&[1]).is_ok(), row.3, "{:?}", mode);
            assert_eq!(canister.msg_reply().is_ok(), row.3, "{:?}", mode);
        } else if !row.3 {
            assert_eq!(canister.msg_reply(), Err(denied("msg_reply", mode.name())));
            assert_eq!(canister.msg_reject(&[]), Err(denied("msg_reject", mode.name())));
        }
    }
}

#[test]
fn entry_modes_have_their_names_and_kinds() {
    assert_eq!(EntryMode::Init.name(), "canister_init");
    assert_eq!(EntryMode::PreUpgrade.name(), "canister_pre_upgrade");
    assert_eq!(EntryMode::PostUpgrade.name(), "canister_post_upgrade");
    assert_eq!(EntryMode::InspectMessage.name(), "canister_inspect_message");
    assert_eq!(EntryMode::Heartbeat.name(), "canister_heartbeat");
    assert_eq!(EntryMode::Update.name(), "canister_update");
    assert_eq!(EntryMode::Query.name(), "canister_query");
    assert_eq!(EntryMode::CustomTask.name(), "custom_task");
    assert_eq!(EntryMode::ReplyCallback.name(), "reply_callback");
    assert_eq!(EntryMode::RejectCallback.name(), "reject_callback");
    assert!(EntryMode::Heartbeat.is_lifecycle());
    assert!(!EntryMode::Update.is_lifecycle());
    assert!(EntryMode::Query.expects_response());
    assert!(!EntryMode::ReplyCallback.expects_response());
    assert!(EntryMode::RejectCallback.is_callback());
    assert!(EntryMode::ReplyCallback.answers_request());
    assert!(!EntryMode::CustomTask.answers_request());
    assert_eq!(env(EntryMode::Query, &[], 0).get_entry_point_name(), "canister_query");
    assert_eq!(Env::default().entry_mode, EntryMode::CustomTask);
}

#[test]
fn a_callback_answers_the_request_that_still_waits() {
    let mut canister = engine();
    canister.begin_message(message(8, PAY, env(EntryMode::Update, &[], 100)));
    assert_eq!(canister.msg_cycles_accept(30), Ok(30));
    let left = canister.stored_cycles(IncomingRequestId(8)).unwrap();
    assert_eq!(left, 70);
    canister.begin_message(message(8, PAY, env(EntryMode::ReplyCallback, &[4], left)));
    assert!(canister.is_pending(IncomingRequestId(8)));
    canister.msg_reply_data_append(&[4]).unwrap();
    assert_eq!(canister.msg_reply(), Ok(CanisterReply::Reply { data: vec![4], cycles_refunded: 70 }));
    canister.begin_message(message(8, PAY, env(EntryMode::RejectCallback, &[], 0)));
    assert_eq!(
        canister.msg_reply(),
        Err("msg_reply may only be invoked before canister responses.".to_string())
    );
}

#[test]
fn reply_refund_is_reported_by_the_outcome() {
    let mut canister = engine_in(EntryMode::Update, 64);
    canister.msg_cycles_accept(4).unwrap();
    let reply = canister.msg_reject(b"").unwrap();
    assert_eq!(reply.cycles_refunded(), 60);
}

#[test]
fn engines_stay_well_formed() {
    assert!(Canister::new(vec![]).is_well_formed());
    assert!(engine().is_well_formed());
    let mut canister = engine_in(EntryMode::Update, u128::MAX);
    assert!(canister.is_well_formed());
    canister.msg_cycles_accept(-1).unwrap();
    canister.msg_reply_data_append(&[1]).unwrap();
    assert!(canister.is_well_formed());
    canister.msg_reject(&[]).unwrap();
    assert!(canister.is_well_formed());
    assert!(!canister.can_begin(u128::MAX));
    assert!(canister.can_begin(u128::MAX - u64::MAX as u128));
}
