use program_subscribe::decoder::token_2022_program_id;
use program_subscribe::worker::{
    decode_wire_account, worker_step, AccountEvent, ExitReason, SkipReason, Update, WireAccount,
    WireData, WireEncoding, WorkerEvent, WorkerStep,
};

const TOKEN_PROGRAM_STR: &str = "TokenzQdBNbLqP5VEhdkAS6EPFLC1PHnBqCXEpPxuEb";
const SYSTEM_PROGRAM_STR: &str = "11111111111111111111111111111111";

fn valid_wire_account() -> WireAccount {
    WireAccount {
        lamports: 11,
        data: WireData::Encoded(WireEncoding::Base64, "AAEC".to_string()),
        owner: TOKEN_PROGRAM_STR.to_string(),
        executable: false,
        rent_epoch: 3,
    }
}

fn valid_event() -> AccountEvent {
    AccountEvent { slot: 77, pubkey: SYSTEM_PROGRAM_STR.to_string(), account: valid_wire_account() }
}

#[test]
fn cancellation_exits_immediately() {
    assert!(matches!(
        worker_step(&WorkerEvent::GlobalCancelled),
        WorkerStep::Exit(ExitReason::Cancelled)
    ));
    assert!(matches!(
        worker_step(&WorkerEvent::CycleCancelled),
        WorkerStep::Exit(ExitReason::CycleCancelled)
    ));
}

#[test]
fn failed_subscription_open_exits() {
    assert!(matches!(
        worker_step(&WorkerEvent::SubscribeFailed),
        WorkerStep::Exit(ExitReason::OpenFailed)
    ));
}

#[test]
fn closed_stream_exits() {
    assert!(matches!(
        worker_step(&WorkerEvent::StreamClosed),
        WorkerStep::Exit(ExitReason::StreamClosed)
    ));
}

#[test]
fn rejected_send_exits() {
    assert!(matches!(
        worker_step(&WorkerEvent::SendRejected),
        WorkerStep::Exit(ExitReason::SinkRejected)
    ));
}

#[test]
fn valid_payload_emits_envelope() {
    match worker_step(&WorkerEvent::Payload(valid_event())) {
        WorkerStep::Emit(Update::Account(u)) => {
            assert_eq!(u.slot, 77);
            assert_eq!(u.pubkey.bytes, vec![0u8; 32]);
            assert_eq!(u.account.lamports, 11);
            assert_eq!(u.account.data, vec![0u8, 1, 2]);
            assert_eq!(u.account.owner.bytes, token_2022_program_id().bytes);
            assert!(!u.account.executable);
            assert_eq!(u.account.rent_epoch, 3);
            assert!(u.transaction_signature.is_none());
        },
        _ => panic!("expected an emitted envelope"),
    }
}

#[test]
fn undecodable_data_skips_event() {
    let mut event = valid_event();
    event.account.data = WireData::Encoded(WireEncoding::Base64, "!!!".to_string());
    assert!(matches!(
        worker_step(&WorkerEvent::Payload(event)),
        WorkerStep::Skip(SkipReason::DecodeFailed)
    ));
}

#[test]
fn unsupported_data_form_skips_event() {
    let mut event = valid_event();
    event.account.data = WireData::Unsupported;
    assert!(matches!(
        worker_step(&WorkerEvent::Payload(event)),
        WorkerStep::Skip(SkipReason::DecodeFailed)
    ));
}

#[test]
fn unparsable_owner_skips_event() {
    let mut event = valid_event();
    event.account.owner = "not-a-key".to_string();
    assert!(matches!(
        worker_step(&WorkerEvent::Payload(event)),
        WorkerStep::Skip(SkipReason::DecodeFailed)
    ));
}

#[test]
fn unparsable_subscription_key_skips_event() {
    let mut event = valid_event();
    event.pubkey = "0OIl".to_string();
    assert!(matches!(
        worker_step(&WorkerEvent::Payload(event)),
        WorkerStep::Skip(SkipReason::KeyParseFailed)
    ));
}

#[test]
fn decoding_same_payload_twice_gives_equal_envelopes() {
    let a = match worker_step(&WorkerEvent::Payload(valid_event())) {
        WorkerStep::Emit(Update::Account(u)) => u,
        _ => panic!("expected an emitted envelope"),
    };
    let b = match worker_step(&WorkerEvent::Payload(valid_event())) {
        WorkerStep::Emit(Update::Account(u)) => u,
        _ => panic!("expected an emitted envelope"),
    };
    assert_eq!(a.pubkey.bytes, b.pubkey.bytes);
    assert_eq!(a.account.lamports, b.account.lamports);
    assert_eq!(a.account.data, b.account.data);
    assert_eq!(a.account.owner.bytes, b.account.owner.bytes);
    assert_eq!(a.account.executable, b.account.executable);
    assert_eq!(a.account.rent_epoch, b.account.rent_epoch);
    assert_eq!(a.slot, b.slot);
    assert_eq!(a.transaction_signature, b.transaction_signature);
}

#[test]
fn wire_decode_base58_data() {
    let w = WireAccount {
        lamports: 0,
        data: WireData::Encoded(WireEncoding::Base58, TOKEN_PROGRAM_STR.to_string()),
        owner: SYSTEM_PROGRAM_STR.to_string(),
        executable: true,
        rent_epoch: 1,
    };
    let a = decode_wire_account(&w).expect("base58 data decodes");
    assert_eq!(a.data, token_2022_program_id().bytes);
    assert_eq!(a.owner.bytes, vec![0u8; 32]);
    assert!(a.executable);
}

#[test]
fn wire_decode_base64_zstd_data() {
    let mut w = valid_wire_account();
    w.data = WireData::Encoded(WireEncoding::Base64Zstd, "KLUv/SQDGQAAAAEC3WW8Mw==".to_string());
    let a = decode_wire_account(&w).expect("compressed data decodes");
    assert_eq!(a.data, vec![0u8, 1, 2]);
}

#[test]
fn wire_decode_rejects_bad_base58() {
    let mut w = valid_wire_account();
    w.data = WireData::Encoded(WireEncoding::Base58, "0OIl".to_string());
    assert!(decode_wire_account(&w).is_none());
}
