use vstd::prelude::*;

use crate::pubkey::{base58_pubkey_of, pubkey_from_str, Pubkey};
use solana_account_decoder_client_types::{UiAccountData, UiAccountEncoding};

verus! {

/// Wire encoding of an account snapshot's data, as the endpoint sends it.
#[derive(Clone, Copy, PartialEq, Eq, Structural, Debug)]
pub enum WireEncoding {
    Base58,
    Base64,
    Base64Zstd,
}

/// The data field of an account snapshot in wire form: encoded text, or a
/// form this client does not decode.
#[derive(Debug)]
pub enum WireData {
    Encoded(WireEncoding, String),
    Unsupported,
}

/// An account snapshot as received on the wire, held as plain values.
#[derive(Debug)]
pub struct WireAccount {
    pub lamports: u64,
    pub data: WireData,
    pub owner: String,
    pub executable: bool,
    pub rent_epoch: u64,
}

/// A decoded account snapshot.
#[derive(Debug)]
pub struct Account {
    pub lamports: u64,
    pub data: Vec<u8>,
    pub owner: Pubkey,
    pub executable: bool,
    pub rent_epoch: u64,
}

pub open spec fn encoding_tag(e: WireEncoding) -> int {
    match e {
        WireEncoding::Base58 => 0,
        WireEncoding::Base64 => 1,
        WireEncoding::Base64Zstd => 2,
    }
}

/// The bytes that decoding encoded account data yields, or `None` where
/// the text is not valid for the encoding. The outcome is a function of
/// the encoding and the characters alone.
pub uninterp spec fn wire_bytes_of(encoding: int, text: Seq<char>) -> Option<Seq<u8>>;

/// Relies on `solana_account_decoder_client_types::UiAccountData::decode`:
/// decodes base58, base64 or zstd-compressed base64 account data; the
/// outcome depends on the encoding and the characters alone.
#[verifier::external_body]
pub(crate) fn decode_wire_data(encoding: &WireEncoding, text: &str) -> (r: Option<Vec<u8>>)
    ensures
        r matches Some(v) ==> wire_bytes_of(encoding_tag(*encoding), text@) == Some(v@),
        r is None ==> wire_bytes_of(encoding_tag(*encoding), text@) is None,
{
    let enc = match encoding {
        WireEncoding::Base58 => UiAccountEncoding::Base58,
        WireEncoding::Base64 => UiAccountEncoding::Base64,
        WireEncoding::Base64Zstd => UiAccountEncoding::Base64Zstd,
    };
    UiAccountData::Binary(text.to_string(), enc).decode()
}

/// What decoding a wire-form snapshot yields: the decoded data bytes and
/// the parsed owner key, or `None` where either step fails. Mirrors the
/// decode capability consumed at the boundary: data first, then owner.
pub open spec fn spec_decode_wire_account(w: WireAccount) -> Option<(Seq<u8>, Seq<u8>)> {
    match w.data {
        WireData::Unsupported => None,
        WireData::Encoded(enc, text) => match wire_bytes_of(encoding_tag(enc), text@) {
            Option::None => None,
            Option::Some(bytes) => match base58_pubkey_of(w.owner@) {
                Option::None => None,
                Option::Some(owner) => Some((bytes, owner)),
            },
        },
    }
}

/// Decodes a wire-form account snapshot into plain bytes and a parsed
/// owner key.
pub fn decode_wire_account(w: &WireAccount) -> (r: Option<Account>)
    ensures
        r matches Some(a) ==> {
            &&& spec_decode_wire_account(*w) matches Some(p) && a.data@ == p.0 && a.owner@ == p.1
            &&& a.lamports == w.lamports
            &&& a.executable == w.executable
            &&& a.rent_epoch == w.rent_epoch
        },
        r is None <==> spec_decode_wire_account(*w) is None,
{
    let data = match &w.data {
        WireData::Encoded(enc, text) => match decode_wire_data(enc, text.as_str()) {
            Some(bytes) => bytes,
            None => {
                return None;
            },
        },
        WireData::Unsupported => {
            return None;
        },
    };
    let owner = match pubkey_from_str(w.owner.as_str()) {
        Some(k) => k,
        None => {
            return None;
        },
    };
    Some(
        Account {
            lamports: w.lamports,
            data,
            owner,
            executable: w.executable,
            rent_epoch: w.rent_epoch,
        },
    )
}

/// One raw event from a filter's subscription stream.
#[derive(Debug)]
pub struct AccountEvent {
    /// Ordering marker supplied by the source.
    pub slot: u64,
    /// The subscription key in wire (base58) form.
    pub pubkey: String,
    /// The account snapshot in wire form.
    pub account: WireAccount,
}

/// What a worker observes at one pass of its loop, in priority order:
/// cancellation first, then the stream.
#[derive(Debug)]
pub enum WorkerEvent {
    GlobalCancelled,
    CycleCancelled,
    /// Opening this filter's subscription stream failed.
    SubscribeFailed,
    /// The remote closed this filter's stream.
    StreamClosed,
    /// The output sink rejected the previous send (full or closed).
    SendRejected,
    /// The stream produced an event.
    Payload(AccountEvent),
}

/// Why a worker exits.
#[derive(Clone, Copy, PartialEq, Eq, Structural, Debug)]
pub enum ExitReason {
    Cancelled,
    CycleCancelled,
    OpenFailed,
    StreamClosed,
    SinkRejected,
}

/// Why one event is skipped while the worker's stream stays open.
#[derive(Clone, Copy, PartialEq, Eq, Structural, Debug)]
pub enum SkipReason {
    DecodeFailed,
    KeyParseFailed,
}

/// The normalized update envelope this client produces.
#[derive(Debug)]
pub struct AccountUpdate {
    pub pubkey: Pubkey,
    pub account: Account,
    pub slot: u64,
    pub transaction_signature: Option<Vec<u8>>,
}

/// The tagged update record forwarded downstream; this client only
/// produces the account-state variant.
#[derive(Debug)]
pub enum Update {
    Account(AccountUpdate),
}

/// The kinds of update this client can produce.
#[derive(Clone, Copy, PartialEq, Eq, Structural, Debug)]
pub enum UpdateType {
    AccountUpdate,
}

/// What a worker does in answer to one observed event: exit, skip the
/// event, or emit an envelope to the output sink. No step touches any
/// sibling worker.
#[derive(Debug)]
pub enum WorkerStep {
    Exit(ExitReason),
    Skip(SkipReason),
    Emit(Update),
}

/// Field-wise equality of two envelopes.
pub open spec fn update_equivalent(a: AccountUpdate, b: AccountUpdate) -> bool {
    &&& a.pubkey@ == b.pubkey@
    &&& a.account.lamports == b.account.lamports
    &&& a.account.data@ == b.account.data@
    &&& a.account.owner@ == b.account.owner@
    &&& a.account.executable == b.account.executable
    &&& a.account.rent_epoch == b.account.rent_epoch
    &&& a.slot == b.slot
    &&& a.transaction_signature == b.transaction_signature
}

/// The one step a worker may take in answer to `ev`: the relation every
/// call of `worker_step` satisfies, which pins the step for each event.
pub open spec fn step_matches(ev: WorkerEvent, r: WorkerStep) -> bool {
    match ev {
        WorkerEvent::GlobalCancelled => r == WorkerStep::Exit(ExitReason::Cancelled),
        WorkerEvent::CycleCancelled => r == WorkerStep::Exit(ExitReason::CycleCancelled),
        WorkerEvent::SubscribeFailed => r == WorkerStep::Exit(ExitReason::OpenFailed),
        WorkerEvent::StreamClosed => r == WorkerStep::Exit(ExitReason::StreamClosed),
        WorkerEvent::SendRejected => r == WorkerStep::Exit(ExitReason::SinkRejected),
        WorkerEvent::Payload(e) => match spec_decode_wire_account(e.account) {
            Option::None => r == WorkerStep::Skip(SkipReason::DecodeFailed),
            Option::Some(p) => match base58_pubkey_of(e.pubkey@) {
                Option::None => r == WorkerStep::Skip(SkipReason::KeyParseFailed),
                Option::Some(key) => r matches WorkerStep::Emit(Update::Account(u)) && {
                    &&& u.pubkey@ == key
                    &&& u.account.lamports == e.account.lamports
                    &&& u.account.data@ == p.0
                    &&& u.account.owner@ == p.1
                    &&& u.account.executable == e.account.executable
                    &&& u.account.rent_epoch == e.account.rent_epoch
                    &&& u.slot == e.slot
                    &&& u.transaction_signature is None
                },
            },
        },
    }
}

/// One pass of a filter worker's loop: cancellation (global, then cycle)
/// exits at once; a failed subscription open, a rejected send or a
/// closed stream exits; a payload is
/// decoded and its key parsed, each failure skipping only that event; a
/// decoded payload becomes an account-update envelope carrying the
/// event's slot and no transaction signature.
pub fn worker_step(ev: &WorkerEvent) -> (r: WorkerStep)
    ensures
        step_matches(*ev, r),
{
    match ev {
        WorkerEvent::GlobalCancelled => WorkerStep::Exit(ExitReason::Cancelled),
        WorkerEvent::CycleCancelled => WorkerStep::Exit(ExitReason::CycleCancelled),
        WorkerEvent::SubscribeFailed => WorkerStep::Exit(ExitReason::OpenFailed),
        WorkerEvent::StreamClosed => WorkerStep::Exit(ExitReason::StreamClosed),
        WorkerEvent::SendRejected => WorkerStep::Exit(ExitReason::SinkRejected),
        WorkerEvent::Payload(e) => {
            let account = match decode_wire_account(&e.account) {
                Some(a) => a,
                None => {
                    return WorkerStep::Skip(SkipReason::DecodeFailed);
                },
            };
            let key = match pubkey_from_str(e.pubkey.as_str()) {
                Some(k) => k,
                None => {
                    return WorkerStep::Skip(SkipReason::KeyParseFailed);
                },
            };
            WorkerStep::Emit(
                Update::Account(
                    AccountUpdate {
                        pubkey: key,
                        account,
                        slot: e.slot,
                        transaction_signature: None,
                    },
                ),
            )
        },
    }
}

/// Decoding is idempotent: two steps taken on the same raw event payload
/// agree — in particular, two envelopes built from the same payload are
/// structurally equal.
pub proof fn lemma_step_deterministic(ev: WorkerEvent, r1: WorkerStep, r2: WorkerStep)
    requires
        step_matches(ev, r1),
        step_matches(ev, r2),
    ensures
        r1 matches WorkerStep::Exit(x1) ==> r2 matches WorkerStep::Exit(x2) && x1 == x2,
        r1 matches WorkerStep::Skip(s1) ==> r2 matches WorkerStep::Skip(s2) && s1 == s2,
        r1 matches WorkerStep::Emit(Update::Account(u1)) ==> r2 matches WorkerStep::Emit(
            Update::Account(u2),
        ) && update_equivalent(u1, u2),
{
}

} // verus!
