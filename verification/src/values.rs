//! Notification values and their exact JSON rendering.
//!
//! Every notification sent to a client is one JSON-RPC 2.0 envelope
//! `{"jsonrpc":"2.0","method":M,"params":{"result":V,"subscription":N}}`.
//! [`spec_render_value`] gives the exact bytes of `V` for every value shape,
//! and [`spec_envelope`] the bytes of the whole message.

use vstd::prelude::*;
use vstd::string::StrSliceExecFns;

use crate::wire::{
    app_bytes, app_lit, app_u64, dec_i64, json_quote, json_quoted_of, lit, spec_dec, spec_dec_int,
};

verus! {

/// Slot progress, as fanned out to slot watchers.
#[derive(Clone, Copy, Debug)]
pub struct SlotInfo {
    pub slot: u64,
    pub parent: u64,
    pub root: u64,
}

/// A step in a slot's life, as fanned out to slots-updates watchers.
///
/// Timestamps are wall-clock milliseconds supplied by the caller.
#[derive(Clone, Debug)]
pub enum SlotUpdate {
    FirstShredReceived { slot: u64, timestamp: u64 },
    Completed { slot: u64, timestamp: u64 },
    CreatedBank { slot: u64, parent: u64, timestamp: u64 },
    Dead { slot: u64, err: String, timestamp: u64 },
    OptimisticConfirmation { slot: u64, timestamp: u64 },
    Root { slot: u64, timestamp: u64 },
}

/// A vote observed on gossip: the voted slots, the bank-state hash, and the
/// vote's own timestamp.
#[derive(Clone, Debug)]
pub struct Vote {
    pub slots: Vec<u64>,
    pub hash: Vec<u8>,
    pub timestamp: Option<i64>,
}

/// A vote as rendered for subscribers, the hash already base58-encoded.
#[derive(Clone, Debug)]
pub struct RpcVote {
    pub slots: Vec<u64>,
    pub hash: Vec<u8>,
    pub timestamp: Option<i64>,
}

/// An account's rendered data field.
#[derive(Clone, Debug)]
pub enum UiAccountData {
    /// A plain JSON string: base58 of the data, or the oversize notice.
    Legacy(Vec<u8>),
    /// A `["<base58>","base58"]` pair.
    Binary(Vec<u8>),
    /// A pre-rendered JSON object from the ledger's account parser.
    Parsed(Vec<u8>),
}

/// An account as rendered for subscribers.
#[derive(Clone, Debug)]
pub struct UiAccount {
    pub data: UiAccountData,
    pub executable: bool,
    pub lamports: u64,
    /// The owning program id, already base58-encoded.
    pub owner: Vec<u8>,
    pub rent_epoch: u64,
}

/// The result value carried by one notification, by subscription kind.
///
/// Commitment-sensitive kinds carry the slot their query resolved to as
/// `context_slot`; the singleton kinds render their payload directly.
#[derive(Clone, Debug)]
pub enum NotificationValue {
    Account { context_slot: u64, account: UiAccount },
    Program { context_slot: u64, pubkey: Vec<u8>, account: UiAccount },
    Logs {
        context_slot: u64,
        signature: Vec<u8>,
        err: Option<Vec<u8>>,
        logs: Vec<String>,
    },
    SignatureProcessed { context_slot: u64, err: Option<Vec<u8>> },
    SignatureReceived { context_slot: u64 },
    Slot { info: SlotInfo },
    SlotUpdate { update: SlotUpdate },
    Root { slot: u64 },
    Vote { vote: RpcVote },
}

/// `true` or `false`.
pub open spec fn spec_bool(b: bool) -> Seq<u8> {
    if b {
        lit("true"@)
    } else {
        lit("false"@)
    }
}

/// `null` for `None`, the fragment itself for `Some`.
pub open spec fn spec_opt_raw(e: Option<Vec<u8>>) -> Seq<u8> {
    match e {
        None => lit("null"@),
        Some(j) => j@,
    }
}

/// The rendering of an account's data field.
pub open spec fn spec_render_data(d: UiAccountData) -> Seq<u8> {
    match d {
        UiAccountData::Legacy(s) => seq![34u8] + s@ + seq![34u8],
        UiAccountData::Binary(s) => lit("[\""@) + s@ + lit("\",\"base58\"]"@),
        UiAccountData::Parsed(j) => j@,
    }
}

/// The rendering of an account payload.
pub open spec fn spec_render_account(a: UiAccount) -> Seq<u8> {
    lit("{\"data\":"@) + spec_render_data(a.data) + lit(",\"executable\":"@) + spec_bool(
        a.executable,
    ) + lit(",\"lamports\":"@) + spec_dec(a.lamports as nat) + lit(",\"owner\":\""@) + a.owner@
        + lit("\",\"rentEpoch\":"@) + spec_dec(a.rent_epoch as nat) + lit("}"@)
}

/// A comma-separated list of decimal numbers.
pub open spec fn spec_u64_list(s: Seq<u64>) -> Seq<u8>
    decreases s.len(),
{
    if s.len() == 0 {
        Seq::empty()
    } else if s.len() == 1 {
        spec_dec(s[0] as nat)
    } else {
        spec_u64_list(s.drop_last()) + seq![44u8] + spec_dec(s.last() as nat)
    }
}

/// A comma-separated list of JSON string literals.
pub open spec fn spec_quoted_list(s: Seq<Seq<char>>) -> Seq<u8>
    decreases s.len(),
{
    if s.len() == 0 {
        Seq::empty()
    } else if s.len() == 1 {
        json_quoted_of(s[0])
    } else {
        spec_quoted_list(s.drop_last()) + seq![44u8] + json_quoted_of(s.last())
    }
}

/// The views of a vector of strings.
pub open spec fn spec_str_views(s: Seq<String>) -> Seq<Seq<char>> {
    s.map_values(|x: String| x@)
}

/// The rendering of a slot update, tagged by its variant.
pub open spec fn spec_render_slot_update(u: SlotUpdate) -> Seq<u8> {
    match u {
        SlotUpdate::FirstShredReceived { slot, timestamp } => lit(
            "{\"type\":\"firstShredReceived\",\"slot\":"@,
        ) + spec_dec(slot as nat) + lit(",\"timestamp\":"@) + spec_dec(timestamp as nat) + lit(
            "}"@,
        ),
        SlotUpdate::Completed { slot, timestamp } => lit("{\"type\":\"completed\",\"slot\":"@)
            + spec_dec(slot as nat) + lit(",\"timestamp\":"@) + spec_dec(timestamp as nat) + lit(
            "}"@,
        ),
        SlotUpdate::CreatedBank { slot, parent, timestamp } => lit(
            "{\"type\":\"createdBank\",\"slot\":"@,
        ) + spec_dec(slot as nat) + lit(",\"parent\":"@) + spec_dec(parent as nat) + lit(
            ",\"timestamp\":"@,
        ) + spec_dec(timestamp as nat) + lit("}"@),
        SlotUpdate::Dead { slot, err, timestamp } => lit("{\"type\":\"dead\",\"slot\":"@)
            + spec_dec(slot as nat) + lit(",\"err\":"@) + json_quoted_of(err@) + lit(
            ",\"timestamp\":"@,
        ) + spec_dec(timestamp as nat) + lit("}"@),
        SlotUpdate::OptimisticConfirmation { slot, timestamp } => lit(
            "{\"type\":\"optimisticConfirmation\",\"slot\":"@,
        ) + spec_dec(slot as nat) + lit(",\"timestamp\":"@) + spec_dec(timestamp as nat) + lit(
            "}"@,
        ),
        SlotUpdate::Root { slot, timestamp } => lit("{\"type\":\"root\",\"slot\":"@) + spec_dec(
            slot as nat,
        ) + lit(",\"timestamp\":"@) + spec_dec(timestamp as nat) + lit("}"@),
    }
}

/// `{"context":{"slot":N},"value":V}`.
pub open spec fn spec_context_wrap(slot: u64, v: Seq<u8>) -> Seq<u8> {
    lit("{\"context\":{\"slot\":"@) + spec_dec(slot as nat) + lit("},\"value\":"@) + v + lit("}"@)
}

/// The exact bytes of the `result` member for one notification value.
pub open spec fn spec_render_value(v: NotificationValue) -> Seq<u8> {
    match v {
        NotificationValue::Account { context_slot, account } => spec_context_wrap(
            context_slot,
            spec_render_account(account),
        ),
        NotificationValue::Program { context_slot, pubkey, account } => spec_context_wrap(
            context_slot,
            lit("{\"pubkey\":\""@) + pubkey@ + lit("\",\"account\":"@) + spec_render_account(
                account,
            ) + lit("}"@),
        ),
        NotificationValue::Logs { context_slot, signature, err, logs } => spec_context_wrap(
            context_slot,
            lit("{\"signature\":\""@) + signature@ + lit("\",\"err\":"@) + spec_opt_raw(err) + lit(
                ",\"logs\":["@,
            ) + spec_quoted_list(spec_str_views(logs@)) + lit("]}"@),
        ),
        NotificationValue::SignatureProcessed { context_slot, err } => spec_context_wrap(
            context_slot,
            lit("{\"err\":"@) + spec_opt_raw(err) + lit("}"@),
        ),
        NotificationValue::SignatureReceived { context_slot } => spec_context_wrap(
            context_slot,
            lit("\"receivedSignature\""@),
        ),
        NotificationValue::Slot { info } => lit("{\"slot\":"@) + spec_dec(info.slot as nat) + lit(
            ",\"parent\":"@,
        ) + spec_dec(info.parent as nat) + lit(",\"root\":"@) + spec_dec(info.root as nat) + lit(
            "}"@,
        ),
        NotificationValue::SlotUpdate { update } => spec_render_slot_update(update),
        NotificationValue::Root { slot } => spec_dec(slot as nat),
        NotificationValue::Vote { vote } => lit("{\"slots\":["@) + spec_u64_list(vote.slots@) + lit(
            "],\"hash\":\""@,
        ) + vote.hash@ + lit("\",\"timestamp\":"@) + (match vote.timestamp {
            None => lit("null"@),
            Some(t) => spec_dec_int(t as int),
        }) + lit("}"@),
    }
}

/// The exact bytes of a whole notification message, from the rendered
/// `result` member.
pub open spec fn spec_envelope_bytes(method: Seq<char>, id: u64, value: Seq<u8>) -> Seq<u8> {
    lit("{\"jsonrpc\":\"2.0\",\"method\":\""@) + lit(method) + lit("\",\"params\":{\"result\":"@)
        + value + lit(",\"subscription\":"@) + spec_dec(id as nat) + lit("}}"@)
}

/// The exact bytes of a whole notification message.
pub open spec fn spec_envelope(method: Seq<char>, id: u64, v: NotificationValue) -> Seq<u8> {
    spec_envelope_bytes(method, id, spec_render_value(v))
}

fn app_bool(out: &mut Vec<u8>, b: bool)
    ensures
        final(out)@ == old(out)@ + spec_bool(b),
{
    if b {
        app_lit(out, "true");
    } else {
        app_lit(out, "false");
    }
}

fn app_opt_raw(out: &mut Vec<u8>, e: &Option<Vec<u8>>)
    ensures
        final(out)@ == old(out)@ + spec_opt_raw(*e),
{
    match e {
        None => app_lit(out, "null"),
        Some(j) => app_bytes(out, j),
    }
}

fn app_data(out: &mut Vec<u8>, d: &UiAccountData)
    ensures
        final(out)@ == old(out)@ + spec_render_data(*d),
{
    match d {
        UiAccountData::Legacy(s) => {
            out.push(34u8);
            app_bytes(out, s);
            out.push(34u8);
            proof {
                assert(out@ =~= old(out)@ + (seq![34u8] + s@ + seq![34u8]));
            }
        },
        UiAccountData::Binary(s) => {
            app_lit(out, "[\"");
            app_bytes(out, s);
            app_lit(out, "\",\"base58\"]");
        },
        UiAccountData::Parsed(j) => {
            app_bytes(out, j);
        },
    }
}

fn app_account(out: &mut Vec<u8>, a: &UiAccount)
    ensures
        final(out)@ == old(out)@ + spec_render_account(*a),
{
    app_lit(out, "{\"data\":");
    app_data(out, &a.data);
    app_lit(out, ",\"executable\":");
    app_bool(out, a.executable);
    app_lit(out, ",\"lamports\":");
    app_u64(out, a.lamports);
    app_lit(out, ",\"owner\":\"");
    app_bytes(out, &a.owner);
    app_lit(out, "\",\"rentEpoch\":");
    app_u64(out, a.rent_epoch);
    app_lit(out, "}");
}

fn app_u64_list(out: &mut Vec<u8>, s: &Vec<u64>)
    ensures
        final(out)@ == old(out)@ + spec_u64_list(s@),
{
    let n = s.len();
    let mut i: usize = 0;
    while i < n
        invariant
            n == s@.len(),
            0 <= i <= n,
            out@ == old(out)@ + spec_u64_list(s@.take(i as int)),
        decreases n - i,
    {
        if i > 0 {
            out.push(44u8);
        }
        app_u64(out, s[i]);
        proof {
            let t = s@.take(i as int + 1);
            assert(t.drop_last() =~= s@.take(i as int));
            assert(t.last() == s@[i as int]);
        }
        i += 1;
    }
    proof {
        assert(s@.take(n as int) =~= s@);
    }
}

fn app_quoted_list(out: &mut Vec<u8>, s: &Vec<String>)
    ensures
        final(out)@ == old(out)@ + spec_quoted_list(spec_str_views(s@)),
{
    let n = s.len();
    let mut i: usize = 0;
    while i < n
        invariant
            n == s@.len(),
            0 <= i <= n,
            out@ == old(out)@ + spec_quoted_list(spec_str_views(s@.take(i as int))),
        decreases n - i,
    {
        if i > 0 {
            out.push(44u8);
        }
        let mut q = json_quote(s[i].as_str());
        out.append(&mut q);
        proof {
            let t = spec_str_views(s@.take(i as int + 1));
            assert(t.drop_last() =~= spec_str_views(s@.take(i as int)));
            assert(t.last() == s@[i as int]@);
        }
        i += 1;
    }
    proof {
        assert(s@.take(n as int) =~= s@);
    }
}

fn app_slot_update(out: &mut Vec<u8>, u: &SlotUpdate)
    ensures
        final(out)@ == old(out)@ + spec_render_slot_update(*u),
{
    match u {
        SlotUpdate::FirstShredReceived { slot, timestamp } => {
            app_lit(out, "{\"type\":\"firstShredReceived\",\"slot\":");
            app_u64(out, *slot);
            app_lit(out, ",\"timestamp\":");
            app_u64(out, *timestamp);
            app_lit(out, "}");
        },
        SlotUpdate::Completed { slot, timestamp } => {
            app_lit(out, "{\"type\":\"completed\",\"slot\":");
            app_u64(out, *slot);
            app_lit(out, ",\"timestamp\":");
            app_u64(out, *timestamp);
            app_lit(out, "}");
        },
        SlotUpdate::CreatedBank { slot, parent, timestamp } => {
            app_lit(out, "{\"type\":\"createdBank\",\"slot\":");
            app_u64(out, *slot);
            app_lit(out, ",\"parent\":");
            app_u64(out, *parent);
            app_lit(out, ",\"timestamp\":");
            app_u64(out, *timestamp);
            app_lit(out, "}");
        },
        SlotUpdate::Dead { slot, err, timestamp } => {
            app_lit(out, "{\"type\":\"dead\",\"slot\":");
            app_u64(out, *slot);
            app_lit(out, ",\"err\":");
            let mut q = json_quote(err.as_str());
            out.append(&mut q);
            app_lit(out, ",\"timestamp\":");
            app_u64(out, *timestamp);
            app_lit(out, "}");
        },
        SlotUpdate::OptimisticConfirmation { slot, timestamp } => {
            app_lit(out, "{\"type\":\"optimisticConfirmation\",\"slot\":");
            app_u64(out, *slot);
            app_lit(out, ",\"timestamp\":");
            app_u64(out, *timestamp);
            app_lit(out, "}");
        },
        SlotUpdate::Root { slot, timestamp } => {
            app_lit(out, "{\"type\":\"root\",\"slot\":");
            app_u64(out, *slot);
            app_lit(out, ",\"timestamp\":");
            app_u64(out, *timestamp);
            app_lit(out, "}");
        },
    }
}

/// Render the `result` member of one notification.
#[verifier::rlimit(100)]
#[verifier::spinoff_prover]
pub fn render_value(v: &NotificationValue) -> (r: Vec<u8>)
    ensures
        r@ == spec_render_value(*v),
{
    let mut out: Vec<u8> = Vec::new();
    match v {
        NotificationValue::Account { context_slot, account } => {
            app_lit(&mut out, "{\"context\":{\"slot\":");
            app_u64(&mut out, *context_slot);
            app_lit(&mut out, "},\"value\":");
            app_account(&mut out, account);
            app_lit(&mut out, "}");
        },
        NotificationValue::Program { context_slot, pubkey, account } => {
            app_lit(&mut out, "{\"context\":{\"slot\":");
            app_u64(&mut out, *context_slot);
            app_lit(&mut out, "},\"value\":");
            app_lit(&mut out, "{\"pubkey\":\"");
            app_bytes(&mut out, pubkey);
            app_lit(&mut out, "\",\"account\":");
            app_account(&mut out, account);
            app_lit(&mut out, "}");
            app_lit(&mut out, "}");
        },
        NotificationValue::Logs { context_slot, signature, err, logs } => {
            app_lit(&mut out, "{\"context\":{\"slot\":");
            app_u64(&mut out, *context_slot);
            app_lit(&mut out, "},\"value\":");
            app_lit(&mut out, "{\"signature\":\"");
            app_bytes(&mut out, signature);
            app_lit(&mut out, "\",\"err\":");
            app_opt_raw(&mut out, err);
            app_lit(&mut out, ",\"logs\":[");
            app_quoted_list(&mut out, logs);
            app_lit(&mut out, "]}");
            app_lit(&mut out, "}");
        },
        NotificationValue::SignatureProcessed { context_slot, err } => {
            app_lit(&mut out, "{\"context\":{\"slot\":");
            app_u64(&mut out, *context_slot);
            app_lit(&mut out, "},\"value\":");
            app_lit(&mut out, "{\"err\":");
            app_opt_raw(&mut out, err);
            app_lit(&mut out, "}");
            app_lit(&mut out, "}");
        },
        NotificationValue::SignatureReceived { context_slot } => {
            app_lit(&mut out, "{\"context\":{\"slot\":");
            app_u64(&mut out, *context_slot);
            app_lit(&mut out, "},\"value\":");
            app_lit(&mut out, "\"receivedSignature\"");
            app_lit(&mut out, "}");
        },
        NotificationValue::Slot { info } => {
            app_lit(&mut out, "{\"slot\":");
            app_u64(&mut out, info.slot);
            app_lit(&mut out, ",\"parent\":");
            app_u64(&mut out, info.parent);
            app_lit(&mut out, ",\"root\":");
            app_u64(&mut out, info.root);
            app_lit(&mut out, "}");
        },
        NotificationValue::SlotUpdate { update } => {
            app_slot_update(&mut out, update);
        },
        NotificationValue::Root { slot } => {
            app_u64(&mut out, *slot);
        },
        NotificationValue::Vote { vote } => {
            app_lit(&mut out, "{\"slots\":[");
            app_u64_list(&mut out, &vote.slots);
            app_lit(&mut out, "],\"hash\":\"");
            app_bytes(&mut out, &vote.hash);
            app_lit(&mut out, "\",\"timestamp\":");
            match vote.timestamp {
                None => app_lit(&mut out, "null"),
                Some(t) => {
                    let mut d = dec_i64(t);
                    out.append(&mut d);
                },
            }
            app_lit(&mut out, "}");
        },
    }
    out
}

/// Render one whole notification message.
pub fn render_envelope(method: &str, id: u64, v: &NotificationValue) -> (r: Vec<u8>)
    ensures
        r@ == spec_envelope(method@, id, *v),
{
    let mut out: Vec<u8> = Vec::new();
    app_lit(&mut out, "{\"jsonrpc\":\"2.0\",\"method\":\"");
    let mut m = method.as_bytes_vec();
    out.append(&mut m);
    app_lit(&mut out, "\",\"params\":{\"result\":");
    let mut body = render_value(v);
    out.append(&mut body);
    app_lit(&mut out, ",\"subscription\":");
    app_u64(&mut out, id);
    app_lit(&mut out, "}}");
    out
}

} // verus!
