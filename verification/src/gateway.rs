use vstd::prelude::*;

use crate::envelope::{wire_rel, Envelope, WireEnvelope};
use crate::messages::{conversation_translated, translate_conversation, ChatMessage, UpstreamMessage};

verus! {

/// Bound, in seconds, applied to the upstream call when the caller names none.
pub const DEFAULT_TIMEOUT_SECS: u64 = 120;

/// The request a caller hands to the gateway, as plain values. The
/// temperature travels as the raw bit pattern of the caller's 32-bit
/// floating-point value: the gateway never computes with it, it only hands
/// it on to the upstream provider.
#[derive(Clone, Debug)]
pub struct GatewayRequest {
    pub api_key: String,
    pub model: String,
    pub max_tokens: u16,
    pub temperature_bits: u32,
    pub timeout_secs: Option<u64>,
    pub messages: Vec<ChatMessage>,
}

/// The request the gateway asks to have sent upstream, derived one-to-one
/// from a `GatewayRequest`.
#[derive(Clone, Debug)]
pub struct UpstreamRequest {
    pub model: String,
    pub max_tokens: u16,
    pub temperature_bits: u32,
    pub messages: Vec<UpstreamMessage>,
}

/// Everything one outbound call needs: the request to send, the bearer
/// credential, and the bound on its duration.
#[derive(Clone, Debug)]
pub struct PreparedCall {
    pub api_key: String,
    pub timeout_secs: u64,
    pub upstream: UpstreamRequest,
}

/// The gateway's decision on one inbound request: either reject it at once
/// with an error, making no outbound call, or dispatch exactly one
/// outbound call.
#[derive(Clone, Debug)]
pub enum GatewayStep {
    Reject { error: String },
    Dispatch { call: PreparedCall },
}

/// How many outbound calls a decision asks for: a dispatch stands for
/// exactly one call, a rejection for none.
pub open spec fn outbound_call_count(step: GatewayStep) -> nat {
    match step {
        GatewayStep::Reject { .. } => 0,
        GatewayStep::Dispatch { .. } => 1,
    }
}

/// The error reported when a request arrives with no messages.
pub open spec fn empty_messages_error() -> Seq<char> {
    "No response from GPT-3.5 Turbo"@
}

/// The timeout that governs the upstream call: the caller's choice when one
/// was given, the default bound otherwise.
pub open spec fn resolve_timeout_spec(t: Option<u64>) -> u64 {
    match t {
        Some(x) => x,
        None => DEFAULT_TIMEOUT_SECS,
    }
}

pub fn resolve_timeout_secs(t: &Option<u64>) -> (r: u64)
    ensures
        r == resolve_timeout_spec(*t),
{
    match t {
        Some(x) => *x,
        None => DEFAULT_TIMEOUT_SECS,
    }
}

/// `step` is the decision the gateway owes on `req`: an empty conversation
/// is rejected with the fixed error and nothing else is; a dispatch carries
/// the caller's credential, the resolved timeout, and the request translated
/// field for field with its conversation translated element-wise.
pub open spec fn prepare_rel(req: GatewayRequest, step: GatewayStep) -> bool {
    match step {
        GatewayStep::Reject { error } => {
            &&& req.messages@.len() == 0
            &&& error@ == empty_messages_error()
        },
        GatewayStep::Dispatch { call } => {
            &&& req.messages@.len() > 0
            &&& call.api_key == req.api_key
            &&& call.timeout_secs == resolve_timeout_spec(req.timeout_secs)
            &&& call.upstream.model == req.model
            &&& call.upstream.max_tokens == req.max_tokens
            &&& call.upstream.temperature_bits == req.temperature_bits
            &&& conversation_translated(req.messages@, call.upstream.messages@)
        },
    }
}

/// Decide what to do with one inbound request. This is the whole of the
/// gateway's per-request logic up to the outbound call itself.
pub fn prepare(req: GatewayRequest) -> (step: GatewayStep)
    ensures
        prepare_rel(req, step),
        outbound_call_count(step) == (if req.messages@.len() == 0 { 0nat } else { 1nat }),
{
    if req.messages.len() == 0 {
        GatewayStep::Reject { error: "No response from GPT-3.5 Turbo".to_owned() }
    } else {
        let timeout_secs = resolve_timeout_secs(&req.timeout_secs);
        let messages = translate_conversation(&req.messages);
        GatewayStep::Dispatch {
            call: PreparedCall {
                api_key: req.api_key,
                timeout_secs,
                upstream: UpstreamRequest {
                    model: req.model,
                    max_tokens: req.max_tokens,
                    temperature_bits: req.temperature_bits,
                    messages,
                },
            },
        }
    }
}

/// A request with at least one message leads to exactly one outbound call.
pub proof fn lemma_nonempty_request_dispatches_once(req: GatewayRequest, step: GatewayStep)
    requires
        prepare_rel(req, step),
        req.messages@.len() > 0,
    ensures
        outbound_call_count(step) == 1,
{
}

/// A request with no messages leads to no outbound call and is rejected
/// with a non-empty error.
pub proof fn lemma_empty_request_never_dispatches(req: GatewayRequest, step: GatewayStep)
    requires
        prepare_rel(req, step),
        req.messages@.len() == 0,
    ensures
        outbound_call_count(step) == 0,
        step matches GatewayStep::Reject { error } && error@.len() > 0,
{
    reveal_strlit("No response from GPT-3.5 Turbo");
}

/// A request that names no timeout is dispatched under the default bound of
/// 120 seconds.
pub proof fn lemma_omitted_timeout_defaults(req: GatewayRequest, step: GatewayStep)
    requires
        prepare_rel(req, step),
        req.timeout_secs is None,
        req.messages@.len() > 0,
    ensures
        step matches GatewayStep::Dispatch { call } && call.timeout_secs == 120,
{
}

/// A request with no messages, carried through rejection and the wire
/// mapping, yields an envelope with `success` false, no answer, and a
/// non-empty error, with no outbound call made.
pub proof fn lemma_empty_request_settles_failed<T>(
    req: GatewayRequest,
    step: GatewayStep,
    env: Envelope<T>,
    wire: WireEnvelope<T>,
)
    requires
        prepare_rel(req, step),
        req.messages@.len() == 0,
        step matches GatewayStep::Reject { error } && env == (Envelope::<T>::Failure { error }),
        wire_rel(env, wire),
    ensures
        outbound_call_count(step) == 0,
        !wire.success,
        wire.openai_answer is None,
        wire.error matches Some(e) && e@.len() > 0,
{
    reveal_strlit("No response from GPT-3.5 Turbo");
}

} // verus!
