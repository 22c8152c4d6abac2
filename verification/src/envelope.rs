use vstd::prelude::*;

verus! {

/// What became of the one outbound call: the upstream answer, an error the
/// upstream or the transport reported, or the timeout bound elapsing first.
/// The answer's type is left open: the gateway carries the upstream response
/// through without reading it.
#[derive(Clone, Debug)]
pub enum CallOutcome<T> {
    Completed { answer: T },
    Failed { error: String },
    TimedOut,
}

/// The uniform result of one request: exactly one of an answer or an error,
/// the choice made structurally rather than by two nullable fields.
#[derive(Clone, Debug)]
pub enum Envelope<T> {
    Success { answer: T },
    Failure { error: String },
}

/// The envelope in the three-field shape the wire carries: `success` selects
/// which of the two optional fields is populated.
#[derive(Clone, Debug)]
pub struct WireEnvelope<T> {
    pub success: bool,
    pub openai_answer: Option<T>,
    pub error: Option<String>,
}

/// The error reported when the outbound call outlives its bound.
pub open spec fn timeout_error() -> Seq<char> {
    "deadline has elapsed"@
}

/// `env` settles `outcome`: a completed call succeeds with its answer, a
/// failed call fails with the reported error, and an elapsed bound fails
/// with the fixed timeout error.
pub open spec fn settle_rel<T>(outcome: CallOutcome<T>, env: Envelope<T>) -> bool {
    match outcome {
        CallOutcome::Completed { answer } => env == (Envelope::Success { answer }),
        CallOutcome::Failed { error } => env == (Envelope::<T>::Failure { error }),
        CallOutcome::TimedOut => env matches Envelope::Failure { error } && error@ == timeout_error(),
    }
}

/// Map the outcome of the outbound call to the uniform envelope. Every
/// failure is converted, none escapes.
pub fn settle<T>(outcome: CallOutcome<T>) -> (env: Envelope<T>)
    ensures
        settle_rel(outcome, env),
{
    match outcome {
        CallOutcome::Completed { answer } => Envelope::Success { answer },
        CallOutcome::Failed { error } => Envelope::Failure { error },
        CallOutcome::TimedOut => Envelope::Failure { error: "deadline has elapsed".to_owned() },
    }
}

/// `wire` is `env` in the three-field wire shape: `success` true exactly on
/// success, the answer present exactly when `success` is true, the error
/// present exactly when it is false.
pub open spec fn wire_rel<T>(env: Envelope<T>, wire: WireEnvelope<T>) -> bool {
    match env {
        Envelope::Success { answer } => {
            &&& wire.success
            &&& wire.openai_answer == Some(answer)
            &&& wire.error is None
        },
        Envelope::Failure { error } => {
            &&& !wire.success
            &&& wire.openai_answer is None
            &&& wire.error == Some(error)
        },
    }
}

impl<T> Envelope<T> {
    /// The envelope a rejected or failed request settles to.
    pub fn failure(error: String) -> (env: Envelope<T>)
        ensures
            env == (Envelope::<T>::Failure { error }),
    {
        Envelope::Failure { error }
    }

    /// Lay the envelope out in the three-field shape the wire carries.
    pub fn to_wire(self) -> (wire: WireEnvelope<T>)
        ensures
            wire_rel(self, wire),
    {
        match self {
            Envelope::Success { answer } => WireEnvelope {
                success: true,
                openai_answer: Some(answer),
                error: None,
            },
            Envelope::Failure { error } => WireEnvelope {
                success: false,
                openai_answer: None,
                error: Some(error),
            },
        }
    }
}

/// An outbound call that outlives its bound settles as a failure whose
/// error names the timeout; no answer is present.
pub proof fn lemma_timeout_settles_failed<T>(
    outcome: CallOutcome<T>,
    env: Envelope<T>,
    wire: WireEnvelope<T>,
)
    requires
        outcome is TimedOut,
        settle_rel(outcome, env),
        wire_rel(env, wire),
    ensures
        !wire.success,
        wire.openai_answer is None,
        wire.error matches Some(e) && e@ == timeout_error() && e@.len() > 0,
{
    reveal_strlit("deadline has elapsed");
}

} // verus!
