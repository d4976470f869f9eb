//! HTTP Relay Server: the per-request pipeline. Each inbound block leads to a
//! block-put call and, only after that call succeeded, a pin call; the
//! outcomes are collapsed to the relay's own HTTP answer. The network calls
//! themselves happen outside this library; they report back as events, and
//! every decision between two calls stands here.

use vstd::prelude::*;

use crate::block_store::{put_block_decoding, PutBlockResponse};

verus! {

/// Why a relay stage failed: the downstream service could not be reached, it
/// answered with a status outside the 2xx range, or its reply body did not
/// decode into the expected shape.
#[derive(Clone, Copy, PartialEq, Eq, Structural, Debug)]
pub enum RelayError {
    Transport,
    Status,
    Decode,
}

/// What the relay observed of its block-put call: either the transport failed
/// outright, or the call completed with a status and a reply body.
pub enum BlockPutEvent {
    TransportFailed,
    Completed { status: u16, body: Vec<u8> },
}

/// What the relay observed of its pin call: either the transport failed
/// outright, or the call completed with a status. The reply body is
/// discarded; success is signalled by the status alone.
pub enum PinEvent {
    TransportFailed,
    Completed { status: u16 },
}

/// Only a status in the 2xx range counts as downstream success.
pub open spec fn spec_is_2xx(status: u16) -> bool {
    200 <= status <= 299
}

/// Whether a downstream status counts as success.
pub fn is_2xx(status: u16) -> (r: bool)
    ensures
        r == spec_is_2xx(status),
{
    200 <= status && status <= 299
}

/// The outcome of the block-put stage: the decoded content identifier and
/// declared size on success, and otherwise which of the three failures
/// occurred — transport, status outside 2xx, or an undecodable reply body.
pub open spec fn spec_block_put_result(ev: BlockPutEvent) -> Result<(Seq<char>, u64), RelayError> {
    match ev {
        BlockPutEvent::TransportFailed => Err(RelayError::Transport),
        BlockPutEvent::Completed { status, body } => if !spec_is_2xx(status) {
            Err(RelayError::Status)
        } else {
            match put_block_decoding(body@) {
                Some(kv) => Ok(kv),
                None => Err(RelayError::Decode),
            }
        },
    }
}

/// The content identifier the block-put stage returned, where it succeeded.
pub open spec fn spec_block_put_cid(ev: BlockPutEvent) -> Seq<char> {
    match spec_block_put_result(ev) {
        Ok(kv) => kv.0,
        Err(_) => Seq::empty(),
    }
}

/// The outcome of the pin stage: success exactly on a 2xx status.
pub open spec fn spec_pin_result(ev: PinEvent) -> Result<(), RelayError> {
    match ev {
        PinEvent::TransportFailed => Err(RelayError::Transport),
        PinEvent::Completed { status } => if spec_is_2xx(status) {
            Ok(())
        } else {
            Err(RelayError::Status)
        },
    }
}

/// Interprets what came back from the block-put call.
pub fn handle_block_put(ev: &BlockPutEvent) -> (r: Result<PutBlockResponse, RelayError>)
    ensures
        match spec_block_put_result(*ev) {
            Ok(kv) => r matches Ok(p) && p.key@ == kv.0 && p.size == kv.1,
            Err(e) => r matches Err(e2) && e2 == e,
        },
{
    match ev {
        BlockPutEvent::TransportFailed => Err(RelayError::Transport),
        BlockPutEvent::Completed { status, body } => {
            if !is_2xx(*status) {
                Err(RelayError::Status)
            } else {
                match crate::block_store::decode_put_block(body) {
                    Some(p) => Ok(p),
                    None => Err(RelayError::Decode),
                }
            }
        },
    }
}

/// Interprets what came back from the pin call.
pub fn handle_pin(ev: &PinEvent) -> (r: Result<(), RelayError>)
    ensures
        r == spec_pin_result(*ev),
{
    match ev {
        PinEvent::TransportFailed => Err(RelayError::Transport),
        PinEvent::Completed { status } => {
            if is_2xx(*status) {
                Ok(())
            } else {
                Err(RelayError::Status)
            }
        },
    }
}

/// The relay's answer to its own HTTP caller, as contracts speak of it.
pub struct ReplyModel {
    pub status: u16,
    pub body: Seq<char>,
}

/// Where a request stands, as contracts speak of it: waiting for the
/// block-put outcome, waiting for the pin outcome of a stored block, or done.
pub enum StateModel {
    AwaitingBlockPut,
    AwaitingPin { cid: Seq<char> },
    Done { reply: ReplyModel },
}

/// What the relay asks of its surroundings next, as contracts speak of it:
/// issue the pin call for a content identifier, or answer the caller.
pub enum StepModel {
    CallPin { cid: Seq<char> },
    Respond { reply: ReplyModel },
}

/// The answer on any failure: 500 with an empty body. The error detail is for
/// the operator's log, never for the caller.
pub open spec fn spec_failure_reply() -> ReplyModel {
    ReplyModel { status: 500, body: Seq::empty() }
}

/// The answer once both stages succeeded: 200 with the content identifier as
/// the body.
pub open spec fn spec_success_reply(cid: Seq<char>) -> ReplyModel {
    ReplyModel { status: 200, body: cid }
}

/// The transition out of the block-put stage: a stored block moves the
/// request on to the pin call for its content identifier; any failure ends
/// the request with the failure answer.
pub open spec fn spec_on_block_put(ev: BlockPutEvent) -> (StateModel, StepModel) {
    match spec_block_put_result(ev) {
        Ok(kv) => (StateModel::AwaitingPin { cid: kv.0 }, StepModel::CallPin { cid: kv.0 }),
        Err(_) => (
            StateModel::Done { reply: spec_failure_reply() },
            StepModel::Respond { reply: spec_failure_reply() },
        ),
    }
}

/// The transition out of the pin stage: a pinned block ends the request with
/// the success answer carrying its content identifier; any failure ends it
/// with the failure answer.
pub open spec fn spec_on_pin(cid: Seq<char>, ev: PinEvent) -> (StateModel, StepModel) {
    match spec_pin_result(ev) {
        Ok(_) => (
            StateModel::Done { reply: spec_success_reply(cid) },
            StepModel::Respond { reply: spec_success_reply(cid) },
        ),
        Err(_) => (
            StateModel::Done { reply: spec_failure_reply() },
            StepModel::Respond { reply: spec_failure_reply() },
        ),
    }
}

/// The relay's answer to its own HTTP caller.
pub struct HttpReply {
    pub status: u16,
    pub body: String,
}

impl View for HttpReply {
    type V = ReplyModel;

    open spec fn view(&self) -> ReplyModel {
        ReplyModel { status: self.status, body: self.body@ }
    }
}

/// Where one request stands. A request starts awaiting its block-put outcome;
/// the surroundings perform each network call and feed the outcome back in.
pub enum RelayState {
    AwaitingBlockPut,
    AwaitingPin { cid: String },
    Done { reply: HttpReply },
}

impl View for RelayState {
    type V = StateModel;

    open spec fn view(&self) -> StateModel {
        match self {
            RelayState::AwaitingBlockPut => StateModel::AwaitingBlockPut,
            RelayState::AwaitingPin { cid } => StateModel::AwaitingPin { cid: cid@ },
            RelayState::Done { reply } => StateModel::Done { reply: reply@ },
        }
    }
}

/// What the relay asks of its surroundings next.
pub enum RelayStep {
    CallPin { cid: String },
    Respond { reply: HttpReply },
}

impl View for RelayStep {
    type V = StepModel;

    open spec fn view(&self) -> StepModel {
        match self {
            RelayStep::CallPin { cid } => StepModel::CallPin { cid: cid@ },
            RelayStep::Respond { reply } => StepModel::Respond { reply: reply@ },
        }
    }
}

/// The failure answer: 500 with an empty body.
pub fn failure_reply() -> (r: HttpReply)
    ensures
        r@ == spec_failure_reply(),
{
    HttpReply { status: 500, body: String::new() }
}

impl RelayState {
    /// A fresh per-request state, before the block-put call is made.
    pub fn start() -> (s: Self)
        ensures
            s@ == StateModel::AwaitingBlockPut,
    {
        RelayState::AwaitingBlockPut
    }

    /// Takes the block-put outcome and decides the next step.
    pub fn on_block_put(self, ev: &BlockPutEvent) -> (r: (Self, RelayStep))
        requires
            self@ is AwaitingBlockPut,
        ensures
            (r.0@, r.1@) == spec_on_block_put(*ev),
    {
        match handle_block_put(ev) {
            Ok(p) => {
                let to_pin = p.key.clone();
                (RelayState::AwaitingPin { cid: p.key }, RelayStep::CallPin { cid: to_pin })
            },
            Err(_) => (
                RelayState::Done { reply: failure_reply() },
                RelayStep::Respond { reply: failure_reply() },
            ),
        }
    }

    /// Takes the pin outcome for the stored block and decides the answer.
    pub fn on_pin(self, ev: &PinEvent) -> (r: (Self, RelayStep))
        requires
            self@ is AwaitingPin,
        ensures
            self@ matches StateModel::AwaitingPin { cid } ==> (r.0@, r.1@) == spec_on_pin(
                cid,
                *ev,
            ),
    {
        match self {
            RelayState::AwaitingPin { cid } => {
                match handle_pin(ev) {
                    Ok(_) => {
                        let body = cid.clone();
                        let done = HttpReply { status: 200, body };
                        let answer = HttpReply { status: 200, body: cid };
                        (RelayState::Done { reply: done }, RelayStep::Respond { reply: answer })
                    },
                    Err(_) => (
                        RelayState::Done { reply: failure_reply() },
                        RelayStep::Respond { reply: failure_reply() },
                    ),
                }
            },
            _ => vstd::pervasive::unreached(),
        }
    }
}

/// For every payload: when the block store accepted the block and the pinning
/// service accepted the pin, the relay answers 200, and the body of that
/// answer is exactly the content identifier the block store returned.
pub proof fn lemma_round_trip_success(bev: BlockPutEvent, pev: PinEvent)
    requires
        (spec_block_put_result(bev) is Ok),
        (spec_pin_result(pev) is Ok),
    ensures
        (spec_on_block_put(bev).1 == StepModel::CallPin { cid: spec_block_put_cid(bev) }),
        (spec_on_pin(spec_block_put_cid(bev), pev).1 == StepModel::Respond {
            reply: ReplyModel { status: 200, body: spec_block_put_cid(bev) },
        }),
{
}

/// A failed block put — transport failure, a status outside 2xx, or an
/// undecodable reply — ends the request at once with 500 and an empty body;
/// the step after it is an answer, never a pin call, whatever the pinning
/// service would have done.
pub proof fn lemma_block_put_failure_skips_pin(bev: BlockPutEvent)
    requires
        (spec_block_put_result(bev) is Err),
    ensures
        (spec_on_block_put(bev).1 == StepModel::Respond { reply: spec_failure_reply() }),
        !(spec_on_block_put(bev).1 is CallPin),
        (spec_on_block_put(bev).0 is Done),
{
}

/// When the block was stored but the pin failed, the relay answers 500 with
/// an empty body: neither the content identifier nor any error detail reaches
/// the caller.
pub proof fn lemma_pin_failure_hides_outcome(cid: Seq<char>, pev: PinEvent)
    requires
        (spec_pin_result(pev) is Err),
    ensures
        (spec_on_pin(cid, pev).1 == StepModel::Respond { reply: spec_failure_reply() }),
        spec_failure_reply().status == 500,
        spec_failure_reply().body.len() == 0,
{
}

/// Submissions never interfere: each answer is a function of that request's
/// own two events alone, so two payloads handled concurrently that both
/// succeed each receive their own content identifier.
pub proof fn lemma_submissions_independent(
    put_first: BlockPutEvent,
    pin_first: PinEvent,
    put_second: BlockPutEvent,
    pin_second: PinEvent,
)
    requires
        (spec_block_put_result(put_first) is Ok),
        (spec_pin_result(pin_first) is Ok),
        (spec_block_put_result(put_second) is Ok),
        (spec_pin_result(pin_second) is Ok),
    ensures
        (spec_on_pin(spec_block_put_cid(put_first), pin_first).1 == StepModel::Respond {
            reply: ReplyModel { status: 200, body: spec_block_put_cid(put_first) },
        }),
        (spec_on_pin(spec_block_put_cid(put_second), pin_second).1 == StepModel::Respond {
            reply: ReplyModel { status: 200, body: spec_block_put_cid(put_second) },
        }),
{
    lemma_round_trip_success(put_first, pin_first);
    lemma_round_trip_success(put_second, pin_second);
}

} // verus!
