//! The control loop's scheduling decisions. The loop itself, which polls the
//! hardware and performs the actions, runs around this.

use vstd::prelude::*;

verus! {

/// How long the ribbon's analog front end settles before the loop starts.
pub const STARTUP_SETTLE_MS: u32 = 100;

/// What the loop observed at the start of one pass.
#[derive(Clone, Copy, Debug, PartialEq, Eq, Structural)]
pub struct LoopEvents {
    /// The byte the serial port had ready, if any.
    pub received: Option<u8>,
    /// The slow timer elapsed.
    pub slow_elapsed: bool,
    /// The fast timer elapsed.
    pub fast_elapsed: bool,
    /// The output timer elapsed.
    pub output_elapsed: bool,
}

/// Work for one pass of the control loop.
#[derive(Clone, Copy, Debug, PartialEq, Eq, Structural)]
pub enum LoopAction {
    /// Feed the byte to the note-stream parser.
    FeedNoteStream(u8),
    /// Refresh the user interface.
    RefreshUi,
    /// Read the ribbon's analog input and feed it to the ribbon filter.
    SampleRibbon,
    /// Run one output cycle of the pitch fusion engine and write its results.
    EmitOutputs,
}

pub open spec fn if_then(c: bool, a: LoopAction) -> Seq<LoopAction> {
    if c {
        seq![a]
    } else {
        Seq::empty()
    }
}

/// The actions of one pass in their fixed order: feed a received byte, then
/// refresh the interface, sample the ribbon and emit outputs, each only if its
/// timer elapsed.
pub open spec fn actions_of(e: LoopEvents) -> Seq<LoopAction> {
    let feed = match e.received {
        Some(b) => seq![LoopAction::FeedNoteStream(b)],
        None => Seq::empty(),
    };
    feed + if_then(e.slow_elapsed, LoopAction::RefreshUi) + if_then(
        e.fast_elapsed,
        LoopAction::SampleRibbon,
    ) + if_then(e.output_elapsed, LoopAction::EmitOutputs)
}

/// `plan_iteration(e)` is the work of one pass of the control loop, in order,
/// given what the pass observed.
pub fn plan_iteration(e: &LoopEvents) -> (r: Vec<LoopAction>)
    ensures
        r@ == actions_of(*e),
{
    let mut r: Vec<LoopAction> = Vec::new();
    match e.received {
        Some(b) => r.push(LoopAction::FeedNoteStream(b)),
        None => {},
    }
    if e.slow_elapsed {
        r.push(LoopAction::RefreshUi);
    }
    if e.fast_elapsed {
        r.push(LoopAction::SampleRibbon);
    }
    if e.output_elapsed {
        r.push(LoopAction::EmitOutputs);
    }
    assert(r@ =~= actions_of(*e));
    r
}

/// Every action of a pass is owed to an event, each event gives exactly its
/// action, and the outputs, when due, are emitted last.
pub proof fn lemma_plan_follows_events(e: LoopEvents)
    ensures
        actions_of(e).len() == (if e.received is Some { 1int } else { 0 }) + (if e.slow_elapsed {
            1int
        } else {
            0
        }) + (if e.fast_elapsed { 1int } else { 0 }) + (if e.output_elapsed { 1int } else { 0 }),
        e.output_elapsed <==> (actions_of(e).len() > 0 && actions_of(e).last()
            == LoopAction::EmitOutputs),
        e.received is Some ==> actions_of(e)[0] == LoopAction::FeedNoteStream(e.received->0),
{
}

} // verus!
