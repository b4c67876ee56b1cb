//! What a call of a function emits, layer by layer.
//!
//! A call runs the statements of the source once and emits the log statements of the
//! layers around them: that of a log layer before what is inside, those of a wrapper
//! after it. No layer changes the value that is returned; which of a wrapper's two
//! statements is emitted depends on whether that value is a success or a failure.

use crate::item::{BlockView, LayerView, LogCallView, WrapperView};
use vstd::prelude::*;

verus! {

/// How a call ended. A value that is neither a success nor a failure counts as a success.
#[derive(Clone, Copy, Debug, PartialEq, Eq, Structural)]
pub enum Outcome {
    Success,
    Failure,
}

/// One thing that a call does, as an observer sees it.
pub enum Event {
    /// The statements of the source run.
    Body,
    /// A log statement is emitted.
    Log(LogCallView),
}

/// The log statement that applies to an outcome: that of the failure where the outcomes
/// are told apart and the call failed, that of the success in every other case.
pub open spec fn applicable(wrapper: WrapperView, outcome: Outcome) -> Option<LogCallView> {
    if wrapper.branching && outcome == Outcome::Failure {
        wrapper.err_expr
    } else {
        wrapper.ok_expr
    }
}

/// What a wrapper emits once the closure has returned.
pub open spec fn wrapper_events(wrapper: WrapperView, outcome: Outcome) -> Seq<Event> {
    match applicable(wrapper, outcome) {
        Some(call) => seq![Event::Log(call)],
        None => Seq::empty(),
    }
}

/// What a layer emits around the events of what is inside it.
pub open spec fn layer_events(layer: LayerView, inner: Seq<Event>, outcome: Outcome) -> Seq<
    Event,
> {
    match layer {
        LayerView::Log(call) => seq![Event::Log(call)] + inner,
        LayerView::Wrap(wrapper) => inner + wrapper_events(wrapper, outcome),
    }
}

/// What a call of layered statements emits, the innermost layer first.
pub open spec fn layers_events(layers: Seq<LayerView>, outcome: Outcome) -> Seq<Event>
    decreases layers.len(),
{
    if layers.len() == 0 {
        seq![Event::Body]
    } else {
        layer_events(layers.last(), layers_events(layers.drop_last(), outcome), outcome)
    }
}

impl BlockView {
    /// What a call of a function with this body emits when it ends in `outcome`.
    pub open spec fn events(self, outcome: Outcome) -> Seq<Event> {
        layers_events(self.layers, outcome)
    }
}

/// A layer around a body adds its own events to those of the body and leaves those as
/// they are.
pub proof fn lemma_events_under(block: BlockView, layer: LayerView, outcome: Outcome)
    ensures
        block.under(layer).events(outcome) == layer_events(layer, block.events(outcome), outcome),
{
    assert(block.under(layer).layers.drop_last() =~= block.layers);
}

} // verus!
