//! The render loop as a state machine: what each event delivered by the
//! windowing system makes the loop do, and that a close request ends it
//! for good.

use vstd::prelude::*;

verus! {

/// Where the render loop stands.
#[derive(Copy, Clone, Debug, PartialEq, Eq, Structural)]
pub enum RenderState {
    /// Waiting for the next event.
    Polling,
    /// A frame is being drawn and presented.
    Rendering,
    /// The loop has ended; nothing more is drawn.
    Terminated,
}

/// An event delivered to the render loop.
#[derive(Copy, Clone, Debug, PartialEq, Eq, Structural)]
pub enum LoopEvent {
    /// All pending events were handled: time to render one frame.
    RedrawTick,
    /// The frame being drawn has been presented.
    Presented,
    /// The window was asked to close.
    CloseRequested,
    /// Any other event.
    Other,
}

/// What the loop does in reaction to an event.
#[derive(Copy, Clone, Debug, PartialEq, Eq, Structural)]
pub enum LoopAction {
    /// Receive a frame from the queue, upload it, and draw.
    DrawFrame,
    /// Keep polling.
    Continue,
    /// Leave the loop.
    Exit,
}

/// One step of the render loop: the next state and the action taken.
/// A redraw tick starts a draw only from the polling state; while a draw is
/// in flight further ticks change nothing; a presented draw returns to
/// polling; a close request terminates from any live state; the terminated
/// state is absorbing.
pub open spec fn spec_render_step(s: RenderState, e: LoopEvent) -> (RenderState, LoopAction) {
    match s {
        RenderState::Terminated => (RenderState::Terminated, LoopAction::Exit),
        RenderState::Polling => match e {
            LoopEvent::CloseRequested => (RenderState::Terminated, LoopAction::Exit),
            LoopEvent::RedrawTick => (RenderState::Rendering, LoopAction::DrawFrame),
            LoopEvent::Presented => (RenderState::Polling, LoopAction::Continue),
            LoopEvent::Other => (RenderState::Polling, LoopAction::Continue),
        },
        RenderState::Rendering => match e {
            LoopEvent::CloseRequested => (RenderState::Terminated, LoopAction::Exit),
            LoopEvent::RedrawTick => (RenderState::Rendering, LoopAction::Continue),
            LoopEvent::Presented => (RenderState::Polling, LoopAction::Continue),
            LoopEvent::Other => (RenderState::Rendering, LoopAction::Continue),
        },
    }
}

/// Take one step of the render loop.
pub fn render_step(s: RenderState, e: LoopEvent) -> (r: (RenderState, LoopAction))
    ensures
        r == spec_render_step(s, e),
{
    match s {
        RenderState::Terminated => (RenderState::Terminated, LoopAction::Exit),
        RenderState::Polling => match e {
            LoopEvent::CloseRequested => (RenderState::Terminated, LoopAction::Exit),
            LoopEvent::RedrawTick => (RenderState::Rendering, LoopAction::DrawFrame),
            LoopEvent::Presented => (RenderState::Polling, LoopAction::Continue),
            LoopEvent::Other => (RenderState::Polling, LoopAction::Continue),
        },
        RenderState::Rendering => match e {
            LoopEvent::CloseRequested => (RenderState::Terminated, LoopAction::Exit),
            LoopEvent::RedrawTick => (RenderState::Rendering, LoopAction::Continue),
            LoopEvent::Presented => (RenderState::Polling, LoopAction::Continue),
            LoopEvent::Other => (RenderState::Rendering, LoopAction::Continue),
        },
    }
}

/// The state after a whole sequence of events, delivered in order.
pub open spec fn spec_run_state(s: RenderState, es: Seq<LoopEvent>) -> RenderState
    decreases es.len(),
{
    if es.len() == 0 {
        s
    } else {
        spec_run_state(spec_render_step(s, es[0]).0, es.drop_first())
    }
}

/// The terminated state absorbs every further event.
pub proof fn lemma_terminated_absorbing(es: Seq<LoopEvent>)
    ensures
        spec_run_state(RenderState::Terminated, es) == RenderState::Terminated,
    decreases es.len(),
{
    if es.len() > 0 {
        lemma_terminated_absorbing(es.drop_first());
    }
}

/// Once a close request has been delivered to the loop in any live state, no
/// later event, whatever it is and however many come before it, makes the
/// loop draw again: every step taken after the close request exits.
pub proof fn lemma_no_draw_after_close(s: RenderState, es: Seq<LoopEvent>, i: int)
    requires
        0 <= i < es.len(),
    ensures
        spec_render_step(s, LoopEvent::CloseRequested).0 == RenderState::Terminated,
        spec_render_step(
            spec_run_state(spec_render_step(s, LoopEvent::CloseRequested).0, es.take(i)),
            es[i],
        ).1 != LoopAction::DrawFrame,
{
    lemma_terminated_absorbing(es.take(i));
}

} // verus!
