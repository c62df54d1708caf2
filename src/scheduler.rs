use vstd::prelude::*;

verus! {

/// Where the frame scheduler stands.
#[derive(Clone, Copy, Debug, PartialEq, Eq, Structural)]
pub enum RunState {
    /// Built, not yet started.
    Init,
    /// Handling events, updating and drawing.
    Running,
    /// Closed: nothing more is updated or drawn.
    Exit,
}

/// An event that concerns the window.
#[derive(Clone, Copy, Debug, PartialEq, Eq, Structural)]
pub enum WindowEvent {
    /// The user asked to close the window.
    CloseRequested,
    /// A key changed state; the value is its key code.
    KeyboardInput(u32),
    /// Any other window event.
    Other,
}

/// A platform event, as the scheduler sees it.
#[derive(Clone, Copy, Debug, PartialEq, Eq, Structural)]
pub enum Event {
    WindowEvent(WindowEvent),
    /// The queue of pending events has been drained.
    MainEventsCleared,
    /// The window asks to be redrawn.
    RedrawRequested,
    /// Any other event.
    Other,
}

/// What the scheduler asks its runner to do in answer to an event.
#[derive(Clone, Copy, Debug, PartialEq, Eq, Structural)]
pub enum Action {
    /// Nothing.
    Nothing,
    /// Hand the key code to the key handler.
    HandleKey(u32),
    /// Run one update over every group, then request a redraw.
    UpdateThenRedraw,
    /// Run one draw pass.
    Draw,
    /// Leave the event loop.
    Stop,
}

/// What the event loop does once the current event is handled.
#[derive(Clone, Copy, Debug, PartialEq, Eq, Structural)]
pub enum ControlFlow {
    /// Wait for the next event.
    Continue,
    /// Return from the loop.
    Exit,
}

/// The scheduler's transition: its next state and the action for event `e`
/// in state `s`. A close request ends a scheduler that has not ended yet; a
/// running scheduler hands keys on, updates when the queue is drained and
/// draws when asked to; all else does nothing.
pub open spec fn step(s: RunState, e: Event) -> (RunState, Action) {
    match s {
        RunState::Exit => (RunState::Exit, Action::Nothing),
        _ => match e {
            Event::WindowEvent(WindowEvent::CloseRequested) => (RunState::Exit, Action::Stop),
            Event::WindowEvent(WindowEvent::KeyboardInput(k)) => (
                s,
                if s == RunState::Running {
                    Action::HandleKey(k)
                } else {
                    Action::Nothing
                },
            ),
            Event::MainEventsCleared => (
                s,
                if s == RunState::Running {
                    Action::UpdateThenRedraw
                } else {
                    Action::Nothing
                },
            ),
            Event::RedrawRequested => (
                s,
                if s == RunState::Running {
                    Action::Draw
                } else {
                    Action::Nothing
                },
            ),
            _ => (s, Action::Nothing),
        },
    }
}

/// The state after the events `evs`, from state `s`.
pub open spec fn state_after(s: RunState, evs: Seq<Event>) -> RunState
    decreases evs.len(),
{
    if evs.len() == 0 {
        s
    } else {
        state_after(step(s, evs[0]).0, evs.drop_first())
    }
}

/// The actions for the events `evs`, one each, from state `s`.
pub open spec fn actions(s: RunState, evs: Seq<Event>) -> Seq<Action>
    decreases evs.len(),
{
    if evs.len() == 0 {
        Seq::empty()
    } else {
        seq![step(s, evs[0]).1] + actions(step(s, evs[0]).0, evs.drop_first())
    }
}

/// Whether `a` runs an update or a draw pass.
pub open spec fn is_frame_work(a: Action) -> bool {
    a == Action::UpdateThenRedraw || a == Action::Draw
}

proof fn lemma_actions_len(s: RunState, evs: Seq<Event>)
    ensures
        actions(s, evs).len() == evs.len(),
    decreases evs.len(),
{
    if evs.len() > 0 {
        lemma_actions_len(step(s, evs[0]).0, evs.drop_first());
    }
}

proof fn lemma_actions_concat(s: RunState, a: Seq<Event>, b: Seq<Event>)
    ensures
        actions(s, a + b) == actions(s, a) + actions(state_after(s, a), b),
        state_after(s, a + b) == state_after(state_after(s, a), b),
    decreases a.len(),
{
    if a.len() == 0 {
        assert(a + b =~= b);
        assert(actions(s, a) + actions(s, b) =~= actions(s, b));
    } else {
        let s1 = step(s, a[0]).0;
        assert((a + b)[0] == a[0]);
        assert((a + b).drop_first() =~= a.drop_first() + b);
        lemma_actions_concat(s1, a.drop_first(), b);
        assert(actions(s, a + b) =~= actions(s, a) + actions(state_after(s, a), b));
    }
}

proof fn lemma_exit_is_terminal(evs: Seq<Event>)
    ensures
        state_after(RunState::Exit, evs) == RunState::Exit,
        forall|i: int| 0 <= i < evs.len() ==> #[trigger] actions(RunState::Exit, evs)[i] == Action::Nothing,
    decreases evs.len(),
{
    lemma_actions_len(RunState::Exit, evs);
    if evs.len() > 0 {
        lemma_exit_is_terminal(evs.drop_first());
        assert forall|i: int| 0 <= i < evs.len() implies #[trigger] actions(RunState::Exit, evs)[i]
            == Action::Nothing by {
            if i > 0 {
                assert(actions(RunState::Exit, evs)[i] == actions(RunState::Exit, evs.drop_first())[i - 1]);
            }
        }
    }
}

/// A close request stops the scheduler for good: whatever came before it,
/// it is answered by stopping the loop (or by nothing, if the scheduler had
/// already ended), every later event is answered by nothing, so no update
/// or draw pass runs after it, and the scheduler ends in its exit state.
pub proof fn lemma_close_terminates(s: RunState, before: Seq<Event>, after: Seq<Event>)
    ensures
        ({
            let evs = before + seq![Event::WindowEvent(WindowEvent::CloseRequested)] + after;
            &&& actions(s, evs).len() == evs.len()
            &&& state_after(s, evs) == RunState::Exit
            &&& forall|i: int|
                before.len() < i < evs.len() ==> #[trigger] actions(s, evs)[i] == Action::Nothing
            &&& forall|i: int| before.len() <= i < evs.len() ==> !is_frame_work(#[trigger] actions(s, evs)[i])
        }),
{
    let close = seq![Event::WindowEvent(WindowEvent::CloseRequested)];
    let evs = before + close + after;
    let s1 = state_after(s, before);
    lemma_actions_len(s, evs);
    lemma_actions_len(s, before);
    lemma_actions_concat(s, before + close, after);
    lemma_actions_concat(s, before, close);
    assert(close.len() == 1);
    assert(close[0] == Event::WindowEvent(WindowEvent::CloseRequested));
    assert(close.drop_first() =~= Seq::<Event>::empty());
    assert(step(s1, close[0]).0 == RunState::Exit);
    assert(state_after(RunState::Exit, close.drop_first()) == RunState::Exit);
    assert(actions(RunState::Exit, close.drop_first()) =~= Seq::<Action>::empty());
    assert(state_after(s1, close) == RunState::Exit);
    assert(actions(s1, close) =~= seq![step(s1, close[0]).1]);
    lemma_exit_is_terminal(after);
    lemma_actions_len(RunState::Exit, after);
    assert forall|i: int| before.len() <= i < evs.len() implies #[trigger] actions(s, evs)[i] == (if i
        == before.len() {
        step(s1, close[0]).1
    } else {
        Action::Nothing
    }) by {
        if i > before.len() {
            assert(actions(s, evs)[i] == actions(RunState::Exit, after)[i - before.len() - 1]);
        } else {
            assert(actions(s, evs)[i] == actions(s1, close)[0]);
        }
    }
}

/// The frame scheduler: decides, event by event, what the runner does
/// (update, draw, hand a key on, stop), and ends for good on a close request.
pub struct Engine {
    state: RunState,
}

impl Engine {
    /// The current state.
    pub closed spec fn spec_state(&self) -> RunState {
        self.state
    }

    /// A scheduler that has not started yet.
    pub fn new() -> (r: Self)
        ensures
            r.spec_state() == RunState::Init,
    {
        Engine { state: RunState::Init }
    }

    /// A scheduler that runs from the start: the render surface and the
    /// event source exist.
    pub fn init() -> (r: Self)
        ensures
            r.spec_state() == RunState::Running,
    {
        Engine { state: RunState::Running }
    }

    /// Starts a scheduler that has not started yet; one that runs or has
    /// ended keeps its state.
    pub fn start(&mut self)
        ensures
            old(self).spec_state() == RunState::Init ==> final(self).spec_state() == RunState::Running,
            old(self).spec_state() != RunState::Init ==> final(self).spec_state() == old(self).spec_state(),
    {
        if self.state == RunState::Init {
            self.state = RunState::Running;
        }
    }

    /// The current state.
    pub fn state(&self) -> (r: RunState)
        ensures
            r == self.spec_state(),
    {
        self.state
    }

    /// Whether the event loop goes on or returns.
    pub fn control_flow(&self) -> (r: ControlFlow)
        ensures
            r == (if self.spec_state() == RunState::Exit {
                ControlFlow::Exit
            } else {
                ControlFlow::Continue
            }),
    {
        if self.state == RunState::Exit {
            ControlFlow::Exit
        } else {
            ControlFlow::Continue
        }
    }

    /// Handles a window event: a close request ends the scheduler, a key goes
    /// to the key handler.
    pub fn window_handle(&mut self, window_event: WindowEvent) -> (r: Action)
        ensures
            (final(self).spec_state(), r) == step(old(self).spec_state(), Event::WindowEvent(window_event)),
    {
        self.handle_events(Event::WindowEvent(window_event))
    }

    /// Handles one platform event.
    pub fn handle_events(&mut self, ev: Event) -> (r: Action)
        ensures
            (final(self).spec_state(), r) == step(old(self).spec_state(), ev),
    {
        if self.state == RunState::Exit {
            return Action::Nothing;
        }
        let running = self.state == RunState::Running;
        match ev {
            Event::WindowEvent(WindowEvent::CloseRequested) => {
                self.state = RunState::Exit;
                Action::Stop
            },
            Event::WindowEvent(WindowEvent::KeyboardInput(k)) => {
                if running {
                    Action::HandleKey(k)
                } else {
                    Action::Nothing
                }
            },
            Event::MainEventsCleared => {
                if running {
                    Action::UpdateThenRedraw
                } else {
                    Action::Nothing
                }
            },
            Event::RedrawRequested => {
                if running {
                    Action::Draw
                } else {
                    Action::Nothing
                }
            },
            _ => Action::Nothing,
        }
    }
}

} // verus!
