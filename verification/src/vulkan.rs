//! The renderer's control loop: what it does with each lifecycle signal.
//!
//! The loop itself, which waits on the channel again and again, belongs to
//! the caller. Here is what one turn of it decides.

use vstd::prelude::*;
use crate::error::SetupError;
use crate::setup::{Resource, SetupView, VulkanSetup};
use crate::signal::AppState;

verus! {

/// What the control loop does after a signal.
#[derive(Clone, Copy, Debug, PartialEq, Eq, Structural)]
pub enum LoopAction {
    /// Go on waiting for the next signal.
    Continue,
    /// Leave the loop and release the resources.
    Teardown,
}

/// What a signal asks of the control loop: `Closed` ends it, and every
/// other signal is observed and changes nothing.
pub open spec fn action_for(signal: AppState) -> LoopAction {
    if signal == AppState::Closed {
        LoopAction::Teardown
    } else {
        LoopAction::Continue
    }
}

/// The position of the first `Closed` in a run of signals, or the length
/// of the run where it holds none.
pub open spec fn first_closed(signals: Seq<AppState>) -> int
    decreases signals.len(),
{
    if signals.len() == 0 {
        0
    } else if signals[0] == AppState::Closed {
        0
    } else {
        1 + first_closed(signals.drop_first())
    }
}

/// How many signals of a run the control loop reads: all up to the first
/// `Closed` and that one too, or every one where none is `Closed`.
pub open spec fn signals_read(signals: Seq<AppState>) -> int {
    if first_closed(signals) < signals.len() {
        first_closed(signals) + 1
    } else {
        signals.len() as int
    }
}

/// The state in which the control loop is after a run of signals, having
/// started in `start`: that of the last signal it read.
pub open spec fn state_after(start: AppState, signals: Seq<AppState>) -> AppState {
    if signals_read(signals) == 0 {
        start
    } else {
        signals[signals_read(signals) - 1]
    }
}

/// `first_closed` is a position in the run or its length; no signal before
/// it is `Closed`, and the one at it is.
pub proof fn lemma_first_closed(signals: Seq<AppState>)
    ensures
        0 <= first_closed(signals) <= signals.len(),
        forall|i: int| 0 <= i < first_closed(signals) ==> signals[i] != AppState::Closed,
        first_closed(signals) < signals.len() ==> signals[first_closed(signals)]
            == AppState::Closed,
    decreases signals.len(),
{
    if signals.len() > 0 && signals[0] != AppState::Closed {
        let rest = signals.drop_first();
        lemma_first_closed(rest);
        assert forall|i: int| 0 <= i < first_closed(signals) implies signals[i]
            != AppState::Closed by {
            if i > 0 {
                assert(signals[i] == rest[i - 1]);
            }
        }
    }
}

/// The renderer once its resources are acquired: the resource set, and the
/// last lifecycle state that it has observed.
pub struct Core<H> {
    setup: VulkanSetup<H>,
    state: AppState,
}

/// What the renderer holds.
pub struct CoreView<H> {
    pub setup: SetupView<H>,
    pub state: AppState,
}

impl<H> View for Core<H> {
    type V = CoreView<H>;

    closed spec fn view(&self) -> CoreView<H> {
        CoreView { setup: self.setup@, state: self.state }
    }
}

impl<H> Core<H> {
    /// The renderer around an acquired resource set. It starts out
    /// awaiting its first signal.
    pub fn new(input: VulkanSetup<H>) -> (core: Self)
        ensures
            core@.setup == input@,
            core@.state == AppState::Awaiting,
    {
        Core { setup: input, state: AppState::Awaiting }
    }

    /// The last lifecycle state that the renderer has observed.
    pub fn state(&self) -> (state: AppState)
        ensures
            state == self@.state,
    {
        self.state
    }

    /// Whether the renderer holds its end of the signal channel.
    pub fn is_connected(&self) -> (connected: bool)
        ensures
            connected == self@.setup.connected,
    {
        self.setup.is_connected()
    }

    /// The resource set that the renderer owns.
    pub fn setup(&self) -> (setup: &VulkanSetup<H>)
        ensures
            setup@ == self@.setup,
    {
        &self.setup
    }

    /// Whether the control loop has ended.
    pub fn is_closed(&self) -> (closed: bool)
        ensures
            closed == (self@.state == AppState::Closed),
    {
        self.state == AppState::Closed
    }

    /// One turn of the control loop, for a signal that has arrived. The
    /// resources are never touched; only `Closed` asks for the teardown.
    pub fn on_signal(&mut self, signal: AppState) -> (action: LoopAction)
        ensures
            action == action_for(signal),
            final(self)@.state == signal,
            final(self)@.setup == old(self)@.setup,
    {
        self.state = signal;
        if signal == AppState::Closed {
            LoopAction::Teardown
        } else {
            LoopAction::Continue
        }
    }

    /// One turn of the control loop: waits for a signal and acts on it. A
    /// window host that went away without closing breaks the handshake,
    /// and the renderer is left as it was.
    pub fn poll(&mut self) -> (action: Result<LoopAction, SetupError>)
        requires
            old(self)@.setup.connected,
            old(self)@.state != AppState::Closed,
        ensures
            final(self)@.setup == old(self)@.setup,
            match action {
                Ok(a) => a == action_for(final(self)@.state),
                Err(e) => e == SetupError::HandshakeBroken && final(self)@.state == old(
                    self,
                )@.state,
            },
    {
        match self.setup.next_signal() {
            Ok(signal) => Ok(self.on_signal(signal)),
            Err(e) => Err(e),
        }
    }

    /// Feeds the control loop a run of signals that have arrived. The loop
    /// reads them in order and stops behind the first `Closed`; what comes
    /// after that is never read. The answer is how many were read.
    pub fn run_signals(&mut self, signals: &Vec<AppState>) -> (read: usize)
        requires
            old(self)@.state != AppState::Closed,
        ensures
            read == signals_read(signals@),
            final(self)@.state == state_after(old(self)@.state, signals@),
            final(self)@.setup == old(self)@.setup,
            final(self)@.state == AppState::Closed <==> signals@.contains(AppState::Closed),
    {
        let mut i: usize = 0;
        proof {
            lemma_first_closed(signals@);
        }
        while i < signals.len()
            invariant
                i <= signals@.len(),
                i <= first_closed(signals@),
                self@.setup == old(self)@.setup,
                self@.state != AppState::Closed,
                i == 0 ==> self@.state == old(self)@.state,
                i > 0 ==> self@.state == signals@[i - 1],
                forall|j: int| 0 <= j < first_closed(signals@) ==> signals@[j] != AppState::Closed,
                first_closed(signals@) < signals@.len() ==> signals@[first_closed(signals@)]
                    == AppState::Closed,
            decreases signals@.len() - i,
        {
            let action = self.on_signal(signals[i]);
            i += 1;
            if action == LoopAction::Teardown {
                return i;
            }
        }
        i
    }

    /// Ends the renderer: hands out the live handles in the order in which
    /// they have to be destroyed.
    pub fn shutdown(self) -> (release: Vec<(Resource, H)>)
        ensures
            release@ == self@.setup.teardown_sequence(),
    {
        self.setup.teardown()
    }
}

/// `Closed` ends the loop at once: of a run of signals without `Closed`,
/// then `Closed`, then anything at all, the loop reads the run and the
/// `Closed` and nothing behind it.
pub proof fn law_closed_ends_the_loop(before: Seq<AppState>, after: Seq<AppState>)
    requires
        !before.contains(AppState::Closed),
    ensures
        signals_read(before + seq![AppState::Closed] + after) == before.len() + 1,
        state_after(AppState::Awaiting, before + seq![AppState::Closed] + after)
            == AppState::Closed,
{
    let all = before + seq![AppState::Closed] + after;
    lemma_first_closed(all);
    assert(all[before.len() as int] == AppState::Closed);
}

/// Without `Closed` the loop reads every signal and goes on.
pub proof fn law_open_loop_reads_all(signals: Seq<AppState>)
    requires
        !signals.contains(AppState::Closed),
    ensures
        signals_read(signals) == signals.len(),
        forall|i: int| 0 <= i < signals.len() ==> action_for(#[trigger] signals[i])
            == LoopAction::Continue,
{
    lemma_first_closed(signals);
}

} // verus!
