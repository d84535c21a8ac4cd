use vstd::prelude::*;

verus! {

/// The possible states of a [`Future`].
#[derive(Debug, Clone, Copy, PartialEq, Eq, Structural)]
pub enum FutureState {
    /// The task has not yet been picked up by a worker.
    Flying,
    /// A worker is executing the task.
    Started,
    /// The task has returned.
    Done,
    /// The task has panicked.
    Panicked,
}

impl FutureState {
    /// How far a state is along the life of a task. `Done` and `Panicked`
    /// are both at the end.
    pub open spec fn rank(self) -> nat {
        match self {
            FutureState::Flying => 0,
            FutureState::Started => 1,
            FutureState::Done => 2,
            FutureState::Panicked => 2,
        }
    }

    /// Whether the state is one of the two that a task ends in.
    pub open spec fn spec_is_terminal(self) -> bool {
        self == FutureState::Done || self == FutureState::Panicked
    }

    /// Whether the state is one of the two that a task ends in.
    #[verifier::when_used_as_spec(spec_is_terminal)]
    pub fn is_terminal(self) -> (terminal: bool)
        ensures
            terminal == self.spec_is_terminal(),
    {
        match self {
            FutureState::Done => true,
            FutureState::Panicked => true,
            _ => false,
        }
    }

    /// The state after a move to `next` was asked for: the move is made where
    /// it leads forward, and ignored where the state is already at the end or
    /// `next` would lead back.
    pub open spec fn advanced(self, next: FutureState) -> FutureState {
        if next.rank() > self.rank() {
            next
        } else {
            self
        }
    }
}

/// How a task ended.
pub enum Outcome<T> {
    /// The task returned this value.
    Returned(T),
    /// The task panicked.
    Panicked,
}

/// The state of a future, as its contracts speak of it.
pub struct FutureModel<T> {
    pub state: FutureState,
    /// The output of the task, from its return until it is taken.
    pub data: Option<T>,
}

impl<T> FutureModel<T> {
    /// The future of a task that was queued and not picked up yet.
    pub open spec fn fresh() -> Self {
        FutureModel { state: FutureState::Flying, data: None }
    }

    /// The output is held only by a future that is done.
    pub open spec fn wf(self) -> bool {
        self.data is Some ==> self.state == FutureState::Done
    }

    /// The future after a worker picked the task up.
    pub open spec fn started(self) -> Self {
        FutureModel { state: self.state.advanced(FutureState::Started), data: self.data }
    }

    /// The future after the task ended as `outcome` says. A future that has
    /// ended before stays as it is.
    pub open spec fn settled(self, outcome: Outcome<T>) -> Self {
        if self.state.is_terminal() {
            self
        } else {
            match outcome {
                Outcome::Returned(output) => FutureModel {
                    state: FutureState::Done,
                    data: Some(output),
                },
                Outcome::Panicked => FutureModel { state: FutureState::Panicked, data: None },
            }
        }
    }

    /// Whether the output can be taken: the task has returned and its output
    /// was not taken before.
    pub open spec fn has_output(self) -> bool {
        self.state == FutureState::Done && self.data is Some
    }

    /// The future after its output was taken.
    pub open spec fn emptied(self) -> Self {
        FutureModel { state: self.state, data: None }
    }
}

/// The eventual result of a task: its state, and its output once the task
/// has returned and until the output is taken.
///
/// The state only moves forward, from `Flying` over `Started` to `Done` or
/// `Panicked`, and stays where it ends.
pub struct Future<T> {
    data: Option<T>,
    state: FutureState,
}

impl<T> View for Future<T> {
    type V = FutureModel<T>;

    closed spec fn view(&self) -> FutureModel<T> {
        FutureModel { state: self.state, data: self.data }
    }
}

impl<T> Future<T> {
    /// The output is held only by a future that is done. A new future is
    /// well-formed, and every operation keeps it so.
    pub open spec fn wf(&self) -> bool {
        self@.wf()
    }

    /// Records that a worker picked the task up.
    pub fn set_started(&mut self)
        requires
            old(self).wf(),
        ensures
            final(self).wf(),
            final(self)@ == old(self)@.started(),
    {
        if let FutureState::Flying = self.state {
            self.state = FutureState::Started;
        }
    }

    /// Records that the task returned `output`.
    pub fn set_done(&mut self, output: T)
        requires
            old(self).wf(),
        ensures
            final(self).wf(),
            final(self)@ == old(self)@.settled(Outcome::Returned(output)),
    {
        if !self.state.is_terminal() {
            self.data = Some(output);
            self.state = FutureState::Done;
        }
    }

    /// Records that the task panicked.
    pub fn set_panicked(&mut self)
        requires
            old(self).wf(),
        ensures
            final(self).wf(),
            final(self)@ == old(self)@.settled(Outcome::Panicked),
    {
        if !self.state.is_terminal() {
            self.state = FutureState::Panicked;
        }
    }

    /// Records how the task ended.
    pub fn settle(&mut self, outcome: Outcome<T>)
        requires
            old(self).wf(),
        ensures
            final(self).wf(),
            final(self)@ == old(self)@.settled(outcome),
    {
        match outcome {
            Outcome::Returned(output) => self.set_done(output),
            Outcome::Panicked => self.set_panicked(),
        }
    }

    /// Whether the task has ended, by returning or by panicking.
    pub fn is_done(&self) -> (done: bool)
        ensures
            done == self@.state.is_terminal(),
    {
        self.state.is_terminal()
    }

    pub fn state(&self) -> (state: FutureState)
        ensures
            state == self@.state,
    {
        self.state
    }

    /// Whether the output can be taken: the task has returned and its output
    /// was not taken before.
    pub fn has_output(&self) -> (available: bool)
        ensures
            available == self@.has_output(),
    {
        match self.state {
            FutureState::Done => self.data.is_some(),
            _ => false,
        }
    }

    /// Takes the output of the task.
    ///
    /// The output is there to be taken once: the task must have returned,
    /// and the output must not have been taken before.
    pub fn output(&mut self) -> (output: T)
        requires
            old(self)@.has_output(),
        ensures
            Some(output) == old(self)@.data,
            final(self)@ == old(self)@.emptied(),
            !final(self)@.has_output(),
            final(self).wf(),
    {
        let mut data = None;
        core::mem::swap(&mut data, &mut self.data);
        data.unwrap()
    }

    /// Takes the output of the task where it is there to be taken.
    pub fn try_output(&mut self) -> (output: Option<T>)
        requires
            old(self).wf(),
        ensures
            final(self).wf(),
            output == if old(self)@.has_output() {
                old(self)@.data
            } else {
                None
            },
            final(self)@ == old(self)@.emptied(),
    {
        if self.has_output() {
            Some(self.output())
        } else {
            None
        }
    }
}

impl<T> Default for Future<T> {
    /// The future of a task that was queued and not picked up yet.
    fn default() -> (future: Self)
        ensures
            future.wf(),
            future@ == FutureModel::<T>::fresh(),
    {
        Self { data: None, state: FutureState::Flying }
    }
}

/// The number of tasks of a pool that were queued and have not ended. The
/// count wraps around, as the pool's counter does.
pub struct FlyingTasks {
    count: u16,
}

impl View for FlyingTasks {
    type V = u16;

    closed spec fn view(&self) -> u16 {
        self.count
    }
}

impl FlyingTasks {
    pub fn new() -> (tasks: Self)
        ensures
            tasks@ == 0,
    {
        Self { count: 0 }
    }

    /// Counts a task that was queued.
    pub fn launched(&mut self)
        ensures
            final(self)@ == if old(self)@ == u16::MAX {
                0
            } else {
                (old(self)@ + 1) as u16
            },
    {
        self.count = self.count.wrapping_add(1);
    }

    /// Counts a task that has ended.
    pub fn landed(&mut self)
        ensures
            final(self)@ == if old(self)@ == 0 {
                u16::MAX
            } else {
                (old(self)@ - 1) as u16
            },
    {
        self.count = self.count.wrapping_sub(1);
    }

    /// The number of tasks that were queued and have not ended.
    pub fn flying_tasks_count(&self) -> (count: u16)
        ensures
            count == self@,
    {
        self.count
    }
}

/// The state of a future never moves back, and a state at the end stays.
pub proof fn lemma_state_is_monotonic(state: FutureState, next: FutureState)
    ensures
        state.advanced(next).rank() >= state.rank(),
        state.is_terminal() ==> state.advanced(next) == state,
{
}

/// The life of a future: whatever is recorded, in whatever order, its state
/// never moves back, a future that has ended stays as it is, and it is
/// well-formed throughout.
pub proof fn lemma_future_is_monotonic<T>(future: FutureModel<T>, outcome: Outcome<T>)
    requires
        future.wf(),
    ensures
        future.started().state.rank() >= future.state.rank(),
        future.settled(outcome).state.rank() >= future.state.rank(),
        future.settled(outcome).state.is_terminal(),
        future.state.is_terminal() ==> future.started() == future && future.settled(outcome)
            == future,
        future.started().wf(),
        future.settled(outcome).wf(),
{
}

/// A task that returns leaves its output to be taken exactly once: taking
/// it yields the returned value, and afterwards there is no output to take,
/// while the future stays done.
pub proof fn lemma_output_is_taken_once<T>(output: T)
    ensures
        FutureModel::<T>::fresh().started().settled(Outcome::Returned(output)).has_output(),
        FutureModel::<T>::fresh().started().settled(Outcome::Returned(output)).data == Some(output),
        !FutureModel::<T>::fresh().started().settled(
            Outcome::Returned(output),
        ).emptied().has_output(),
        FutureModel::<T>::fresh().started().settled(Outcome::Returned(output)).emptied().state
            == FutureState::Done,
{
}

/// A task that panics leaves the future panicked, with no output to take,
/// and nothing that is recorded later changes that.
pub proof fn lemma_panic_leaves_no_output<T>(later: Outcome<T>)
    ensures
        FutureModel::<T>::fresh().started().settled(Outcome::Panicked).state
            == FutureState::Panicked,
        !FutureModel::<T>::fresh().started().settled(Outcome::Panicked).has_output(),
        FutureModel::<T>::fresh().started().settled(Outcome::Panicked).settled(later)
            == FutureModel::<T>::fresh().started().settled(Outcome::Panicked),
{
}

} // verus!
