//! The two suspended patterns as explicit tasks: a unit of work that a
//! scheduler starts, that asks for a timed wait, and that changes its list
//! only when told that the wait is over.
//!
//! A task decides; it does not wait. The scheduler carries out each
//! `Directive` and reports back with a `Wake`.
use vstd::prelude::*;
use crate::rule::Rule;

verus! {

/// Length of the wait that a task asks for, in seconds.
pub const DELAY_SECONDS: u64 = 1;

/// How far a task has come.
#[derive(Clone, Copy, Debug, PartialEq, Eq, Structural)]
pub enum Stage {
    /// Made, not yet started.
    Created,
    /// Started and waiting for its timer.
    Suspended,
    /// Past the wait, its list changed.
    Completed,
}

/// What the scheduler reports to a task.
#[derive(Clone, Copy, Debug, PartialEq, Eq, Structural)]
pub enum Wake {
    /// The scheduler gives the task a turn.
    Poll,
    /// The wait that the task asked for is over.
    TimerElapsed,
}

/// What a task asks of the scheduler.
#[derive(Clone, Copy, Debug, PartialEq, Eq, Structural)]
pub enum Directive {
    /// Wait this many seconds, then report `TimerElapsed`.
    Sleep { seconds: u64 },
    /// Nothing new: the task is still where it was.
    Pending,
    /// The task is complete.
    Done,
}

/// A task as contracts see it: its stage and the list it holds.
pub struct TaskState {
    pub stage: Stage,
    pub list: Seq<i32>,
}

/// The state of a task that was just made for `list`.
pub open spec fn created(list: Seq<i32>) -> TaskState {
    TaskState { stage: Stage::Created, list }
}

/// The state that follows `state` on `event`. A task starts on its first
/// turn, completes when its timer has elapsed, and changes its list in that
/// one step only; any other event leaves it where it is.
pub open spec fn next(state: TaskState, event: Wake) -> TaskState {
    match (state.stage, event) {
        (Stage::Created, Wake::Poll) => TaskState { stage: Stage::Suspended, list: state.list },
        (Stage::Suspended, Wake::TimerElapsed) => TaskState {
            stage: Stage::Completed,
            list: Rule::Overwrite.applied(state.list),
        },
        _ => state,
    }
}

/// What a task in `state` asks of the scheduler on `event`.
pub open spec fn directive(state: TaskState, event: Wake) -> Directive {
    match (state.stage, event) {
        (Stage::Created, Wake::Poll) => Directive::Sleep { seconds: DELAY_SECONDS },
        (Stage::Suspended, Wake::TimerElapsed) => Directive::Done,
        (Stage::Completed, _) => Directive::Done,
        _ => Directive::Pending,
    }
}

/// The state that `state` reaches after all of `events`, in their order.
pub open spec fn run(state: TaskState, events: Seq<Wake>) -> TaskState
    decreases events.len(),
{
    if events.len() == 0 {
        state
    } else {
        next(run(state, events.drop_last()), events.last())
    }
}

/// Whatever the scheduler reports and in whatever order, a task made for
/// `input` holds `input` as it was given until it completes; it completes
/// only on a report that its timer elapsed, which came after the turn that
/// started it; and once complete it holds `input` with `MARKER` at the
/// target.
pub proof fn lemma_change_waits_for_timer(input: Seq<i32>, events: Seq<Wake>)
    ensures
        run(created(input), events).stage != Stage::Completed ==> run(
            created(input),
            events,
        ).list == input,
        run(created(input), events).stage == Stage::Completed ==> run(
            created(input),
            events,
        ).list == Rule::Overwrite.applied(input),
        run(created(input), events).stage != Stage::Created ==> exists|i: int|
            0 <= i < events.len() && events[i] == Wake::Poll,
        run(created(input), events).stage == Stage::Completed ==> exists|i: int, j: int|
            0 <= i < j < events.len() && events[i] == Wake::Poll && events[j]
                == Wake::TimerElapsed,
    decreases events.len(),
{
    if events.len() > 0 {
        let earlier = events.drop_last();
        let before = run(created(input), earlier);
        lemma_change_waits_for_timer(input, earlier);
        // The last event is the witness for a stage that it brought about.
        let last = events.len() - 1;
        assert(events[last] == events.last());
        // A witness among the earlier events stands at the same place in `events`.
        if before.stage != Stage::Created {
            let i = choose|i: int| 0 <= i < earlier.len() && earlier[i] == Wake::Poll;
            assert(events[i] == Wake::Poll);
        }
        if before.stage == Stage::Completed {
            let (i, j) = choose|i: int, j: int|
                0 <= i < j < earlier.len() && earlier[i] == Wake::Poll && earlier[j]
                    == Wake::TimerElapsed;
            assert(events[i] == Wake::Poll && events[j] == Wake::TimerElapsed);
        }
    }
}

/// A task that owns its list.
pub struct OwnedTask {
    stage: Stage,
    list: Vec<i32>,
}

impl View for OwnedTask {
    type V = TaskState;

    closed spec fn view(&self) -> TaskState {
        TaskState { stage: self.stage, list: self.list@ }
    }
}

/// Makes the task that will change `vec` after a wait. Nothing has happened
/// to the list yet.
pub fn modify_list_async(vec: Vec<i32>) -> (task: OwnedTask)
    ensures
        task@ == created(vec@),
{
    OwnedTask { stage: Stage::Created, list: vec }
}

impl OwnedTask {
    /// How far the task has come.
    pub fn stage(&self) -> (stage: Stage)
        ensures
            stage == self@.stage,
    {
        self.stage
    }

    /// Takes the task one step on `event` and says what the scheduler is to
    /// do next.
    pub fn step(&mut self, event: Wake) -> (asked: Directive)
        ensures
            final(self)@ == next(old(self)@, event),
            asked == directive(old(self)@, event),
    {
        match (self.stage, event) {
            (Stage::Created, Wake::Poll) => {
                self.stage = Stage::Suspended;
                Directive::Sleep { seconds: DELAY_SECONDS }
            },
            (Stage::Suspended, Wake::TimerElapsed) => {
                Rule::Overwrite.rewrite(&mut self.list);
                self.stage = Stage::Completed;
                Directive::Done
            },
            (Stage::Completed, _) => Directive::Done,
            _ => Directive::Pending,
        }
    }

    /// Ends the task. The list comes out only of a completed task; a task
    /// that is still waiting gives nothing.
    pub fn finish(self) -> (output: Option<Vec<i32>>)
        ensures
            output is Some <==> self@.stage == Stage::Completed,
            output matches Some(list) ==> list@ == self@.list,
    {
        match self.stage {
            Stage::Completed => Some(self.list),
            _ => None,
        }
    }
}

/// A task that holds its exclusive borrow of the caller's list from the
/// moment it is made until it is ended or dropped, across its wait. Nothing
/// but `step` moves the task or reaches the list while the task lives.
pub struct BorrowedTask<'a> {
    stage: Stage,
    list: &'a mut Vec<i32>,
}

impl<'a> View for BorrowedTask<'a> {
    type V = TaskState;

    closed spec fn view(&self) -> TaskState {
        TaskState { stage: self.stage, list: self.list@ }
    }
}

impl<'a> BorrowedTask<'a> {
    /// The borrow that the task holds.
    pub closed spec fn held(&self) -> &'a mut Vec<i32> {
        self.list
    }
}

/// Makes the task that will change the caller's list in place after a wait.
/// Nothing has happened to the list yet; when the borrow ends, the caller's
/// list is what the task then holds.
pub fn modify_list_async_lifetime<'a>(vec: &'a mut Vec<i32>) -> (task: BorrowedTask<'a>)
    ensures
        task@ == created(old(vec)@),
        *final(vec) == *final(task.held()),
{
    BorrowedTask { stage: Stage::Created, list: vec }
}

impl<'a> BorrowedTask<'a> {
    /// How far the task has come.
    pub fn stage(&self) -> (stage: Stage)
        ensures
            stage == self@.stage,
    {
        self.stage
    }

    /// Takes the task one step on `event` and says what the scheduler is to
    /// do next. The task goes on holding the borrow it was made with.
    pub fn step(&mut self, event: Wake) -> (asked: Directive)
        ensures
            final(self)@ == next(old(self)@, event),
            *final(final(self).held()) == *final(old(self).held()),
            asked == directive(old(self)@, event),
    {
        match (self.stage, event) {
            (Stage::Created, Wake::Poll) => {
                self.stage = Stage::Suspended;
                Directive::Sleep { seconds: DELAY_SECONDS }
            },
            (Stage::Suspended, Wake::TimerElapsed) => {
                Rule::Overwrite.rewrite(self.list);
                self.stage = Stage::Completed;
                Directive::Done
            },
            (Stage::Completed, _) => Directive::Done,
            _ => Directive::Pending,
        }
    }

    /// Ends the task and the borrow with it, and says whether the task had
    /// completed. The caller's list is then what the task held at that
    /// moment.
    pub fn finish(self) -> (completed: bool)
        ensures
            completed == (self@.stage == Stage::Completed),
            final(self.held())@ == self@.list,
    {
        match self.stage {
            Stage::Completed => true,
            _ => false,
        }
    }
}

} // verus!
