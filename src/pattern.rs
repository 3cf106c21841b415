//! Movement patterns: the rules that pick the cells a [`crate::PatternIter`] visits.
use vstd::prelude::*;
use crate::grid::Position;
use crate::step::Step;

verus! {

/// One movement instruction of a pattern.
#[derive(Copy, Clone, Debug, PartialEq, Eq, Structural)]
pub enum Action {
    /// Step from the position visited last.
    /// A step that leaves the grid ends the traversal.
    Step(Step),
    /// Step from the position the traversal started at, which stays the same.
    /// A step that leaves the grid is skipped.
    StepFromOrigin(Step),
    /// Jump to the position. A position outside the grid is skipped.
    Jump(Position),
}

impl Action {
    /// Whether a traversal skips this action, rather than ending, when it leads
    /// outside the grid.
    pub open spec fn is_skippable(self) -> bool {
        self is StepFromOrigin || self is Jump
    }
}

/// Whether `a` is an action that a traversal skips when it leads outside the grid.
pub open spec fn skippable(a: Option<Action>) -> bool {
    a is Some && a->Some_0.is_skippable()
}

/// How often a pattern is run.
#[derive(Copy, Clone, Debug, PartialEq, Eq, Structural)]
pub enum Repeat {
    /// Exactly one visited cell.
    Once,
    /// Until the actions run out or one leads outside the grid.
    TillEnd,
    /// At most the given number of visited cells.
    Times(usize),
}

impl Repeat {
    /// Whether a traversal that has visited `count` cells may visit another.
    pub open spec fn allows(self, count: nat) -> bool {
        match self {
            Repeat::Once => count == 0,
            Repeat::TillEnd => true,
            Repeat::Times(t) => count < t,
        }
    }
}

/// A stateful source of actions, consumed by one traversal.
///
/// Its state is described by `pending`: the actions still to come, in order.
/// Only finitely many of them may be skippable (origin steps or jumps), so that a
/// traversal that skips them always comes to an end.
pub trait Pattern: Sized {
    /// The `k`-th action still to come (0 is the next), or `None` past the last.
    spec fn pending(&self, k: nat) -> Option<Action>;

    /// A bound on the position of the skippable actions among `pending`.
    spec fn skip_bound(&self) -> nat;

    /// The repeat policy, fixed for the life of the pattern.
    spec fn repeat_policy(&self) -> Repeat;

    /// No skippable action stands at or after `skip_bound`, and the bound fits in `usize`.
    proof fn lemma_skip_bound(&self)
        ensures
            self.skip_bound() <= usize::MAX,
            forall|k: nat| k >= self.skip_bound() ==> !skippable(#[trigger] self.pending(k)),
    ;

    /// Returns the next action and consumes it, or `None` when there is none.
    fn next_action(&mut self) -> (r: Option<Action>)
        ensures
            r == old(self).pending(0),
            forall|k: nat| #[trigger] final(self).pending(k) == old(self).pending(k + 1),
            final(self).repeat_policy() == old(self).repeat_policy(),
            final(self).skip_bound() <= old(self).skip_bound(),
    ;

    /// Returns the next action without consuming it.
    fn next_action_peek(&self) -> (r: Option<Action>)
        ensures
            r == self.pending(0),
    ;

    /// Returns the `k`-th action still to come without consuming anything.
    fn action_at(&self, k: usize) -> (r: Option<Action>)
        ensures
            r == self.pending(k as nat),
    ;

    /// Returns the repeat policy.
    fn repeat(&self) -> (r: &Repeat)
        ensures
            *r == self.repeat_policy(),
    ;
}

/// Steps in one direction until it leaves the grid or the repeat policy is met.
#[derive(Copy, Clone, Debug, PartialEq, Eq, Structural)]
pub struct DirectionPattern {
    pub(crate) step: Step,
    pub(crate) repeat: Repeat,
}

impl DirectionPattern {
    pub fn new(step: Step, repeat: Repeat) -> (r: DirectionPattern)
        ensures
            forall|k: nat| #[trigger] r.pending(k) == Some(Action::Step(step)),
            r.repeat_policy() == repeat,
    {
        DirectionPattern { step, repeat }
    }
}

impl Pattern for DirectionPattern {
    closed spec fn pending(&self, k: nat) -> Option<Action> {
        Some(Action::Step(self.step))
    }

    open spec fn skip_bound(&self) -> nat {
        0
    }

    closed spec fn repeat_policy(&self) -> Repeat {
        self.repeat
    }

    proof fn lemma_skip_bound(&self) {
    }

    fn next_action(&mut self) -> (r: Option<Action>) {
        Some(Action::Step(self.step))
    }

    fn next_action_peek(&self) -> (r: Option<Action>) {
        Some(Action::Step(self.step))
    }

    fn action_at(&self, k: usize) -> (r: Option<Action>) {
        Some(Action::Step(self.step))
    }

    fn repeat(&self) -> (r: &Repeat) {
        &self.repeat
    }
}

/// Walks the given steps in order, each from the position reached last,
/// until one leads outside the grid or the steps run out.
pub struct StepsPattern {
    pub(crate) steps: Vec<Step>,
    pub(crate) idx: usize,
}

impl StepsPattern {
    pub fn new(steps: Vec<Step>) -> (r: StepsPattern)
        ensures
            forall|k: nat| #[trigger] r.pending(k) == if k < steps@.len() {
                Some(Action::Step(steps@[k as int]))
            } else {
                None
            },
            r.repeat_policy() == Repeat::TillEnd,
    {
        StepsPattern { steps, idx: 0 }
    }
}

impl Pattern for StepsPattern {
    closed spec fn pending(&self, k: nat) -> Option<Action> {
        if self.idx + k < self.steps@.len() {
            Some(Action::Step(self.steps@[self.idx + k]))
        } else {
            None
        }
    }

    closed spec fn skip_bound(&self) -> nat {
        0
    }

    open spec fn repeat_policy(&self) -> Repeat {
        Repeat::TillEnd
    }

    proof fn lemma_skip_bound(&self) {
    }

    fn next_action(&mut self) -> (r: Option<Action>) {
        if self.idx < self.steps.len() {
            let a = Action::Step(self.steps[self.idx]);
            self.idx = self.idx + 1;
            Some(a)
        } else {
            None
        }
    }

    fn next_action_peek(&self) -> (r: Option<Action>) {
        self.action_at(0)
    }

    fn action_at(&self, k: usize) -> (r: Option<Action>) {
        if k < self.steps.len() && self.idx < self.steps.len() - k {
            Some(Action::Step(self.steps[self.idx + k]))
        } else {
            None
        }
    }

    fn repeat(&self) -> (r: &Repeat) {
        &Repeat::TillEnd
    }
}

/// Steps from the starting position by each of the given offsets in turn;
/// offsets that lead outside the grid are skipped.
pub struct SideStepsPattern {
    pub(crate) steps: Vec<Step>,
    pub(crate) idx: usize,
}

impl SideStepsPattern {
    pub fn new(steps: Vec<Step>) -> (r: SideStepsPattern)
        ensures
            forall|k: nat| #[trigger] r.pending(k) == if k < steps@.len() {
                Some(Action::StepFromOrigin(steps@[k as int]))
            } else {
                None
            },
            r.repeat_policy() == Repeat::TillEnd,
    {
        SideStepsPattern { steps, idx: 0 }
    }
}

impl Pattern for SideStepsPattern {
    closed spec fn pending(&self, k: nat) -> Option<Action> {
        if self.idx + k < self.steps@.len() {
            Some(Action::StepFromOrigin(self.steps@[self.idx + k]))
        } else {
            None
        }
    }

    closed spec fn skip_bound(&self) -> nat {
        if self.idx <= self.steps.len() {
            (self.steps.len() - self.idx) as nat
        } else {
            0
        }
    }

    open spec fn repeat_policy(&self) -> Repeat {
        Repeat::TillEnd
    }

    proof fn lemma_skip_bound(&self) {
    }

    fn next_action(&mut self) -> (r: Option<Action>) {
        if self.idx < self.steps.len() {
            let a = Action::StepFromOrigin(self.steps[self.idx]);
            self.idx = self.idx + 1;
            Some(a)
        } else {
            None
        }
    }

    fn next_action_peek(&self) -> (r: Option<Action>) {
        self.action_at(0)
    }

    fn action_at(&self, k: usize) -> (r: Option<Action>) {
        if k < self.steps.len() && self.idx < self.steps.len() - k {
            Some(Action::StepFromOrigin(self.steps[self.idx + k]))
        } else {
            None
        }
    }

    fn repeat(&self) -> (r: &Repeat) {
        &Repeat::TillEnd
    }
}

/// Jumps to each of the given positions in turn; positions outside the grid are skipped.
pub struct JumpsPattern {
    jumps: Vec<Position>,
    idx: usize,
}

impl JumpsPattern {
    pub fn new(positions: Vec<Position>) -> (r: JumpsPattern)
        ensures
            forall|k: nat| #[trigger] r.pending(k) == if k < positions@.len() {
                Some(Action::Jump(positions@[k as int]))
            } else {
                None
            },
            r.repeat_policy() == Repeat::TillEnd,
    {
        JumpsPattern { jumps: positions, idx: 0 }
    }
}

impl Pattern for JumpsPattern {
    closed spec fn pending(&self, k: nat) -> Option<Action> {
        if self.idx + k < self.jumps@.len() {
            Some(Action::Jump(self.jumps@[self.idx + k]))
        } else {
            None
        }
    }

    closed spec fn skip_bound(&self) -> nat {
        if self.idx <= self.jumps.len() {
            (self.jumps.len() - self.idx) as nat
        } else {
            0
        }
    }

    open spec fn repeat_policy(&self) -> Repeat {
        Repeat::TillEnd
    }

    proof fn lemma_skip_bound(&self) {
    }

    fn next_action(&mut self) -> (r: Option<Action>) {
        if self.idx < self.jumps.len() {
            let a = Action::Jump(self.jumps[self.idx]);
            self.idx = self.idx + 1;
            Some(a)
        } else {
            None
        }
    }

    fn next_action_peek(&self) -> (r: Option<Action>) {
        self.action_at(0)
    }

    fn action_at(&self, k: usize) -> (r: Option<Action>) {
        if k < self.jumps.len() && self.idx < self.jumps.len() - k {
            Some(Action::Jump(self.jumps[self.idx + k]))
        } else {
            None
        }
    }

    fn repeat(&self) -> (r: &Repeat) {
        &Repeat::TillEnd
    }
}

} // verus!
