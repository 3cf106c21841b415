use vstd::prelude::*;
use crate::grid::{Grid, Position};
use crate::pattern::{Action, Pattern, Repeat, skippable};
use crate::step::Step;
use super::{Positions, PositionsEnumerator};

verus! {

/// Whether `p` is a position inside a `w` by `h` grid.
pub open spec fn lands(p: Option<Position>, w: nat, h: nat) -> bool {
    p is Some && p->Some_0.x < w && p->Some_0.y < h
}

/// Resolves the pending actions of `pattern` from the `j`-th on, over a `w` by `h` grid,
/// with `prev` the position visited last and `origin` the starting position: the
/// position visited next and the number of actions consumed up to it, or `None` when
/// the traversal ends there.
///
/// A step from `prev` that leads outside ends the traversal; an origin step or a jump
/// that leads outside is skipped in favour of the next action.
pub open spec fn resolve<P: Pattern>(
    pattern: P,
    prev: Position,
    origin: Position,
    w: nat,
    h: nat,
    j: nat,
) -> Option<(Position, nat)>
    decreases pattern.skip_bound() - j,
{
    match pattern.pending(j) {
        None => None,
        Some(Action::Step(s)) => if lands(s.apply(prev), w, h) {
            Some((s.apply(prev)->Some_0, j + 1))
        } else {
            None
        },
        Some(Action::StepFromOrigin(s)) => if lands(s.apply(origin), w, h) {
            Some((s.apply(origin)->Some_0, j + 1))
        } else if j < pattern.skip_bound() {
            resolve(pattern, prev, origin, w, h, j + 1)
        } else {
            None
        },
        Some(Action::Jump(p)) => if lands(Some(p), w, h) {
            Some((p, j + 1))
        } else if j < pattern.skip_bound() {
            resolve(pattern, prev, origin, w, h, j + 1)
        } else {
            None
        },
    }
}

/// Every position that `resolve` reaches lies in the grid.
pub proof fn lemma_resolve_lands<P: Pattern>(
    pattern: P,
    prev: Position,
    origin: Position,
    w: nat,
    h: nat,
    j: nat,
)
    ensures
        resolve(pattern, prev, origin, w, h, j) is Some ==> lands(
            Some(resolve(pattern, prev, origin, w, h, j)->Some_0.0),
            w,
            h,
        ),
    decreases pattern.skip_bound() - j,
{
    if j < pattern.skip_bound() {
        lemma_resolve_lands(pattern, prev, origin, w, h, j + 1);
    }
}

/// Lockstep of the pattern overlay: the position that the recovery rule reports is the
/// cell the traversal visits next, and looking it up in the grid gives the element that
/// the traversal yields.
pub proof fn lemma_pattern_overlay_lockstep<'a, T, P: Pattern>(it: PatternIter<'a, T, P>)
    requires
        it.wf(),
    ensures
        it.upcoming() is Some <==> it.next_visit() is Some,
        it.upcoming() is Some ==> it.upcoming()->Some_0 == it.next_visit()->Some_0.0,
        it.upcoming() is Some ==> it.grid_view().lookup(it.upcoming()->Some_0) == Some(
            it.grid_view().at(it.next_visit()->Some_0.0),
        ),
{
    lemma_resolve_lands(
        it.pattern_view(),
        it.prev(),
        it.origin(),
        it.grid_view().width(),
        it.grid_view().height(),
        0,
    );
}

/// The cells inside a `w` by `h` grid that the origin steps `steps` reach from `origin`,
/// in the order of `steps`.
pub open spec fn side_step_targets(steps: Seq<Step>, origin: Position, w: nat, h: nat) -> Seq<
    Position,
>
    decreases steps.len(),
{
    if steps.len() == 0 {
        Seq::empty()
    } else {
        let rest = side_step_targets(steps.drop_first(), origin, w, h);
        if lands(steps[0].apply(origin), w, h) {
            seq![steps[0].apply(origin)->Some_0] + rest
        } else {
            rest
        }
    }
}

/// The positions among `jumps` that lie inside a `w` by `h` grid, in the order of `jumps`.
pub open spec fn jump_targets(jumps: Seq<Position>, w: nat, h: nat) -> Seq<Position>
    decreases jumps.len(),
{
    if jumps.len() == 0 {
        Seq::empty()
    } else {
        let rest = jump_targets(jumps.drop_first(), w, h);
        if lands(Some(jumps[0]), w, h) {
            seq![jumps[0]] + rest
        } else {
            rest
        }
    }
}

/// Resolving origin steps from the `j`-th on reaches the first of the cells that
/// `steps[j..]` reach inside the grid, and consumes the steps up to it.
pub proof fn lemma_resolve_side_steps<P: Pattern>(
    pattern: P,
    steps: Seq<Step>,
    prev: Position,
    origin: Position,
    w: nat,
    h: nat,
    j: nat,
)
    requires
        j <= steps.len(),
        forall|k: nat| #[trigger]
            pattern.pending(k) == if k < steps.len() {
                Some(Action::StepFromOrigin(steps[k as int]))
            } else {
                None
            },
    ensures
        resolve(pattern, prev, origin, w, h, j) is None <==> side_step_targets(
            steps.skip(j as int),
            origin,
            w,
            h,
        ).len() == 0,
        resolve(pattern, prev, origin, w, h, j) is Some ==> {
            let (p, n) = resolve(pattern, prev, origin, w, h, j)->Some_0;
            &&& j < n <= steps.len()
            &&& side_step_targets(steps.skip(j as int), origin, w, h) == seq![p]
                + side_step_targets(steps.skip(n as int), origin, w, h)
        },
    decreases steps.len() - j,
{
    pattern.lemma_skip_bound();
    let tail = steps.skip(j as int);
    if j == steps.len() {
        assert(tail =~= Seq::<Step>::empty());
        assert(pattern.pending(j) is None);
    } else {
        assert(tail.drop_first() =~= steps.skip(j + 1 as int));
        assert(tail[0] == steps[j as int]);
        assert(pattern.pending(j) == Some(Action::StepFromOrigin(steps[j as int])));
        if !lands(steps[j as int].apply(origin), w, h) {
            assert(skippable(pattern.pending(j)));
            lemma_resolve_side_steps(pattern, steps, prev, origin, w, h, j + 1);
        }
    }
}

/// Resolving jumps from the `j`-th on reaches the first of `jumps[j..]` inside the grid,
/// and consumes the jumps up to it.
pub proof fn lemma_resolve_jumps<P: Pattern>(
    pattern: P,
    jumps: Seq<Position>,
    prev: Position,
    origin: Position,
    w: nat,
    h: nat,
    j: nat,
)
    requires
        j <= jumps.len(),
        forall|k: nat| #[trigger]
            pattern.pending(k) == if k < jumps.len() {
                Some(Action::Jump(jumps[k as int]))
            } else {
                None
            },
    ensures
        resolve(pattern, prev, origin, w, h, j) is None <==> jump_targets(
            jumps.skip(j as int),
            w,
            h,
        ).len() == 0,
        resolve(pattern, prev, origin, w, h, j) is Some ==> {
            let (p, n) = resolve(pattern, prev, origin, w, h, j)->Some_0;
            &&& j < n <= jumps.len()
            &&& jump_targets(jumps.skip(j as int), w, h) == seq![p] + jump_targets(
                jumps.skip(n as int),
                w,
                h,
            )
        },
    decreases jumps.len() - j,
{
    pattern.lemma_skip_bound();
    let tail = jumps.skip(j as int);
    if j == jumps.len() {
        assert(tail =~= Seq::<Position>::empty());
        assert(pattern.pending(j) is None);
    } else {
        assert(tail.drop_first() =~= jumps.skip(j + 1 as int));
        assert(tail[0] == jumps[j as int]);
        assert(pattern.pending(j) == Some(Action::Jump(jumps[j as int])));
        if !lands(Some(jumps[j as int]), w, h) {
            assert(skippable(pattern.pending(j)));
            lemma_resolve_jumps(pattern, jumps, prev, origin, w, h, j + 1);
        }
    }
}

/// A side-step traversal visits exactly the cells that its remaining offsets reach from
/// the starting position inside the grid, in their order: an offset that leads outside
/// is skipped and never ends the traversal. The next call of `next` yields the first of
/// those cells, and the pattern is left with the offsets after the one that reached it,
/// whose cells are the rest.
pub proof fn lemma_side_steps_traversal<'a, T, P: Pattern>(
    it: PatternIter<'a, T, P>,
    steps: Seq<Step>,
)
    requires
        it.wf(),
        !it.finished(),
        it.pattern_view().repeat_policy() == Repeat::TillEnd,
        forall|k: nat| #[trigger]
            it.pattern_view().pending(k) == if k < steps.len() {
                Some(Action::StepFromOrigin(steps[k as int]))
            } else {
                None
            },
    ensures
        it.next_visit() is None <==> side_step_targets(
            steps,
            it.origin(),
            it.grid_view().width(),
            it.grid_view().height(),
        ).len() == 0,
        it.next_visit() is Some ==> {
            let (p, n) = it.next_visit()->Some_0;
            let targets = side_step_targets(
                steps,
                it.origin(),
                it.grid_view().width(),
                it.grid_view().height(),
            );
            &&& 0 < n <= steps.len()
            &&& p == targets[0]
            &&& targets.drop_first() == side_step_targets(
                steps.skip(n as int),
                it.origin(),
                it.grid_view().width(),
                it.grid_view().height(),
            )
        },
{
    assert(steps.skip(0) =~= steps);
    lemma_resolve_side_steps(
        it.pattern_view(),
        steps,
        it.prev(),
        it.origin(),
        it.grid_view().width(),
        it.grid_view().height(),
        0,
    );
    if it.next_visit() is Some {
        let (p, n) = it.next_visit()->Some_0;
        let rest = side_step_targets(
            steps.skip(n as int),
            it.origin(),
            it.grid_view().width(),
            it.grid_view().height(),
        );
        assert((seq![p] + rest).drop_first() =~= rest);
    }
}

/// A jump traversal visits exactly the positions of its remaining jumps that lie inside
/// the grid, in their order, whatever the starting position: a jump outside is skipped
/// and never ends the traversal. The next call of `next` yields the first of those
/// positions, and the pattern is left with the jumps after it, whose in-grid positions
/// are the rest.
pub proof fn lemma_jumps_traversal<'a, T, P: Pattern>(
    it: PatternIter<'a, T, P>,
    jumps: Seq<Position>,
)
    requires
        it.wf(),
        !it.finished(),
        it.pattern_view().repeat_policy() == Repeat::TillEnd,
        forall|k: nat| #[trigger]
            it.pattern_view().pending(k) == if k < jumps.len() {
                Some(Action::Jump(jumps[k as int]))
            } else {
                None
            },
    ensures
        it.next_visit() is None <==> jump_targets(
            jumps,
            it.grid_view().width(),
            it.grid_view().height(),
        ).len() == 0,
        it.next_visit() is Some ==> {
            let (p, n) = it.next_visit()->Some_0;
            let targets = jump_targets(jumps, it.grid_view().width(), it.grid_view().height());
            &&& 0 < n <= jumps.len()
            &&& p == targets[0]
            &&& targets.drop_first() == jump_targets(
                jumps.skip(n as int),
                it.grid_view().width(),
                it.grid_view().height(),
            )
        },
{
    assert(jumps.skip(0) =~= jumps);
    lemma_resolve_jumps(
        it.pattern_view(),
        jumps,
        it.prev(),
        it.origin(),
        it.grid_view().width(),
        it.grid_view().height(),
        0,
    );
    if it.next_visit() is Some {
        let (p, n) = it.next_visit()->Some_0;
        let rest = jump_targets(jumps.skip(n as int), it.grid_view().width(), it.grid_view().height());
        assert((seq![p] + rest).drop_first() =~= rest);
    }
}

/// The position that action `a` leads to, when it lies in a `width` by `height` grid.
fn target(a: Action, prev: Position, origin: Position, width: usize, height: usize) -> (r:
    Option<Position>)
    ensures
        r is Some <==> match a {
            Action::Step(s) => lands(s.apply(prev), width as nat, height as nat),
            Action::StepFromOrigin(s) => lands(s.apply(origin), width as nat, height as nat),
            Action::Jump(p) => lands(Some(p), width as nat, height as nat),
        },
        r is Some ==> r->Some_0.x < width && r->Some_0.y < height,
        r is Some ==> r->Some_0 == match a {
            Action::Step(s) => s.apply(prev)->Some_0,
            Action::StepFromOrigin(s) => s.apply(origin)->Some_0,
            Action::Jump(p) => p,
        },
{
    let p = match a {
        Action::Step(step) => step.take_step_from_position(prev),
        Action::StepFromOrigin(step) => step.take_step_from_position(origin),
        Action::Jump(p) => Some(p),
    };
    match p {
        Some(q) => if q.x < width && q.y < height {
            Some(q)
        } else {
            None
        },
        None => None,
    }
}

/// Consumes the pattern's actions up to and including the one that leads to the next
/// visited position, and returns that position; `None` when the traversal ends.
fn advance<P: Pattern>(
    pattern: &mut P,
    prev: Position,
    origin: Position,
    width: usize,
    height: usize,
) -> (r: Option<Position>)
    ensures
        r == match resolve(*old(pattern), prev, origin, width as nat, height as nat, 0) {
            Some(v) => Some(v.0),
            None => None::<Position>,
        },
        final(pattern).repeat_policy() == old(pattern).repeat_policy(),
        r is Some ==> r->Some_0.x < width && r->Some_0.y < height,
        r is Some ==> forall|k: nat| #[trigger]
            final(pattern).pending(k) == old(pattern).pending(
                k + resolve(*old(pattern), prev, origin, width as nat, height as nat, 0)->Some_0.1,
            ),
{
    let ghost init = *pattern;
    let ghost mut j: nat = 0;
    proof {
        init.lemma_skip_bound();
    }
    loop
        invariant
            resolve(init, prev, origin, width as nat, height as nat, 0) == resolve(
                init,
                prev,
                origin,
                width as nat,
                height as nat,
                j,
            ),
            j <= init.skip_bound(),
            init == *old(pattern),
            pattern.repeat_policy() == init.repeat_policy(),
            forall|k: nat| #[trigger] pattern.pending(k) == init.pending(k + j),
            forall|k: nat| k >= init.skip_bound() ==> !skippable(#[trigger] init.pending(k)),
        decreases init.skip_bound() - j,
    {
        let ghost before = *pattern;
        let action = pattern.next_action();
        proof {
            assert(before.pending(0) == init.pending(0 + j));
            assert forall|k: nat| #[trigger] pattern.pending(k) == init.pending(k + j + 1) by {
                assert(before.pending(k + 1) == init.pending(k + 1 + j));
            }
        }
        match action {
            None => {
                return None;
            },
            Some(a) => {
                match target(a, prev, origin, width, height) {
                    Some(p) => {
                        return Some(p);
                    },
                    None => {
                        if let Action::Step(_) = a {
                            return None;
                        }
                        proof {
                            assert(skippable(init.pending(j)));
                            j = j + 1;
                        }
                    },
                }
            },
        }
    }
}

/// The position that `advance` would return, found by peeking at the pending actions
/// instead of consuming them.
fn peek<P: Pattern>(pattern: &P, prev: Position, origin: Position, width: usize, height: usize) -> (r:
    Option<Position>)
    ensures
        r == match resolve(*pattern, prev, origin, width as nat, height as nat, 0) {
            Some(v) => Some(v.0),
            None => None::<Position>,
        },
{
    let mut k: usize = 0;
    proof {
        pattern.lemma_skip_bound();
    }
    loop
        invariant
            k <= pattern.skip_bound(),
            pattern.skip_bound() <= usize::MAX,
            forall|i: nat| i >= pattern.skip_bound() ==> !skippable(#[trigger] pattern.pending(i)),
            resolve(*pattern, prev, origin, width as nat, height as nat, 0) == resolve(
                *pattern,
                prev,
                origin,
                width as nat,
                height as nat,
                k as nat,
            ),
        decreases pattern.skip_bound() - k,
    {
        match pattern.action_at(k) {
            None => {
                return None;
            },
            Some(a) => {
                match target(a, prev, origin, width, height) {
                    Some(p) => {
                        return Some(p);
                    },
                    None => {
                        if let Action::Step(_) = a {
                            return None;
                        }
                        assert(skippable(pattern.pending(k as nat)));
                        k = k + 1;
                    },
                }
            },
        }
    }
}

/// Yields the elements of the cells that a pattern visits from a starting position.
///
/// Each call checks the repeat policy, then resolves the pattern's next actions as
/// `resolve` describes. Once the traversal has ended it stays ended.
pub struct PatternIter<'a, T, P: Pattern> {
    pub(crate) grid: &'a Grid<T>,
    pub(crate) prev_position: Position,
    pub(crate) pattern: P,
    pub(crate) repeat_count: usize,
    pub(crate) origin_position: Position,
    pub(crate) finished: bool,
}

impl<'a, T, P: Pattern> PatternIter<'a, T, P> {
    pub(crate) fn new(grid: &'a Grid<T>, pos: Position, pattern: P) -> (r: PatternIter<'a, T, P>)
        requires
            grid.wf(),
        ensures
            r.wf(),
            r.grid_view() == *grid,
            r.prev() == pos,
            r.origin() == pos,
            r.pattern_view() == pattern,
            r.count() == 0,
            !r.finished(),
    {
        PatternIter {
            grid,
            prev_position: pos,
            pattern,
            repeat_count: 0,
            origin_position: pos,
            finished: false,
        }
    }

    /// The grid walked, as it stands now.
    pub closed spec fn grid_view(&self) -> Grid<T> {
        *self.grid
    }

    /// The position visited last (the starting position before the first).
    pub closed spec fn prev(&self) -> Position {
        self.prev_position
    }

    /// The starting position, from which origin steps are taken.
    pub closed spec fn origin(&self) -> Position {
        self.origin_position
    }

    /// The pattern, with the actions it has left.
    pub closed spec fn pattern_view(&self) -> P {
        self.pattern
    }

    /// How many cells have been visited.
    pub closed spec fn count(&self) -> nat {
        self.repeat_count as nat
    }

    /// Whether the traversal has ended.
    pub closed spec fn finished(&self) -> bool {
        self.finished
    }

    pub open spec fn wf(&self) -> bool {
        self.grid_view().wf()
    }

    /// The outcome of the next call of `next`: the position visited and the number of
    /// actions consumed, or `None` when the traversal ends there.
    pub open spec fn next_visit(&self) -> Option<(Position, nat)> {
        if self.finished() || !self.pattern_view().repeat_policy().allows(self.count()) {
            None
        } else {
            resolve(
                self.pattern_view(),
                self.prev(),
                self.origin(),
                self.grid_view().width(),
                self.grid_view().height(),
                0,
            )
        }
    }

    /// `Some(())` while the repeat policy allows another visited cell.
    fn repeation_done(&self) -> (r: Option<()>)
        ensures
            r is Some <==> self.pattern_view().repeat_policy().allows(self.count()),
    {
        match self.pattern.repeat() {
            Repeat::Once => if self.repeat_count != 0 {
                None
            } else {
                Some(())
            },
            Repeat::Times(t) => if self.repeat_count >= *t {
                None
            } else {
                Some(())
            },
            Repeat::TillEnd => Some(()),
        }
    }

    /// Visits the next cell of the pattern and returns its element, or `None` when the
    /// traversal has ended.
    pub fn next(&mut self) -> (r: Option<&'a T>)
        requires
            old(self).wf(),
        ensures
            final(self).wf(),
            final(self).grid_view() == old(self).grid_view(),
            final(self).origin() == old(self).origin(),
            final(self).pattern_view().repeat_policy() == old(self).pattern_view().repeat_policy(),
            r is Some <==> old(self).next_visit() is Some,
            r is Some ==> *r->Some_0 == old(self).grid_view().at(old(self).next_visit()->Some_0.0),
            r is Some ==> old(self).grid_view().in_bounds(old(self).next_visit()->Some_0.0),
            r is Some ==> final(self).prev() == old(self).next_visit()->Some_0.0,
            r is Some ==> !final(self).finished(),
            r is Some && old(self).count() < usize::MAX ==> final(self).count() == old(self).count()
                + 1,
            r is Some ==> forall|k: nat| #[trigger]
                final(self).pattern_view().pending(k) == old(self).pattern_view().pending(
                    k + old(self).next_visit()->Some_0.1,
                ),
            r is None ==> final(self).finished(),
    {
        if self.finished {
            return None;
        }
        if self.repeation_done().is_none() {
            self.finished = true;
            return None;
        }
        proof {
            self.grid.lemma_fields();
        }
        let width = self.grid.width;
        let height = self.grid.height;
        match advance(&mut self.pattern, self.prev_position, self.origin_position, width, height) {
            Some(p) => {
                if self.repeat_count < usize::MAX {
                    self.repeat_count = self.repeat_count + 1;
                }
                self.prev_position = p;
                Some(self.grid.get_unchecked(p))
            },
            None => {
                self.finished = true;
                None
            },
        }
    }
}

impl<'a, T, P: Pattern> PositionsEnumerator for PatternIter<'a, T, P> {
    open spec fn upcoming(&self) -> Option<Position> {
        match self.next_visit() {
            Some(v) => Some(v.0),
            None => None,
        }
    }

    open spec fn agrees(&self, prev: Option<Position>) -> bool {
        self.wf()
    }

    /// Replays the resolution of `next` on the pending actions, peeking instead of
    /// consuming, from the position visited last.
    fn next_position(&self, prev: Option<Position>) -> (r: Position) {
        proof {
            self.grid.lemma_fields();
        }
        match peek(
            &self.pattern,
            self.prev_position,
            self.origin_position,
            self.grid.width,
            self.grid.height,
        ) {
            Some(p) => p,
            // `next` yields nothing here, so no position goes out with this one.
            None => Position::new(0, 0),
        }
    }
}

impl<'a, T, P: Pattern> Positions<PatternIter<'a, T, P>> {
    /// Visits the next cell of the pattern and returns its element together with its position.
    pub fn next(&mut self) -> (r: Option<(Position, &'a T)>)
        requires
            old(self).inv(),
        ensures
            final(self).inv(),
            final(self).inner().grid_view() == old(self).inner().grid_view(),
            r is Some ==> final(self).prev() == Some(r->Some_0.0),
            final(self).inner().origin() == old(self).inner().origin(),
            final(self).inner().pattern_view().repeat_policy() == old(
                self,
            ).inner().pattern_view().repeat_policy(),
            r is Some ==> final(self).inner().prev() == r->Some_0.0,
            r is Some ==> !final(self).inner().finished(),
            r is Some && old(self).inner().count() < usize::MAX ==> final(self).inner().count()
                == old(self).inner().count() + 1,
            r is Some ==> forall|k: nat| #[trigger]
                final(self).inner().pattern_view().pending(k) == old(
                    self,
                ).inner().pattern_view().pending(k + old(self).inner().next_visit()->Some_0.1),
            r is None ==> final(self).inner().finished(),
            r is Some <==> old(self).inner().upcoming() is Some,
            r is Some ==> r->Some_0.0 == old(self).inner().upcoming()->Some_0,
            r is Some ==> old(self).inner().grid_view().lookup(r->Some_0.0) == Some(*r->Some_0.1),
    {
        let pos = self.inner.next_position(self.prev_position);
        match self.inner.next() {
            Some(v) => {
                self.prev_position = Some(pos);
                Some((pos, v))
            },
            None => None,
        }
    }
}

/// Yields mutable references to the elements of the cells that a pattern visits from a starting position.
///
/// Each call checks the repeat policy, then resolves the pattern's next actions as
/// `resolve` describes. Once the traversal has ended it stays ended.
pub struct PatternIterMut<'a, T, P: Pattern> {
    pub(crate) grid: &'a mut Grid<T>,
    pub(crate) prev_position: Position,
    pub(crate) pattern: P,
    pub(crate) repeat_count: usize,
    pub(crate) origin_position: Position,
    pub(crate) finished: bool,
}

impl<'a, T, P: Pattern> PatternIterMut<'a, T, P> {
    pub(crate) fn new(grid: &'a mut Grid<T>, pos: Position, pattern: P) -> (r: PatternIterMut<'a, T, P>)
        requires
            old(grid).wf(),
        ensures
            r.wf(),
            r.grid_view() == *old(grid),
            r.prev() == pos,
            r.origin() == pos,
            r.pattern_view() == pattern,
            r.count() == 0,
            !r.finished(),
    {
        PatternIterMut {
            grid,
            prev_position: pos,
            pattern,
            repeat_count: 0,
            origin_position: pos,
            finished: false,
        }
    }

    /// The grid walked, as it stands now.
    pub closed spec fn grid_view(&self) -> Grid<T> {
        *self.grid
    }

    /// The position visited last (the starting position before the first).
    pub closed spec fn prev(&self) -> Position {
        self.prev_position
    }

    /// The starting position, from which origin steps are taken.
    pub closed spec fn origin(&self) -> Position {
        self.origin_position
    }

    /// The pattern, with the actions it has left.
    pub closed spec fn pattern_view(&self) -> P {
        self.pattern
    }

    /// How many cells have been visited.
    pub closed spec fn count(&self) -> nat {
        self.repeat_count as nat
    }

    /// Whether the traversal has ended.
    pub closed spec fn finished(&self) -> bool {
        self.finished
    }

    pub open spec fn wf(&self) -> bool {
        self.grid_view().wf()
    }

    /// The outcome of the next call of `next`: the position visited and the number of
    /// actions consumed, or `None` when the traversal ends there.
    pub open spec fn next_visit(&self) -> Option<(Position, nat)> {
        if self.finished() || !self.pattern_view().repeat_policy().allows(self.count()) {
            None
        } else {
            resolve(
                self.pattern_view(),
                self.prev(),
                self.origin(),
                self.grid_view().width(),
                self.grid_view().height(),
                0,
            )
        }
    }

    /// `Some(())` while the repeat policy allows another visited cell.
    fn repeation_done(&self) -> (r: Option<()>)
        ensures
            r is Some <==> self.pattern_view().repeat_policy().allows(self.count()),
    {
        match self.pattern.repeat() {
            Repeat::Once => if self.repeat_count != 0 {
                None
            } else {
                Some(())
            },
            Repeat::Times(t) => if self.repeat_count >= *t {
                None
            } else {
                Some(())
            },
            Repeat::TillEnd => Some(()),
        }
    }

    /// Visits the next cell of the pattern and returns its element, or `None` when the
    /// traversal has ended.
    /// A value written through the reference lands in the grid.
    pub fn next(&mut self) -> (r: Option<&mut T>)
        requires
            old(self).wf(),
        ensures
            final(self).wf(),
            final(self).grid_view().same_shape(&old(self).grid_view()),
            final(self).origin() == old(self).origin(),
            final(self).pattern_view().repeat_policy() == old(self).pattern_view().repeat_policy(),
            r is Some <==> old(self).next_visit() is Some,
            r is Some ==> *r->Some_0 == old(self).grid_view().at(old(self).next_visit()->Some_0.0),
            r is Some ==> old(self).grid_view().in_bounds(old(self).next_visit()->Some_0.0),
            r is Some ==> final(self).grid_view().cells() == old(self).grid_view().cells().update(
                old(self).grid_view().index_of(old(self).next_visit()->Some_0.0),
                *final(r->Some_0),
            ),
            r is Some ==> final(self).prev() == old(self).next_visit()->Some_0.0,
            r is Some ==> !final(self).finished(),
            r is Some && old(self).count() < usize::MAX ==> final(self).count() == old(self).count()
                + 1,
            r is Some ==> forall|k: nat| #[trigger]
                final(self).pattern_view().pending(k) == old(self).pattern_view().pending(
                    k + old(self).next_visit()->Some_0.1,
                ),
            r is None ==> final(self).finished(),
    {
        if self.finished {
            return None;
        }
        if self.repeation_done().is_none() {
            self.finished = true;
            return None;
        }
        proof {
            self.grid.lemma_fields();
        }
        let width = self.grid.width;
        let height = self.grid.height;
        match advance(&mut self.pattern, self.prev_position, self.origin_position, width, height) {
            Some(p) => {
                if self.repeat_count < usize::MAX {
                    self.repeat_count = self.repeat_count + 1;
                }
                self.prev_position = p;
                proof {
                    self.grid.lemma_index(p);
                }
                Some(self.grid.get_mut_unchecked(p))
            },
            None => {
                self.finished = true;
                None
            },
        }
    }
}

impl<'a, T, P: Pattern> PositionsEnumerator for PatternIterMut<'a, T, P> {
    open spec fn upcoming(&self) -> Option<Position> {
        match self.next_visit() {
            Some(v) => Some(v.0),
            None => None,
        }
    }

    open spec fn agrees(&self, prev: Option<Position>) -> bool {
        self.wf()
    }

    /// Replays the resolution of `next` on the pending actions, peeking instead of
    /// consuming, from the position visited last.
    fn next_position(&self, prev: Option<Position>) -> (r: Position) {
        proof {
            self.grid.lemma_fields();
        }
        match peek(
            &self.pattern,
            self.prev_position,
            self.origin_position,
            self.grid.width,
            self.grid.height,
        ) {
            Some(p) => p,
            // `next` yields nothing here, so no position goes out with this one.
            None => Position::new(0, 0),
        }
    }
}

impl<'a, T, P: Pattern> Positions<PatternIterMut<'a, T, P>> {
    /// Visits the next cell of the pattern and returns its element together with its position.
    pub fn next(&mut self) -> (r: Option<(Position, &mut T)>)
        requires
            old(self).inv(),
        ensures
            final(self).inv(),
            final(self).inner().grid_view().same_shape(&old(self).inner().grid_view()),
            r is Some ==> final(self).inner().grid_view().cells() == old(
                self,
            ).inner().grid_view().cells().update(
                old(self).inner().grid_view().index_of(r->Some_0.0),
                *final(r->Some_0.1),
            ),
            r is Some ==> final(self).prev() == Some(r->Some_0.0),
            final(self).inner().origin() == old(self).inner().origin(),
            final(self).inner().pattern_view().repeat_policy() == old(
                self,
            ).inner().pattern_view().repeat_policy(),
            r is Some ==> final(self).inner().prev() == r->Some_0.0,
            r is Some ==> !final(self).inner().finished(),
            r is Some && old(self).inner().count() < usize::MAX ==> final(self).inner().count()
                == old(self).inner().count() + 1,
            r is Some ==> forall|k: nat| #[trigger]
                final(self).inner().pattern_view().pending(k) == old(
                    self,
                ).inner().pattern_view().pending(k + old(self).inner().next_visit()->Some_0.1),
            r is None ==> final(self).inner().finished(),
            r is Some <==> old(self).inner().upcoming() is Some,
            r is Some ==> r->Some_0.0 == old(self).inner().upcoming()->Some_0,
            r is Some ==> old(self).inner().grid_view().lookup(r->Some_0.0) == Some(*r->Some_0.1),
    {
        let pos = self.inner.next_position(self.prev_position);
        match self.inner.next() {
            Some(v) => {
                self.prev_position = Some(pos);
                Some((pos, v))
            },
            None => None,
        }
    }
}

} // verus!
