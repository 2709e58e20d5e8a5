//! The gravitational integrator.
//!
//! A run takes the steps of its plan one after the other. A step has two
//! phases. First the acceleration of every body is summed from the state as
//! the step found it: the pull of each other body is added in the bodies'
//! order, and a pair that is too close adds nothing. Only when every
//! acceleration is there does the second phase move each body by its own.
//! Both phases are spread over the worker threads of `rayon`.
//!
//! The arithmetic itself (the pull of one body on another, the test for
//! too close, the new velocity and position) is floating point and is handed
//! in by the caller as [`Physics`]. What is proved here is the structure:
//! which state each of these functions is given, in which order and how
//! often, and that the bodies keep their names and their places.

use crate::instant::Instant;
use crate::plan::{epoch_view, plan_to, StepPlan};
use rayon::iter::{IndexedParallelIterator, IntoParallelIterator, ParallelIterator};
use vstd::prelude::*;

verus! {

/// Distance in metres under which a pair of bodies exerts no force on each
/// other.
pub const SINGULARITY_DISTANCE_METERS: u64 = 1000;

/// One celestial body: the name that identifies it, and the quantities that
/// the physics works on (mass, radius, position, velocity).
#[derive(Clone, Debug, PartialEq)]
pub struct Body<Q> {
    pub name: String,
    pub quantities: Q,
}

/// A state of the simulation: the bodies in their fixed order, and the
/// instant that all of them belong to, if any.
#[derive(Clone, Debug, PartialEq)]
pub struct Snapshot<B> {
    pub bodies: Vec<B>,
    pub timestamp: Option<Instant>,
}

/// The arithmetic of a step over the quantities `Q` of a body and
/// accelerations `A`.
pub struct Physics<A, C, P, M> {
    /// The acceleration of a body that nothing pulls on.
    pub rest: A,
    /// Whether two bodies are too close for their pull to count.
    pub too_close: C,
    /// The acceleration of the first body with the pull of the second added.
    pub attract: P,
    /// The quantities of a body after one step under its acceleration: its
    /// velocity first, then its position from the new velocity.
    pub advance: M,
}

/// Calls `rayon`'s `into_par_iter` on the range of indices below `count`,
/// `map` with `each`, and `collect`. Trusted: collecting an indexed parallel
/// iterator into a vector keeps the order of the indices, so the result
/// holds at each index what `each` returned for it.
#[verifier::external_body]
fn parallel_map<A: Send, F: Fn(usize) -> A + Sync + Send>(count: usize, each: F) -> (r: Vec<A>)
    requires
        forall|index: usize| index < count ==> each.requires((index,)),
    ensures
        r@.len() == count,
        forall|index: int|
            0 <= index < count ==> each.ensures((index as usize,), #[trigger] r@[index]),
{
    (0..count).into_par_iter().map(each).collect()
}

/// Calls `rayon`'s `into_par_iter` on both vectors, `zip`, `map` with `each`,
/// and `collect`. Trusted: zipping and collecting indexed parallel iterators
/// keeps the order, so the result holds at each index what `each` returned
/// for the two items at that index.
#[verifier::external_body]
fn parallel_zip_map<T: Send, A: Send, F: Fn(T, A) -> T + Sync + Send>(
    items: Vec<T>,
    with: Vec<A>,
    each: F,
) -> (r: Vec<T>)
    requires
        items@.len() == with@.len(),
        forall|index: int|
            0 <= index < items@.len() ==> each.requires((items@[index], with@[index])),
    ensures
        r@.len() == items@.len(),
        forall|index: int|
            0 <= index < items@.len() ==> each.ensures(
                (items@[index], with@[index]),
                #[trigger] r@[index],
            ),
{
    items.into_par_iter().zip(with.into_par_iter()).map(|pair| each(pair.0, pair.1)).collect()
}

impl<A, C, P, M> Physics<A, C, P, M> {
    /// Whether the functions of the physics can be called on every input.
    pub open spec fn total<Q>(self) -> bool where
        C: Fn(&Q, &Q) -> bool,
        P: Fn(A, &Q, &Q) -> A,
        M: Fn(Q, A, StepPlan) -> Q,
     {
        &&& forall|own: Q, other: Q| #[trigger] self.too_close.requires((&own, &other))
        &&& forall|acc: A, own: Q, other: Q| #[trigger] self.attract.requires((acc, &own, &other))
        &&& forall|own: Q, acc: A, plan: StepPlan| #[trigger]
            self.advance.requires((own, acc, plan))
    }

    /// Whether each function of the physics returns one result for one
    /// input, as the arithmetic of a step does.
    pub open spec fn single_valued<Q>(self) -> bool where
        C: Fn(&Q, &Q) -> bool,
        P: Fn(A, &Q, &Q) -> A,
        M: Fn(Q, A, StepPlan) -> Q,
     {
        &&& forall|own: Q, other: Q, first: bool, second: bool|
            #![trigger
                self.too_close.ensures((&own, &other), first),
                self.too_close.ensures((&own, &other), second),
            ]
            self.too_close.ensures((&own, &other), first) && self.too_close.ensures(
                (&own, &other),
                second,
            ) ==> first == second
        &&& forall|acc: A, own: Q, other: Q, first: A, second: A|
            #![trigger
                self.attract.ensures((acc, &own, &other), first),
                self.attract.ensures((acc, &own, &other), second),
            ]
            self.attract.ensures((acc, &own, &other), first) && self.attract.ensures(
                (acc, &own, &other),
                second,
            ) ==> first == second
        &&& forall|own: Q, acc: A, plan: StepPlan, first: Q, second: Q|
            #![trigger
                self.advance.ensures((own, acc, plan), first),
                self.advance.ensures((own, acc, plan), second),
            ]
            self.advance.ensures((own, acc, plan), first) && self.advance.ensures(
                (own, acc, plan),
                second,
            ) ==> first == second
    }

    /// Whether `after` can be the acceleration `before` of the body at
    /// `index` once the body at `other` has had its turn: a body does not
    /// pull on itself, a body that is too close adds nothing, and any other
    /// adds its pull.
    pub open spec fn pull_added<Q>(
        self,
        state: Seq<Body<Q>>,
        index: int,
        other: int,
        before: A,
        after: A,
    ) -> bool where C: Fn(&Q, &Q) -> bool, P: Fn(A, &Q, &Q) -> A {
        if other == index {
            after == before
        } else {
            exists|close: bool|
                {
                    &&& #[trigger] self.too_close.ensures(
                        (&state[index].quantities, &state[other].quantities),
                        close,
                    )
                    &&& if close {
                        after == before
                    } else {
                        self.attract.ensures(
                            (before, &state[index].quantities, &state[other].quantities),
                            after,
                        )
                    }
                }
        }
    }

    /// Whether `acc` can be the acceleration of the body at `index` once
    /// the bodies of `state` up to the one at `last` have had their turn, in
    /// order; before the first turn it is the acceleration at rest.
    pub open spec fn pulled<Q>(self, state: Seq<Body<Q>>, index: int, last: int, acc: A)
        -> bool where C: Fn(&Q, &Q) -> bool, P: Fn(A, &Q, &Q) -> A
        decreases last + 1,
    {
        if last < 0 {
            acc == self.rest
        } else {
            exists|before: A|
                self.pulled(state, index, last - 1, before) && #[trigger] self.pull_added(
                    state,
                    index,
                    last,
                    before,
                    acc,
                )
        }
    }

    /// Whether `moved` can be the body at `index` after one step from
    /// `state`: the same name, and the quantities advanced by the
    /// acceleration that all of `state` gives the body.
    pub open spec fn body_stepped<Q>(
        self,
        plan: StepPlan,
        state: Seq<Body<Q>>,
        index: int,
        moved: Body<Q>,
    ) -> bool where C: Fn(&Q, &Q) -> bool, P: Fn(A, &Q, &Q) -> A, M: Fn(Q, A, StepPlan) -> Q {
        &&& moved.name == state[index].name
        &&& exists|acc: A|
            self.pulled(state, index, state.len() - 1, acc) && #[trigger] self.advance.ensures(
                (state[index].quantities, acc, plan),
                moved.quantities,
            )
    }

    /// Whether `to` can be the state one step after `from`: the same
    /// bodies in the same order, each advanced by the acceleration that the
    /// bodies of `from`, and none of `to`, give it.
    pub open spec fn one_step<Q>(self, plan: StepPlan, from: Seq<Body<Q>>, to: Seq<Body<Q>>)
        -> bool where C: Fn(&Q, &Q) -> bool, P: Fn(A, &Q, &Q) -> A, M: Fn(Q, A, StepPlan) -> Q {
        &&& to.len() == from.len()
        &&& forall|index: int|
            0 <= index < from.len() ==> #[trigger] self.body_stepped(plan, from, index, to[index])
    }

    /// Whether `to` can be the state `count` steps after `from`.
    pub open spec fn stepped<Q>(
        self,
        plan: StepPlan,
        from: Seq<Body<Q>>,
        to: Seq<Body<Q>>,
        count: nat,
    ) -> bool where C: Fn(&Q, &Q) -> bool, P: Fn(A, &Q, &Q) -> A, M: Fn(Q, A, StepPlan) -> Q
        decreases count,
    {
        if count == 0 {
            to == from
        } else {
            exists|before: Seq<Body<Q>>|
                self.stepped(plan, from, before, (count - 1) as nat) && #[trigger] self.one_step(
                    plan,
                    before,
                    to,
                )
        }
    }
}

/// Whether `to` holds the bodies of `from`: as many, under the same names,
/// in the same order.
pub open spec fn same_bodies<Q>(from: Seq<Body<Q>>, to: Seq<Body<Q>>) -> bool {
    &&& to.len() == from.len()
    &&& forall|index: int| 0 <= index < from.len() ==> (#[trigger] to[index]).name == from[index].name
}

/// Number of steps of a run: none on an empty body list, else the plan's
/// step count.
pub open spec fn steps_taken(bodies: int, plan: StepPlan) -> nat {
    if bodies == 0 {
        0
    } else {
        plan.steps as nat
    }
}

/// The acceleration of the body at `index`: the pulls of all other bodies
/// of `state` that are not too close, added in the bodies' order.
pub fn acceleration<Q, A: Copy, C, P, M>(
    physics: &Physics<A, C, P, M>,
    state: &Vec<Body<Q>>,
    index: usize,
) -> (acc: A) where C: Fn(&Q, &Q) -> bool, P: Fn(A, &Q, &Q) -> A, M: Fn(Q, A, StepPlan) -> Q
    requires
        index < state@.len(),
        physics.total::<Q>(),
    ensures
        physics.pulled(state@, index as int, state@.len() - 1, acc),
{
    let mut acc = physics.rest;
    let mut other: usize = 0;
    while other < state.len()
        invariant
            other <= state@.len(),
            index < state@.len(),
            physics.total::<Q>(),
            physics.pulled(state@, index as int, other - 1, acc),
        decreases state@.len() - other,
    {
        let ghost before = acc;
        if other != index {
            let own = &state[index].quantities;
            let neighbour = &state[other].quantities;
            let close = (physics.too_close)(own, neighbour);
            if !close {
                acc = (physics.attract)(acc, own, neighbour);
            }
        }
        assert(physics.pull_added(state@, index as int, other as int, before, acc));
        other = other + 1;
    }
    acc
}

/// The body under the acceleration `acc` for one step of `plan`: it keeps
/// its name, and its quantities are advanced.
pub fn advanced<Q, A, C, P, M>(
    physics: &Physics<A, C, P, M>,
    body: Body<Q>,
    acc: A,
    plan: StepPlan,
) -> (after: Body<Q>) where C: Fn(&Q, &Q) -> bool, P: Fn(A, &Q, &Q) -> A, M: Fn(Q, A, StepPlan) -> Q
    requires
        physics.total::<Q>(),
    ensures
        after.name == body.name,
        physics.advance.ensures((body.quantities, acc, plan), after.quantities),
{
    let Body { name, quantities } = body;
    Body { name, quantities: (physics.advance)(quantities, acc, plan) }
}

/// One step: every body of `state` advanced by the acceleration that the
/// bodies of `state` give it.
pub fn step<Q: Send + Sync, A: Copy + Send + Sync, C, P, M>(
    physics: &Physics<A, C, P, M>,
    state: Vec<Body<Q>>,
    plan: StepPlan,
) -> (r: Vec<Body<Q>>) where
    C: Fn(&Q, &Q) -> bool + Send + Sync,
    P: Fn(A, &Q, &Q) -> A + Send + Sync,
    M: Fn(Q, A, StepPlan) -> Q + Send + Sync,

    requires
        physics.total::<Q>(),
    ensures
        physics.one_step(plan, state@, r@),
{
    let count: usize = state.len();
    let snapshot = &state;
    let accelerations = parallel_map(
        count,
        |index: usize| -> (acc: A)
            requires
                index < snapshot@.len(),
            ensures
                physics.pulled(snapshot@, index as int, snapshot@.len() - 1, acc)
            { acceleration(physics, snapshot, index) },
    );
    parallel_zip_map(
        state,
        accelerations,
        |body: Body<Q>, acc: A| -> (after: Body<Q>)
            ensures
                after.name == body.name,
                physics.advance.ensures((body.quantities, acc, plan), after.quantities)
            { advanced(physics, body, acc, plan) },
    )
}

/// Takes the steps of `plan` from `initial`, each from the state that the
/// step before it left; an empty body list is handed back untouched.
pub fn run_steps<Q: Send + Sync, A: Copy + Send + Sync, C, P, M>(
    physics: &Physics<A, C, P, M>,
    initial: Vec<Body<Q>>,
    plan: StepPlan,
) -> (r: Vec<Body<Q>>) where
    C: Fn(&Q, &Q) -> bool + Send + Sync,
    P: Fn(A, &Q, &Q) -> A + Send + Sync,
    M: Fn(Q, A, StepPlan) -> Q + Send + Sync,

    requires
        physics.total::<Q>(),
    ensures
        physics.stepped(plan, initial@, r@, steps_taken(initial@.len() as int, plan)),
        steps_taken(initial@.len() as int, plan) == 0 ==> r == initial,
        same_bodies(initial@, r@),
{
    if initial.len() == 0 || plan.steps == 0 {
        return initial;
    }
    let ghost start = initial@;
    let mut state = initial;
    let mut done: u64 = 0;
    while done < plan.steps
        invariant
            done <= plan.steps,
            physics.total::<Q>(),
            physics.stepped(plan, start, state@, done as nat),
        decreases plan.steps - done,
    {
        state = step(physics, state, plan);
        done = done + 1;
    }
    proof {
        lemma_run_keeps_the_bodies(*physics, plan, start, state@, done as nat);
    }
    state
}

/// The integrator over bodies without a timestamp.
pub struct Simulation;

/// The integrator over bodies that carry the instant of their state.
pub struct Simulator;

impl Simulation {
    /// The bodies to start from: those that were loaded, and none where
    /// loading failed.
    pub fn load_planets<B, E>(loaded: Result<Vec<B>, E>) -> (r: Vec<B>)
        ensures
            loaded matches Ok(planets) ==> r == planets,
            loaded is Err ==> r@.len() == 0,
    {
        match loaded {
            Ok(planets) => planets,
            Err(_) => Vec::new(),
        }
    }

    /// The state of `planets` at `target_date`: the steps of the plan to
    /// that instant, taken from `planets`.
    pub fn run<Q: Send + Sync, A: Copy + Send + Sync, C, P, M>(
        physics: &Physics<A, C, P, M>,
        planets: Vec<Body<Q>>,
        target_date: &Instant,
    ) -> (r: Vec<Body<Q>>) where
        C: Fn(&Q, &Q) -> bool + Send + Sync,
        P: Fn(A, &Q, &Q) -> A + Send + Sync,
        M: Fn(Q, A, StepPlan) -> Q + Send + Sync,

        requires
            physics.total::<Q>(),
        ensures
            physics.stepped(
                plan_to(target_date@),
                planets@,
                r@,
                steps_taken(planets@.len() as int, plan_to(target_date@)),
            ),
            steps_taken(planets@.len() as int, plan_to(target_date@)) == 0 ==> r == planets,
            same_bodies(planets@, r@),
    {
        run_steps(physics, planets, StepPlan::for_target(target_date))
    }
}

impl Simulator {
    /// The state of `celest_items` at `target_date`, stamped with that
    /// instant.
    pub fn run<Q: Send + Sync, A: Copy + Send + Sync, C, P, M>(
        physics: &Physics<A, C, P, M>,
        celest_items: Vec<Body<Q>>,
        target_date: &Instant,
    ) -> (r: Snapshot<Body<Q>>) where
        C: Fn(&Q, &Q) -> bool + Send + Sync,
        P: Fn(A, &Q, &Q) -> A + Send + Sync,
        M: Fn(Q, A, StepPlan) -> Q + Send + Sync,

        requires
            physics.total::<Q>(),
        ensures
            r.timestamp == Some(*target_date),
            physics.stepped(
                plan_to(target_date@),
                celest_items@,
                r.bodies@,
                steps_taken(celest_items@.len() as int, plan_to(target_date@)),
            ),
            steps_taken(celest_items@.len() as int, plan_to(target_date@)) == 0 ==> r.bodies
                == celest_items,
            same_bodies(celest_items@, r.bodies@),
    {
        let bodies = Simulation::run(physics, celest_items, target_date);
        Snapshot { bodies, timestamp: Some(*target_date) }
    }
}

/// The meaning of `pulled`, one turn at a time: before the first turn the
/// acceleration is the one at rest, and each turn adds to what the turns
/// before it gave.
pub proof fn lemma_pulled_unfolds<Q, A, C, P, M>(
    physics: Physics<A, C, P, M>,
    state: Seq<Body<Q>>,
    index: int,
    last: int,
    acc: A,
) where C: Fn(&Q, &Q) -> bool, P: Fn(A, &Q, &Q) -> A
    ensures
        last < 0 ==> (physics.pulled(state, index, last, acc) <==> acc == physics.rest),
        last >= 0 ==> (physics.pulled(state, index, last, acc) <==> exists|before: A|
            physics.pulled(state, index, last - 1, before) && #[trigger] physics.pull_added(
                state,
                index,
                last,
                before,
                acc,
            )),
{
}

/// The meaning of `stepped`, one step at a time: no step leaves the state as
/// it is, and the last of several steps starts from what the steps before
/// it gave.
pub proof fn lemma_stepped_unfolds<Q, A, C, P, M>(
    physics: Physics<A, C, P, M>,
    plan: StepPlan,
    from: Seq<Body<Q>>,
    to: Seq<Body<Q>>,
    count: nat,
) where C: Fn(&Q, &Q) -> bool, P: Fn(A, &Q, &Q) -> A, M: Fn(Q, A, StepPlan) -> Q
    ensures
        count == 0 ==> (physics.stepped(plan, from, to, count) <==> to == from),
        count > 0 ==> (physics.stepped(plan, from, to, count) <==> exists|before: Seq<Body<Q>>|
            physics.stepped(plan, from, before, (count - 1) as nat) && #[trigger] physics.one_step(
                plan,
                before,
                to,
            )),
{
}

/// A run to the reference epoch takes no step and returns the initial state
/// unchanged.
pub proof fn lemma_run_to_epoch_changes_nothing<Q, A, C, P, M>(
    physics: Physics<A, C, P, M>,
    initial: Seq<Body<Q>>,
    result: Seq<Body<Q>>,
) where C: Fn(&Q, &Q) -> bool, P: Fn(A, &Q, &Q) -> A, M: Fn(Q, A, StepPlan) -> Q
    requires
        physics.stepped(
            plan_to(epoch_view()),
            initial,
            result,
            steps_taken(initial.len() as int, plan_to(epoch_view())),
        ),
    ensures
        steps_taken(initial.len() as int, plan_to(epoch_view())) == 0,
        result == initial,
{
}

/// The guard against near-coincident bodies: a pair that is too close
/// contributes nothing to the acceleration, and neither does a body to its
/// own.
pub proof fn lemma_close_pair_adds_nothing<Q, A, C, P, M>(
    physics: Physics<A, C, P, M>,
    state: Seq<Body<Q>>,
    index: int,
    other: int,
    before: A,
    after: A,
) where C: Fn(&Q, &Q) -> bool, P: Fn(A, &Q, &Q) -> A
    requires
        physics.pull_added(state, index, other, before, after),
        other == index || forall|close: bool|
            physics.too_close.ensures(
                (&state[index].quantities, &state[other].quantities),
                close,
            ) ==> close,
    ensures
        after == before,
{
}

/// A body that is too close to every other body, or that is alone, has the
/// acceleration of a body at rest.
pub proof fn lemma_no_pull_leaves_rest<Q, A, C, P, M>(
    physics: Physics<A, C, P, M>,
    state: Seq<Body<Q>>,
    index: int,
    last: int,
    acc: A,
) where C: Fn(&Q, &Q) -> bool, P: Fn(A, &Q, &Q) -> A
    requires
        physics.pulled(state, index, last, acc),
        forall|other: int, close: bool|
            0 <= other <= last && other != index && physics.too_close.ensures(
                (&state[index].quantities, &state[other].quantities),
                close,
            ) ==> close,
    ensures
        acc == physics.rest,
    decreases last + 1,
{
    lemma_pulled_unfolds(physics, state, index, last, acc);
    if last >= 0 {
        let before = choose|before: A|
            physics.pulled(state, index, last - 1, before) && #[trigger] physics.pull_added(
                state,
                index,
                last,
                before,
                acc,
            );
        lemma_no_pull_leaves_rest(physics, state, index, last - 1, before);
        lemma_close_pair_adds_nothing(physics, state, index, last, before, acc);
    }
}

/// The acceleration of a body is a function of the state that the step
/// found: whichever worker sums it, and whenever, the sum is the same.
pub proof fn lemma_pull_is_determined<Q, A, C, P, M>(
    physics: Physics<A, C, P, M>,
    state: Seq<Body<Q>>,
    index: int,
    last: int,
    first: A,
    second: A,
) where C: Fn(&Q, &Q) -> bool, P: Fn(A, &Q, &Q) -> A, M: Fn(Q, A, StepPlan) -> Q
    requires
        physics.single_valued::<Q>(),
        physics.pulled(state, index, last, first),
        physics.pulled(state, index, last, second),
    ensures
        first == second,
    decreases last + 1,
{
    if last >= 0 {
        let before_first = choose|before: A|
            physics.pulled(state, index, last - 1, before) && #[trigger] physics.pull_added(
                state,
                index,
                last,
                before,
                first,
            );
        let before_second = choose|before: A|
            physics.pulled(state, index, last - 1, before) && #[trigger] physics.pull_added(
                state,
                index,
                last,
                before,
                second,
            );
        lemma_pull_is_determined(physics, state, index, last - 1, before_first, before_second);
    }
}

/// A step is a function of the state it starts from: run on one worker or
/// on many, in any order, it gives the same state.
pub proof fn lemma_step_is_determined<Q, A, C, P, M>(
    physics: Physics<A, C, P, M>,
    plan: StepPlan,
    from: Seq<Body<Q>>,
    first: Seq<Body<Q>>,
    second: Seq<Body<Q>>,
) where C: Fn(&Q, &Q) -> bool, P: Fn(A, &Q, &Q) -> A, M: Fn(Q, A, StepPlan) -> Q
    requires
        physics.single_valued::<Q>(),
        physics.one_step(plan, from, first),
        physics.one_step(plan, from, second),
    ensures
        first == second,
{
    assert forall|index: int| 0 <= index < from.len() implies first[index] == second[index] by {
        assert(physics.body_stepped(plan, from, index, first[index]));
        assert(physics.body_stepped(plan, from, index, second[index]));
        let pull_first = choose|acc: A|
            physics.pulled(from, index, from.len() - 1, acc)
                && #[trigger] physics.advance.ensures(
                (from[index].quantities, acc, plan),
                first[index].quantities,
            );
        let pull_second = choose|acc: A|
            physics.pulled(from, index, from.len() - 1, acc)
                && #[trigger] physics.advance.ensures(
                (from[index].quantities, acc, plan),
                second[index].quantities,
            );
        lemma_pull_is_determined(physics, from, index, from.len() - 1, pull_first, pull_second);
    }
}

/// A run is a function of its initial state and its plan.
pub proof fn lemma_run_is_determined<Q, A, C, P, M>(
    physics: Physics<A, C, P, M>,
    plan: StepPlan,
    from: Seq<Body<Q>>,
    first: Seq<Body<Q>>,
    second: Seq<Body<Q>>,
    count: nat,
) where C: Fn(&Q, &Q) -> bool, P: Fn(A, &Q, &Q) -> A, M: Fn(Q, A, StepPlan) -> Q
    requires
        physics.single_valued::<Q>(),
        physics.stepped(plan, from, first, count),
        physics.stepped(plan, from, second, count),
    ensures
        first == second,
    decreases count,
{
    if count > 0 {
        let before_first = choose|before: Seq<Body<Q>>|
            physics.stepped(plan, from, before, (count - 1) as nat) && #[trigger] physics.one_step(
                plan,
                before,
                first,
            );
        let before_second = choose|before: Seq<Body<Q>>|
            physics.stepped(plan, from, before, (count - 1) as nat) && #[trigger] physics.one_step(
                plan,
                before,
                second,
            );
        lemma_run_is_determined(physics, plan, from, before_first, before_second, (count - 1) as nat);
        lemma_step_is_determined(physics, plan, before_first, first, second);
    }
}

/// The bodies of a run are fixed: every state of the run holds the bodies
/// of the initial state, under their names and in their order. None is
/// added, none is lost, and none changes places.
pub proof fn lemma_run_keeps_the_bodies<Q, A, C, P, M>(
    physics: Physics<A, C, P, M>,
    plan: StepPlan,
    from: Seq<Body<Q>>,
    to: Seq<Body<Q>>,
    count: nat,
) where C: Fn(&Q, &Q) -> bool, P: Fn(A, &Q, &Q) -> A, M: Fn(Q, A, StepPlan) -> Q
    requires
        physics.stepped(plan, from, to, count),
    ensures
        same_bodies(from, to),
    decreases count,
{
    lemma_stepped_unfolds(physics, plan, from, to, count);
    if count > 0 {
        let before = choose|before: Seq<Body<Q>>|
            physics.stepped(plan, from, before, (count - 1) as nat) && #[trigger] physics.one_step(
                plan,
                before,
                to,
            );
        lemma_run_keeps_the_bodies(physics, plan, from, before, (count - 1) as nat);
        assert forall|index: int| 0 <= index < from.len() implies (#[trigger] to[index]).name
            == from[index].name by {
            assert(physics.body_stepped(plan, before, index, to[index]));
        }
    }
}

} // verus!
