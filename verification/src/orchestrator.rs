//! Compute or fetch: the decisions of one request for the state at a target
//! instant.
//!
//! A [`Request`] never touches a store or the integrator. It names the next
//! thing to be done as an [`Action`]; the caller does it and reports the
//! outcome as an [`Event`], and gets the next action back. The stores of the
//! lookup order are asked one after the other and the first that holds a
//! non-empty snapshot answers the request. Where none does, the integrator
//! runs, the result is written to the stores that the target names, and the
//! result answers the request whether or not it could be written.

use crate::instant::Instant;
use crate::integrator::{Simulator, Snapshot};
use crate::persistence::{next_source, CelestItemDAO, Store};
use vstd::prelude::*;

verus! {

/// Where the answer to a request came from.
#[derive(Clone, Copy, Debug, PartialEq, Eq, Structural)]
pub enum Source {
    /// A store held it.
    Stored(Store),
    /// The integrator computed it.
    Computed,
}

/// How far a request has come.
#[derive(Clone, Copy, Debug, PartialEq, Eq, Structural)]
pub enum Phase {
    /// The store at this index of the lookup order is being asked.
    Looking(usize),
    /// Every store missed; the integrator is running.
    Integrating,
    /// The store at this index of the save order is being written.
    Saving(usize),
    /// The answer is there.
    Done(Source),
}

/// What the caller is to do next.
#[derive(Clone, Copy, Debug, PartialEq, Eq, Structural)]
pub enum Action {
    /// Ask `store` for the snapshot of the day of `date`.
    Find { store: Store, date: Instant },
    /// Run the integrator to `target`.
    Integrate { target: Instant },
    /// Write the snapshot that the request holds to `store`.
    Save { store: Store },
    /// Hand the snapshot that the request holds to the client.
    Respond { source: Source },
}

/// What came of the last action.
pub enum Event<B> {
    /// The store that was asked holds this snapshot.
    Found(Snapshot<B>),
    /// The store that was asked holds nothing for the day, or could not be
    /// reached.
    Missing,
    /// The integrator returned this snapshot.
    Integrated(Snapshot<B>),
    /// The snapshot was written.
    Saved,
    /// The snapshot could not be written.
    SaveFailed,
}

/// One request in flight.
pub struct Request<'a, B> {
    dao: &'a CelestItemDAO,
    target: Instant,
    phase: Phase,
    held: Option<Snapshot<B>>,
    saves: Vec<Store>,
}

/// The state of a request.
pub struct RequestView<B> {
    pub dao: CelestItemDAO,
    pub target: Instant,
    pub phase: Phase,
    pub held: Option<Snapshot<B>>,
}

impl<B> RequestView<B> {
    /// The stores that a lookup asks, in order.
    pub open spec fn lookup(self) -> Seq<Store> {
        self.dao.repository.lookup@
    }

    /// The stores that the held snapshot is written to, in order.
    pub open spec fn saves(self) -> Seq<Store> {
        match self.held {
            Some(snapshot) => self.dao.saves(snapshot),
            None => Seq::empty(),
        }
    }

    /// Whether the phase fits the lookup order and the held snapshot.
    pub open spec fn well_formed(self) -> bool {
        match self.phase {
            Phase::Looking(index) => index < self.lookup().len() && self.held is None,
            Phase::Integrating => self.held is None,
            Phase::Saving(index) => index < self.saves().len(),
            Phase::Done(_) => self.held is Some,
        }
    }

    /// The request with the lookup moved on to the first store that can be
    /// asked at index `from` or after it, or to the integrator where the
    /// lookup order is used up.
    pub open spec fn search(self, from: int) -> RequestView<B> {
        let index = self.dao.source(from);
        if index < self.lookup().len() {
            RequestView { phase: Phase::Looking(index as usize), held: None, ..self }
        } else {
            RequestView { phase: Phase::Integrating, held: None, ..self }
        }
    }

    /// The request that answers with `snapshot` from `source`.
    pub open spec fn answered(self, snapshot: Snapshot<B>, source: Source) -> RequestView<B> {
        RequestView { phase: Phase::Done(source), held: Some(snapshot), ..self }
    }

    /// The request after `event`. An event that does not answer the pending
    /// action leaves the request as it is.
    pub open spec fn next(self, event: Event<B>) -> RequestView<B> {
        match (self.phase, event) {
            (Phase::Looking(index), Event::Found(snapshot)) => if snapshot.bodies@.len() > 0 {
                self.answered(snapshot, Source::Stored(self.lookup()[index as int]))
            } else {
                self.search(index + 1)
            },
            (Phase::Looking(index), Event::Missing) => self.search(index + 1),
            (Phase::Integrating, Event::Integrated(snapshot)) => if self.dao.saves(snapshot).len()
                > 0 {
                RequestView { phase: Phase::Saving(0), held: Some(snapshot), ..self }
            } else {
                self.answered(snapshot, Source::Computed)
            },
            (Phase::Saving(index), Event::Saved) => if index + 1 < self.saves().len() {
                RequestView { phase: Phase::Saving((index + 1) as usize), ..self }
            } else {
                RequestView { phase: Phase::Done(Source::Computed), ..self }
            },
            (Phase::Saving(_), Event::SaveFailed) => RequestView {
                phase: Phase::Done(Source::Computed),
                ..self
            },
            _ => self,
        }
    }

    /// What the caller is to do in this state.
    pub open spec fn pending_action(self) -> Action {
        match self.phase {
            Phase::Looking(index) => Action::Find {
                store: self.lookup()[index as int],
                date: self.target,
            },
            Phase::Integrating => Action::Integrate { target: self.target },
            Phase::Saving(index) => Action::Save { store: self.saves()[index as int] },
            Phase::Done(source) => Action::Respond { source },
        }
    }

    /// Whether `event` answers the pending action.
    pub open spec fn answers(self, event: Event<B>) -> bool {
        match (self.phase, event) {
            (Phase::Looking(_), Event::Found(_)) => true,
            (Phase::Looking(_), Event::Missing) => true,
            (Phase::Integrating, Event::Integrated(_)) => true,
            (Phase::Saving(_), Event::Saved) => true,
            (Phase::Saving(_), Event::SaveFailed) => true,
            _ => false,
        }
    }

    /// An upper bound on the actions still to come, the response included.
    pub open spec fn remaining(self) -> nat {
        match self.phase {
            Phase::Looking(index) => (self.lookup().len() - index + 4) as nat,
            Phase::Integrating => 4,
            Phase::Saving(index) => (self.saves().len() - index + 1) as nat,
            Phase::Done(_) => 0,
        }
    }
}

/// The state in which a request for `target` starts.
pub open spec fn start<B>(dao: CelestItemDAO, target: Instant) -> RequestView<B> {
    (RequestView::<B> { dao, target, phase: Phase::Integrating, held: None }).search(0)
}

impl<'a, B> View for Request<'a, B> {
    type V = RequestView<B>;

    closed spec fn view(&self) -> RequestView<B> {
        RequestView { dao: *self.dao, target: self.target, phase: self.phase, held: self.held }
    }
}

impl<'a, B> Request<'a, B> {
    #[verifier::type_invariant]
    spec fn consistent(self) -> bool {
        &&& self@.well_formed()
        &&& self.saves@ == self@.saves()
    }

    /// A request for the state at `target`, with its first action.
    pub fn new(dao: &'a CelestItemDAO, target: Instant) -> (r: (Request<'a, B>, Action))
        ensures
            r.0@ == start::<B>(*dao, target),
            r.0@.well_formed(),
            r.1 == r.0@.pending_action(),
    {
        Self::search(dao, target, 0)
    }

    fn search(dao: &'a CelestItemDAO, target: Instant, from: usize) -> (r: (
        Request<'a, B>,
        Action,
    ))
        requires
            from <= dao.repository.lookup@.len(),
        ensures
            r.0@ == (RequestView::<B> {
                dao: *dao,
                target,
                phase: Phase::Integrating,
                held: None,
            }).search(from as int),
            r.0@.well_formed(),
            r.1 == r.0@.pending_action(),
    {
        let index: usize = dao.repository.source_from(from);
        if index < dao.repository.lookup.len() {
            let store = dao.repository.lookup[index];
            (
                Request { dao, target, phase: Phase::Looking(index), held: None, saves: Vec::new() },
                Action::Find { store, date: target },
            )
        } else {
            (
                Request { dao, target, phase: Phase::Integrating, held: None, saves: Vec::new() },
                Action::Integrate { target },
            )
        }
    }

    fn after(index: usize, sources: usize) -> (r: usize)
        requires
            index < sources,
        ensures
            r == index + 1,
    {
        index + 1
    }

    fn answer(dao: &'a CelestItemDAO, target: Instant, snapshot: Snapshot<B>, source: Source) -> (r:
        (Request<'a, B>, Action))
        ensures
            r.0@ == (RequestView::<B> {
                dao: *dao,
                target,
                phase: Phase::Done(source),
                held: Some(snapshot),
            }),
            r.1 == r.0@.pending_action(),
    {
        let saves = dao.repository.save_order(&snapshot, dao.persistence_target);
        (
            Request { dao, target, phase: Phase::Done(source), held: Some(snapshot), saves },
            Action::Respond { source },
        )
    }

    /// The action that the request is waiting for.
    pub fn action(&self) -> (r: Action)
        ensures
            r == self@.pending_action(),
    {
        proof {
            use_type_invariant(self);
        }
        match self.phase {
            Phase::Looking(index) => Action::Find {
                store: self.dao.repository.lookup[index],
                date: self.target,
            },
            Phase::Integrating => Action::Integrate { target: self.target },
            Phase::Saving(index) => Action::Save { store: self.saves[index] },
            Phase::Done(source) => Action::Respond { source },
        }
    }

    /// Takes the outcome of the pending action and returns the request in
    /// its next state with the action to do next.
    pub fn advance(self, event: Event<B>) -> (r: (Request<'a, B>, Action))
        ensures
            r.0@ == self@.next(event),
            r.0@.well_formed(),
            r.1 == r.0@.pending_action(),
    {
        proof {
            use_type_invariant(&self);
        }
        let sources: usize = self.dao.repository.lookup.len();
        match (self.phase, event) {
            (Phase::Looking(index), Event::Found(snapshot)) => {
                if snapshot.bodies.len() > 0 {
                    let store = self.dao.repository.lookup[index];
                    Self::answer(self.dao, self.target, snapshot, Source::Stored(store))
                } else {
                    Self::search(self.dao, self.target, Self::after(index, sources))
                }
            },
            (Phase::Looking(index), Event::Missing) => Self::search(
                self.dao,
                self.target,
                Self::after(index, sources),
            ),
            (Phase::Integrating, Event::Integrated(snapshot)) => {
                let saves = self.dao.repository.save_order(&snapshot, self.dao.persistence_target);
                if saves.len() > 0 {
                    let store = saves[0];
                    (
                        Request {
                            dao: self.dao,
                            target: self.target,
                            phase: Phase::Saving(0),
                            held: Some(snapshot),
                            saves,
                        },
                        Action::Save { store },
                    )
                } else {
                    Self::answer(self.dao, self.target, snapshot, Source::Computed)
                }
            },
            (Phase::Saving(index), Event::Saved) => {
                if index + 1 < self.saves.len() {
                    let store = self.saves[index + 1];
                    (
                        Request {
                            dao: self.dao,
                            target: self.target,
                            phase: Phase::Saving(index + 1),
                            held: self.held,
                            saves: self.saves,
                        },
                        Action::Save { store },
                    )
                } else {
                    (
                        Request {
                            dao: self.dao,
                            target: self.target,
                            phase: Phase::Done(Source::Computed),
                            held: self.held,
                            saves: self.saves,
                        },
                        Action::Respond { source: Source::Computed },
                    )
                }
            },
            (Phase::Saving(_), Event::SaveFailed) => (
                Request {
                    dao: self.dao,
                    target: self.target,
                    phase: Phase::Done(Source::Computed),
                    held: self.held,
                    saves: self.saves,
                },
                Action::Respond { source: Source::Computed },
            ),
            _ => {
                let action = self.action();
                (self, action)
            },
        }
    }

    /// The instant that the request is for.
    pub fn target(&self) -> (r: Instant)
        ensures
            r == self@.target,
    {
        self.target
    }

    /// The snapshot that the request holds: the one to write while it is
    /// saving, the one to hand out when it is done.
    pub fn held(&self) -> (r: Option<&Snapshot<B>>)
        ensures
            r is Some <==> self@.held is Some,
            r matches Some(snapshot) ==> self@.held == Some(*snapshot),
    {
        self.held.as_ref()
    }

    /// The answer to the request and where it came from, once the request
    /// is done.
    pub fn into_response(self) -> (r: Option<(Snapshot<B>, Source)>)
        ensures
            r is Some <==> self@.phase is Done,
            r matches Some(answer) ==> self@.held == Some(answer.0) && self@.phase == Phase::Done(
                answer.1,
            ),
    {
        proof {
            use_type_invariant(&self);
        }
        match (self.phase, self.held) {
            (Phase::Done(source), Some(snapshot)) => Some((snapshot, source)),
            _ => None,
        }
    }
}

/// Where a lookup goes on from `from`: to a store that can be asked, at
/// `from` or after it and before any other such store, or past the end.
pub proof fn lemma_source_bounds(lookup: Seq<Store>, mongo_configured: bool, from: int)
    requires
        0 <= from <= lookup.len(),
    ensures
        from <= next_source(lookup, mongo_configured, from) <= lookup.len(),
        next_source(lookup, mongo_configured, from) < lookup.len() ==> (lookup[next_source(
            lookup,
            mongo_configured,
            from,
        )] == Store::Cache || mongo_configured),
        forall|index: int|
            from <= index < next_source(lookup, mongo_configured, from) ==> !(lookup[index]
                == Store::Cache || mongo_configured),
    decreases lookup.len() - from,
{
    if from < lookup.len() && !(lookup[from] == Store::Cache || mongo_configured) {
        lemma_source_bounds(lookup, mongo_configured, from + 1);
    }
}

/// Every outcome that answers the pending action brings the request closer
/// to its response, whatever the outcome is: a store that fails or misses,
/// or a write that fails, delays nothing. Any other event changes nothing.
pub proof fn lemma_progress<B>(request: RequestView<B>, event: Event<B>)
    requires
        request.well_formed(),
    ensures
        request.next(event).well_formed(),
        request.next(event).dao == request.dao,
        request.next(event).target == request.target,
        request.answers(event) ==> request.next(event).remaining() < request.remaining(),
        !request.answers(event) ==> request.next(event) == request,
{
    if let Phase::Looking(index) = request.phase {
        lemma_source_bounds(request.lookup(), request.dao.repository.mongo is Some, index + 1);
        assert(request.dao.repository.lookup.len() == request.lookup().len());
    }
}

/// Once the integrator has returned, its snapshot is the answer: each
/// outcome of a write, failure included, keeps the snapshot and leads to
/// the next write or to the response.
pub proof fn lemma_computed_result_is_kept<B>(request: RequestView<B>, event: Event<B>)
    requires
        request.well_formed(),
        request.phase is Saving,
    ensures
        request.next(event).held == request.held,
        request.next(event).phase is Saving || request.next(event).phase == Phase::Done(
            Source::Computed,
        ),
        event is SaveFailed ==> request.next(event).phase == Phase::Done(Source::Computed),
{
}

/// The first action of a request asks a store, if the lookup order holds
/// one that can be asked; the integrator runs only after every such store
/// has been asked and has missed.
pub proof fn lemma_integrates_last<B>(request: RequestView<B>, event: Event<B>)
    requires
        request.well_formed(),
        request.next(event).phase is Integrating,
        !(request.phase is Integrating),
    ensures
        request.phase matches Phase::Looking(index) && forall|later: int|
            index < later < request.lookup().len() ==> !request.dao.repository.available(
                #[trigger] request.lookup()[later],
            ),
        event is Missing || (event matches Event::Found(snapshot) && snapshot.bodies@.len() == 0),
{
    if let Phase::Looking(index) = request.phase {
        lemma_source_bounds(request.lookup(), request.dao.repository.mongo is Some, index + 1);
    }
}

impl Simulator {
    /// Starts a request for the state at `target_date`: a stored result
    /// where a store of `dao` has one, a computed one otherwise.
    pub fn load_or_compute<'a, B>(dao: &'a CelestItemDAO, target_date: Instant) -> (r: (
        Request<'a, B>,
        Action,
    ))
        ensures
            r.0@ == start::<B>(*dao, target_date),
            r.0@.well_formed(),
            r.1 == r.0@.pending_action(),
    {
        Request::new(dao, target_date)
    }
}

} // verus!
