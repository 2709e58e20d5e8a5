//! A model of the stores, and what a request does when it runs against it.
//!
//! The model keeps one snapshot per store and date key. A store that is asked
//! answers with what it keeps, the integrator returns a given snapshot, and
//! every write succeeds. Running two requests for one day against the model
//! shows that the second is answered from a store.

use crate::instant::Instant;
use crate::integrator::Snapshot;
use crate::orchestrator::{
    lemma_progress, lemma_source_bounds, start, Action, Event, Phase, RequestView, Source,
};
use crate::persistence::{CelestItemDAO, Store};
use vstd::prelude::*;

verus! {

/// What the stores keep: a snapshot by store and date key.
pub type Shelves<B> = Map<(Store, Seq<char>), Snapshot<B>>;

/// Whether `store` keeps a snapshot with at least one body under `key`.
pub open spec fn holds<B>(shelves: Shelves<B>, store: Store, key: Seq<char>) -> bool {
    shelves.contains_key((store, key)) && shelves[(store, key)].bodies@.len() > 0
}

/// The outcome of `action` in the model: a store answers with what it
/// keeps for the day, the integrator returns `computed`, a write succeeds.
pub open spec fn reply<B>(shelves: Shelves<B>, action: Action, computed: Snapshot<B>) -> Event<B> {
    match action {
        Action::Find { store, date } => if shelves.contains_key((store, date.date_key_text())) {
            Event::Found(shelves[(store, date.date_key_text())])
        } else {
            Event::Missing
        },
        Action::Integrate { .. } => Event::Integrated(computed),
        Action::Save { .. } => Event::Saved,
        Action::Respond { .. } => Event::Missing,
    }
}

/// The stores after `action`: a write files the held snapshot under the
/// date key of its timestamp.
pub open spec fn written<B>(shelves: Shelves<B>, action: Action, held: Option<Snapshot<B>>)
    -> Shelves<B> {
    match (action, held) {
        (Action::Save { store }, Some(snapshot)) => match snapshot.timestamp {
            Some(instant) => shelves.insert((store, instant.date_key_text()), snapshot),
            None => shelves,
        },
        _ => shelves,
    }
}

/// The request and the stores once the request has run to its response.
pub open spec fn settle<B>(request: RequestView<B>, shelves: Shelves<B>, computed: Snapshot<B>)
    -> (RequestView<B>, Shelves<B>)
    decreases request.remaining(),
    when request.well_formed()
    via settle_terminates::<B>
{
    if request.phase is Done {
        (request, shelves)
    } else {
        let action = request.pending_action();
        settle(
            request.next(reply(shelves, action, computed)),
            written(shelves, action, request.held),
            computed,
        )
    }
}

#[via_fn]
proof fn settle_terminates<B>(request: RequestView<B>, shelves: Shelves<B>, computed: Snapshot<B>) {
    lemma_progress(request, reply(shelves, request.pending_action(), computed));
}

/// What [`settle`] does in one step: a request that is done stays as it
/// is, any other takes the outcome of its pending action and goes on.
pub proof fn lemma_settle_unfolds<B>(
    request: RequestView<B>,
    shelves: Shelves<B>,
    computed: Snapshot<B>,
)
    requires
        request.well_formed(),
    ensures
        request.phase is Done ==> settle(request, shelves, computed) == (request, shelves),
        !(request.phase is Done) ==> settle(request, shelves, computed) == settle(
            request.next(reply(shelves, request.pending_action(), computed)),
            written(shelves, request.pending_action(), request.held),
            computed,
        ),
        request.next(reply(shelves, request.pending_action(), computed)).well_formed(),
{
    lemma_progress(request, reply(shelves, request.pending_action(), computed));
}

/// A request for `target` run against `shelves`, with an integrator that
/// returns `computed`.
pub open spec fn serve<B>(
    dao: CelestItemDAO,
    shelves: Shelves<B>,
    target: Instant,
    computed: Snapshot<B>,
) -> (RequestView<B>, Shelves<B>) {
    settle(start::<B>(dao, target), shelves, computed)
}

/// Index of the first store that a lookup from `from` finds holding a
/// snapshot under `key`; the length of the lookup order if there is none.
spec fn first_hit<B>(dao: CelestItemDAO, shelves: Shelves<B>, key: Seq<char>, from: int) -> int
    decreases dao.repository.lookup@.len() - from,
{
    let lookup = dao.repository.lookup@;
    let index = dao.source(from);
    if from < 0 || from > lookup.len() || index >= lookup.len() {
        lookup.len() as int
    } else if holds(shelves, lookup[index], key) {
        index
    } else {
        proof {
            lemma_source_bounds(lookup, dao.repository.mongo is Some, from);
        }
        first_hit(dao, shelves, key, index + 1)
    }
}

/// The request `base` with every store asked in vain.
spec fn integrating<B>(base: RequestView<B>) -> RequestView<B> {
    RequestView { phase: Phase::Integrating, held: None, ..base }
}

/// Whether a computed `snapshot` is written to `store`.
spec fn saved<B>(dao: CelestItemDAO, snapshot: Snapshot<B>, store: Store) -> bool {
    &&& snapshot.bodies@.len() > 0
    &&& dao.persistence_target.writes_to(store)
    &&& match store {
        Store::Cache => snapshot.timestamp is Some,
        Store::Mongo => dao.repository.mongo is Some,
    }
}

/// The stores after a computed `snapshot` has been written.
spec fn after_saves<B>(shelves: Shelves<B>, dao: CelestItemDAO, snapshot: Snapshot<B>) -> Shelves<
    B,
> {
    match snapshot.timestamp {
        None => shelves,
        Some(instant) => {
            let key = instant.date_key_text();
            let cached = if saved(dao, snapshot, Store::Cache) {
                shelves.insert((Store::Cache, key), snapshot)
            } else {
                shelves
            };
            if saved(dao, snapshot, Store::Mongo) {
                cached.insert((Store::Mongo, key), snapshot)
            } else {
                cached
            }
        },
    }
}

proof fn lemma_lookup_outcome<B>(
    base: RequestView<B>,
    shelves: Shelves<B>,
    computed: Snapshot<B>,
    from: int,
)
    requires
        0 <= from <= base.lookup().len(),
    ensures
        ({
            let key = base.target.date_key_text();
            let hit = first_hit(base.dao, shelves, key, from);
            let lookup = base.lookup();
            &&& from <= hit <= lookup.len()
            &&& hit < lookup.len() ==> {
                &&& holds(shelves, lookup[hit], key)
                &&& settle(base.search(from), shelves, computed) == (
                    base.answered(shelves[(lookup[hit], key)], Source::Stored(lookup[hit])),
                    shelves,
                )
            }
            &&& hit == lookup.len() ==> settle(base.search(from), shelves, computed) == settle(
                integrating(base),
                shelves,
                computed,
            )
        }),
    decreases base.lookup().len() - from,
{
    let key = base.target.date_key_text();
    let lookup = base.lookup();
    let index = base.dao.source(from);
    lemma_source_bounds(lookup, base.dao.repository.mongo is Some, from);
    assert(base.dao.repository.lookup.len() == lookup.len());
    if index < lookup.len() {
        // the store at `index` is asked: it answers, or the lookup goes on behind it
        lemma_settle_unfolds(base.search(from), shelves, computed);
        if holds(shelves, lookup[index], key) {
            let answer = base.answered(shelves[(lookup[index], key)], Source::Stored(lookup[index]));
            lemma_settle_unfolds(answer, shelves, computed);
        } else {
            lemma_lookup_outcome(base, shelves, computed, index + 1);
        }
    }
}

proof fn lemma_compute_outcome<B>(base: RequestView<B>, shelves: Shelves<B>, computed: Snapshot<B>)
    ensures
        settle(integrating(base), shelves, computed) == (
            base.answered(computed, Source::Computed),
            after_saves(shelves, base.dao, computed),
        ),
{
    let waiting = integrating(base);
    let saves = base.dao.saves(computed);
    let answer = base.answered(computed, Source::Computed);
    lemma_settle_unfolds(answer, shelves, computed);
    lemma_settle_unfolds(answer, after_saves(shelves, base.dao, computed), computed);
    // the integrator returns, then each store of the save order is written in turn
    lemma_settle_unfolds(waiting, shelves, computed);
    let first = waiting.next(Event::Integrated(computed));
    if saves.len() > 0 {
        lemma_settle_unfolds(first, shelves, computed);
        if saves.len() > 1 {
            let once = written(shelves, first.pending_action(), first.held);
            lemma_settle_unfolds(first.next(Event::<B>::Saved), once, computed);
        }
    }
}

proof fn lemma_hit_after_saves<B>(
    dao: CelestItemDAO,
    shelves: Shelves<B>,
    computed: Snapshot<B>,
    key: Seq<char>,
    from: int,
)
    requires
        0 <= from <= dao.repository.lookup@.len(),
        computed.bodies@.len() > 0,
        computed.timestamp matches Some(instant) && instant.date_key_text() == key,
        first_hit(dao, shelves, key, from) == dao.repository.lookup@.len(),
        exists|index: int|
            from <= index < dao.repository.lookup@.len() && dao.repository.available(
                dao.repository.lookup@[index],
            ) && dao.persistence_target.writes_to(dao.repository.lookup@[index]),
    ensures
        ({
            let after = after_saves(shelves, dao, computed);
            let hit = first_hit(dao, after, key, from);
            &&& hit < dao.repository.lookup@.len()
            &&& after[(dao.repository.lookup@[hit], key)] == computed
        }),
    decreases dao.repository.lookup@.len() - from,
{
    let lookup = dao.repository.lookup@;
    let index = dao.source(from);
    lemma_source_bounds(lookup, dao.repository.mongo is Some, from);
    // the store at `index` missed before; it holds the result now, or a later one does
    if !saved(dao, computed, lookup[index]) {
        lemma_hit_after_saves(dao, shelves, computed, key, index + 1);
    }
}

/// Of two requests for instants of one day, the second is answered from a
/// store, with the snapshot that answered the first, and the integrator
/// does not run for it.
///
/// This holds where the integrator returns at least one body, stamped with
/// the instant it was asked for, and where the lookup order names a store
/// that results are written to.
pub proof fn lemma_second_request_is_fetched<B>(
    dao: CelestItemDAO,
    shelves: Shelves<B>,
    first: Instant,
    second: Instant,
    computed: Snapshot<B>,
    recomputed: Snapshot<B>,
)
    requires
        first.date_key_text() == second.date_key_text(),
        computed.bodies@.len() > 0,
        computed.timestamp == Some(first),
        exists|index: int|
            0 <= index < dao.repository.lookup@.len() && dao.repository.available(
                dao.repository.lookup@[index],
            ) && dao.persistence_target.writes_to(dao.repository.lookup@[index]),
    ensures
        ({
            let once = serve(dao, shelves, first, computed);
            let twice = serve(dao, once.1, second, recomputed);
            &&& once.0.phase is Done
            &&& twice.0.phase matches Phase::Done(Source::Stored(_))
            &&& twice.0.held == once.0.held
        }),
{
    let key = first.date_key_text();
    let lookup = dao.repository.lookup@;
    let base_first = RequestView::<B> { dao, target: first, phase: Phase::Integrating, held: None };
    let base_second = RequestView::<B> {
        dao,
        target: second,
        phase: Phase::Integrating,
        held: None,
    };
    lemma_lookup_outcome(base_first, shelves, computed, 0);
    let hit = first_hit(dao, shelves, key, 0);
    if hit < lookup.len() {
        lemma_lookup_outcome(base_second, shelves, recomputed, 0);
    } else {
        lemma_compute_outcome(base_first, shelves, computed);
        lemma_hit_after_saves(dao, shelves, computed, key, 0);
        lemma_lookup_outcome(base_second, after_saves(shelves, dao, computed), recomputed, 0);
    }
}

} // verus!
