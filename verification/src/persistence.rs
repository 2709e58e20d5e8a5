//! Where results are kept: the two stores, which of them a result is written
//! to, in which order they are asked, and under which path the file cache
//! keeps a day's result.
//!
//! Reading and writing the stores is the caller's work; this module decides.

use crate::instant::Instant;
use crate::integrator::Snapshot;
use vstd::prelude::*;
use vstd::string::*;

verus! {

/// One place where results are kept.
#[derive(Clone, Copy, Debug, PartialEq, Eq, Structural)]
pub enum Store {
    /// The remote document database.
    Mongo,
    /// The local cache of JSON files.
    Cache,
}

/// Which stores a computed result is written to.
#[derive(Clone, Copy, Debug, PartialEq, Eq, Structural)]
pub enum PersistenceTarget {
    Cache,
    Mongo,
    All,
}

/// How to reach the remote database.
#[derive(Debug)]
pub struct MongoSettings {
    pub uri: String,
    pub database: String,
    pub collection: String,
}

/// The stores behind the simulator: the file cache, which is always there,
/// the remote database where it is configured, and the order in which a
/// lookup asks them.
pub struct CelestItemRepository {
    pub mongo: Option<MongoSettings>,
    pub lookup: Vec<Store>,
}

/// A repository together with the stores that results are written to.
pub struct CelestItemDAO {
    pub repository: CelestItemRepository,
    pub persistence_target: PersistenceTarget,
}

/// Where the simulator's data access is put together.
pub struct DAOFactory {
    celest_item_dao: CelestItemDAO,
}

/// The file cache.
pub struct CachePersistor;

/// The remote database.
pub struct MongoPersistor;

/// The file cache for callers that hold a handle on it.
pub struct CacheDAO;

/// Directory of the file cache.
pub const CACHE_DIR: &'static str = "data/cache";

/// Path of the cache file for the date key `key`.
pub open spec fn cache_path_text(key: Seq<char>) -> Seq<char> {
    CACHE_DIR@ + "/"@ + key + ".json"@
}

/// The pattern that a stored timestamp matches if it lies on the day with
/// the date key `key`: timestamps are stored as RFC 3339 text, which begins
/// with the date.
pub open spec fn day_pattern_text(key: Seq<char>) -> Seq<char> {
    "^"@ + key + "T"@
}

/// The stores that `save_order` writes for the given target, in order: the
/// file cache first, where the target names it and the snapshot has a
/// timestamp to file it under, then the database, where the target names it
/// and it is configured. An empty snapshot is written nowhere.
pub open spec fn save_order_spec(
    target: PersistenceTarget,
    mongo_configured: bool,
    bodies: int,
    stamped: bool,
) -> Seq<Store> {
    if bodies == 0 {
        Seq::empty()
    } else {
        let cache: Seq<Store> = if target.writes_to(Store::Cache) && stamped {
            seq![Store::Cache]
        } else {
            Seq::empty()
        };
        let mongo: Seq<Store> = if target.writes_to(Store::Mongo) && mongo_configured {
            seq![Store::Mongo]
        } else {
            Seq::empty()
        };
        cache + mongo
    }
}

/// Index of the first store of `lookup`, at `from` or after it, that can be
/// asked; the length of `lookup` where there is none.
pub open spec fn next_source(lookup: Seq<Store>, mongo_configured: bool, from: int) -> int
    decreases lookup.len() - from,
{
    if from < 0 || from >= lookup.len() {
        lookup.len() as int
    } else if lookup[from] == Store::Cache || mongo_configured {
        from
    } else {
        next_source(lookup, mongo_configured, from + 1)
    }
}

impl PersistenceTarget {
    /// Whether results are written to `store` under this target.
    pub open spec fn writes_to(self, store: Store) -> bool {
        match self {
            PersistenceTarget::All => true,
            PersistenceTarget::Cache => store == Store::Cache,
            PersistenceTarget::Mongo => store == Store::Mongo,
        }
    }

    /// Whether results are written to `store` under this target.
    pub fn includes(&self, store: Store) -> (r: bool)
        ensures
            r == self.writes_to(store),
    {
        match self {
            PersistenceTarget::All => true,
            PersistenceTarget::Cache => store == Store::Cache,
            PersistenceTarget::Mongo => store == Store::Mongo,
        }
    }
}

impl CelestItemRepository {
    /// The repository for the given connection settings. The database is
    /// configured only where all three are present. Lookups ask the database
    /// first and the file cache second.
    pub fn new(
        mongo_uri: Option<String>,
        mongo_db: Option<String>,
        mongo_collection: Option<String>,
    ) -> (r: CelestItemRepository)
        ensures
            r.mongo is Some <==> mongo_uri is Some && mongo_db is Some && mongo_collection is Some,
            r.mongo matches Some(settings) ==> mongo_uri == Some(settings.uri) && mongo_db == Some(
                settings.database,
            ) && mongo_collection == Some(settings.collection),
            r.lookup@ == seq![Store::Mongo, Store::Cache],
    {
        let mongo = match (mongo_uri, mongo_db, mongo_collection) {
            (Some(uri), Some(database), Some(collection)) => Some(
                MongoSettings { uri, database, collection },
            ),
            _ => None,
        };
        let mut lookup: Vec<Store> = Vec::new();
        lookup.push(Store::Mongo);
        lookup.push(Store::Cache);
        CelestItemRepository { mongo, lookup }
    }

    /// The same repository with lookups asking the stores of `order`, first
    /// to last.
    pub fn with_lookup(self, order: Vec<Store>) -> (r: CelestItemRepository)
        ensures
            r.mongo == self.mongo,
            r.lookup == order,
    {
        CelestItemRepository { mongo: self.mongo, lookup: order }
    }

    /// Whether `store` can be asked and written.
    pub open spec fn available(&self, store: Store) -> bool {
        store == Store::Cache || self.mongo is Some
    }

    /// Whether `store` can be asked and written.
    pub fn is_available(&self, store: Store) -> (r: bool)
        ensures
            r == self.available(store),
    {
        store == Store::Cache || self.mongo.is_some()
    }

    /// Index of the first store of the lookup order, at `from` or after it,
    /// that can be asked; the length of the order where there is none.
    pub fn source_from(&self, from: usize) -> (r: usize)
        ensures
            r == next_source(self.lookup@, self.mongo is Some, from as int),
            from <= self.lookup@.len() ==> from <= r <= self.lookup@.len(),
            r < self.lookup@.len() ==> self.available(self.lookup@[r as int]),
    {
        let mut index: usize = from;
        while index < self.lookup.len()
            invariant
                from <= index,
                next_source(self.lookup@, self.mongo is Some, index as int) == next_source(
                    self.lookup@,
                    self.mongo is Some,
                    from as int,
                ),
            decreases self.lookup.len() - index,
        {
            if self.is_available(self.lookup[index]) {
                return index;
            }
            index = index + 1;
        }
        self.lookup.len()
    }

    /// The stores to write `snapshot` to under `target`, in order.
    pub fn save_order<B>(&self, snapshot: &Snapshot<B>, target: PersistenceTarget) -> (r: Vec<
        Store,
    >)
        ensures
            r@ == save_order_spec(
                target,
                self.mongo is Some,
                snapshot.bodies@.len() as int,
                snapshot.timestamp is Some,
            ),
    {
        let mut order: Vec<Store> = Vec::new();
        if snapshot.bodies.len() == 0 {
            return order;
        }
        if target.includes(Store::Cache) && snapshot.timestamp.is_some() {
            order.push(Store::Cache);
        }
        if target.includes(Store::Mongo) && self.mongo.is_some() {
            order.push(Store::Mongo);
        }
        order
    }
}

impl CelestItemDAO {
    /// A repository whose results go to `persistence_target`.
    pub fn new(repository: CelestItemRepository, persistence_target: PersistenceTarget) -> (r:
        CelestItemDAO)
        ensures
            r.repository == repository,
            r.persistence_target == persistence_target,
    {
        CelestItemDAO { repository, persistence_target }
    }

    /// The stores that `snapshot` is written to, in order.
    pub open spec fn saves<B>(&self, snapshot: Snapshot<B>) -> Seq<Store> {
        save_order_spec(
            self.persistence_target,
            self.repository.mongo is Some,
            snapshot.bodies@.len() as int,
            snapshot.timestamp is Some,
        )
    }

    /// Index of the first store that a lookup can ask at `from` or after it.
    pub open spec fn source(&self, from: int) -> int {
        next_source(self.repository.lookup@, self.repository.mongo is Some, from)
    }
}

impl View for DAOFactory {
    type V = CelestItemDAO;

    closed spec fn view(&self) -> CelestItemDAO {
        self.celest_item_dao
    }
}

impl DAOFactory {
    /// Data access for the given connection settings, with results written
    /// to the database alone.
    pub fn new(
        mongo_uri: Option<String>,
        mongo_db: Option<String>,
        mongo_collection: Option<String>,
    ) -> (r: DAOFactory)
        ensures
            r@.persistence_target == PersistenceTarget::Mongo,
            r@.repository.lookup@ == seq![Store::Mongo, Store::Cache],
            r@.repository.mongo is Some <==> mongo_uri is Some && mongo_db is Some
                && mongo_collection is Some,
            r@.repository.mongo matches Some(settings) ==> mongo_uri == Some(settings.uri)
                && mongo_db == Some(settings.database) && mongo_collection == Some(
                settings.collection,
            ),
    {
        let repository = CelestItemRepository::new(mongo_uri, mongo_db, mongo_collection);
        DAOFactory { celest_item_dao: CelestItemDAO::new(repository, PersistenceTarget::Mongo) }
    }

    /// The data access object that the factory made.
    pub fn celest_item_dao(&self) -> (r: &CelestItemDAO)
        ensures
            *r == self@,
    {
        &self.celest_item_dao
    }
}

impl CachePersistor {
    /// A handle on the file cache.
    pub fn new() -> (r: CachePersistor) {
        CachePersistor
    }

    /// Path of the cache file that holds the result for the day of `date`.
    pub fn cache_path(date: &Instant) -> (r: String)
        ensures
            r@ == cache_path_text(date.date_key_text()),
    {
        let key = date.date_key();
        let mut path = String::from_str(CACHE_DIR);
        path.append("/");
        path.append(key.as_str());
        path.append(".json");
        path
    }
}

impl MongoPersistor {
    /// The pattern by which the database finds the bodies stored for the
    /// day of `date`.
    pub fn day_pattern(date: &Instant) -> (r: String)
        ensures
            r@ == day_pattern_text(date.date_key_text()),
    {
        let key = date.date_key();
        let mut pattern = String::from_str("^");
        pattern.append(key.as_str());
        pattern.append("T");
        pattern
    }
}

impl CacheDAO {
    /// A handle on the file cache.
    pub fn new() -> (r: CacheDAO) {
        CacheDAO
    }

    /// Path of the cache file that holds the result for the day of
    /// `target_date`.
    pub fn cache_filename(&self, target_date: &Instant) -> (r: String)
        ensures
            r@ == cache_path_text(target_date.date_key_text()),
    {
        CachePersistor::cache_path(target_date)
    }
}

} // verus!
