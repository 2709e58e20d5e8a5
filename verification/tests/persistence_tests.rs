use celestia::instant::Instant;
use celestia::integrator::Snapshot;
use celestia::persistence::{
    CacheDAO, CachePersistor, CelestItemDAO, CelestItemRepository, DAOFactory, MongoPersistor,
    PersistenceTarget, Store, CACHE_DIR,
};

fn text(value: &str) -> Option<String> {
    Some(value.to_string())
}

fn configured() -> CelestItemRepository {
    CelestItemRepository::new(text("mongodb://db:27017"), text("celestia"), text("items"))
}

fn unconfigured() -> CelestItemRepository {
    CelestItemRepository::new(None, None, None)
}

fn snapshot(bodies: Vec<u8>, stamped: bool) -> Snapshot<u8> {
    let timestamp = if stamped { Some(Instant::reference_epoch()) } else { None };
    Snapshot { bodies, timestamp }
}

#[test]
fn cache_path_is_the_date_key_under_the_cache_directory() {
    let epoch = Instant::reference_epoch();
    assert_eq!(CachePersistor::cache_path(&epoch), "data/cache/2000-01-01.json");
    let earlier = Instant::new(-1, 0).unwrap();
    assert_eq!(CachePersistor::cache_path(&earlier), "data/cache/1969-12-31.json");
    let _persistor = CachePersistor::new();
}

#[test]
fn cache_files_lie_in_the_cache_directory() {
    assert_eq!(CACHE_DIR, "data/cache");
    let path = CachePersistor::cache_path(&Instant::new(1_700_000_000, 0).unwrap());
    assert_eq!(path, format!("{CACHE_DIR}/2023-11-14.json"));
}

#[test]
fn day_pattern_matches_the_timestamps_of_the_day() {
    let epoch = Instant::reference_epoch();
    let pattern = MongoPersistor::day_pattern(&epoch);
    assert_eq!(pattern, "^2000-01-01T");
    let late = Instant::new(946_684_800 + 86_399, 0).unwrap();
    assert_eq!(MongoPersistor::day_pattern(&late), pattern);
    assert!(epoch.to_rfc3339().starts_with(&pattern[1..]));
    assert!(late.to_rfc3339().starts_with(&pattern[1..]));
    let next_day = Instant::new(946_684_800 + 86_400, 0).unwrap();
    assert!(!next_day.to_rfc3339().starts_with(&pattern[1..]));
}

#[test]
fn cache_dao_files_a_day_where_the_persistor_does() {
    let dao = CacheDAO::new();
    let late = Instant::new(946_684_800 + 86_399, 999_999_999).unwrap();
    assert_eq!(dao.cache_filename(&late), "data/cache/2000-01-01.json");
    assert_eq!(dao.cache_filename(&late), CachePersistor::cache_path(&Instant::reference_epoch()));
}

#[test]
fn target_names_its_stores() {
    assert!(PersistenceTarget::Cache.includes(Store::Cache));
    assert!(!PersistenceTarget::Cache.includes(Store::Mongo));
    assert!(PersistenceTarget::Mongo.includes(Store::Mongo));
    assert!(!PersistenceTarget::Mongo.includes(Store::Cache));
    assert!(PersistenceTarget::All.includes(Store::Cache));
    assert!(PersistenceTarget::All.includes(Store::Mongo));
}

#[test]
fn database_is_configured_only_with_all_three_settings() {
    let full = configured();
    let settings = full.mongo.as_ref().expect("configured");
    assert_eq!(settings.uri, "mongodb://db:27017");
    assert_eq!(settings.database, "celestia");
    assert_eq!(settings.collection, "items");
    assert!(unconfigured().mongo.is_none());
    assert!(CelestItemRepository::new(text("u"), text("d"), None).mongo.is_none());
    assert!(CelestItemRepository::new(text("u"), None, text("c")).mongo.is_none());
    assert!(CelestItemRepository::new(None, text("d"), text("c")).mongo.is_none());
}

#[test]
fn lookups_ask_the_database_before_the_file_cache() {
    assert_eq!(configured().lookup, vec![Store::Mongo, Store::Cache]);
    assert_eq!(unconfigured().lookup, vec![Store::Mongo, Store::Cache]);
}

#[test]
fn a_store_is_available_if_it_is_the_cache_or_configured() {
    assert!(configured().is_available(Store::Mongo));
    assert!(configured().is_available(Store::Cache));
    assert!(!unconfigured().is_available(Store::Mongo));
    assert!(unconfigured().is_available(Store::Cache));
}

#[test]
fn source_from_skips_the_database_that_is_not_configured() {
    assert_eq!(configured().source_from(0), 0);
    assert_eq!(configured().source_from(1), 1);
    assert_eq!(configured().source_from(2), 2);
    assert_eq!(unconfigured().source_from(0), 1);
    assert_eq!(unconfigured().source_from(1), 1);
    assert_eq!(unconfigured().source_from(2), 2);
    assert_eq!(unconfigured().source_from(7), 2);
    let database_only = unconfigured().with_lookup(vec![Store::Mongo, Store::Mongo]);
    assert_eq!(database_only.source_from(0), 2);
    let nothing = configured().with_lookup(Vec::new());
    assert_eq!(nothing.source_from(0), 0);
}

#[test]
fn with_lookup_replaces_the_order_and_keeps_the_settings() {
    let reordered = configured().with_lookup(vec![Store::Cache, Store::Mongo]);
    assert_eq!(reordered.lookup, vec![Store::Cache, Store::Mongo]);
    assert_eq!(reordered.mongo.expect("configured").database, "celestia");
}

#[test]
fn save_order_writes_the_cache_first_and_the_database_second() {
    let stamped = snapshot(vec![1, 2], true);
    assert_eq!(
        configured().save_order(&stamped, PersistenceTarget::All),
        vec![Store::Cache, Store::Mongo]
    );
    assert_eq!(configured().save_order(&stamped, PersistenceTarget::Cache), vec![Store::Cache]);
    assert_eq!(configured().save_order(&stamped, PersistenceTarget::Mongo), vec![Store::Mongo]);
}

#[test]
fn save_order_leaves_out_the_database_that_is_not_configured() {
    let stamped = snapshot(vec![1], true);
    assert_eq!(unconfigured().save_order(&stamped, PersistenceTarget::All), vec![Store::Cache]);
    assert_eq!(unconfigured().save_order(&stamped, PersistenceTarget::Mongo), Vec::new());
}

#[test]
fn save_order_leaves_out_the_cache_for_a_snapshot_without_timestamp() {
    let bare = snapshot(vec![1], false);
    assert_eq!(configured().save_order(&bare, PersistenceTarget::All), vec![Store::Mongo]);
    assert_eq!(configured().save_order(&bare, PersistenceTarget::Cache), Vec::new());
}

#[test]
fn save_order_writes_an_empty_snapshot_nowhere() {
    let empty = snapshot(Vec::new(), true);
    assert_eq!(configured().save_order(&empty, PersistenceTarget::All), Vec::new());
    assert_eq!(configured().save_order(&empty, PersistenceTarget::Cache), Vec::new());
    assert_eq!(configured().save_order(&empty, PersistenceTarget::Mongo), Vec::new());
}

#[test]
fn dao_keeps_its_repository_and_target() {
    let dao = CelestItemDAO::new(configured(), PersistenceTarget::Cache);
    assert_eq!(dao.persistence_target, PersistenceTarget::Cache);
    assert!(dao.repository.mongo.is_some());
}

#[test]
fn factory_writes_results_to_the_database_alone() {
    let factory = DAOFactory::new(text("mongodb://db:27017"), text("celestia"), text("items"));
    let dao = factory.celest_item_dao();
    assert_eq!(dao.persistence_target, PersistenceTarget::Mongo);
    assert_eq!(dao.repository.lookup, vec![Store::Mongo, Store::Cache]);
    assert_eq!(dao.repository.mongo.as_ref().expect("configured").collection, "items");
    let bare = DAOFactory::new(None, text("celestia"), text("items"));
    assert!(bare.celest_item_dao().repository.mongo.is_none());
    assert_eq!(bare.celest_item_dao().persistence_target, PersistenceTarget::Mongo);
}
