use aof::data::models::{ResourceDependency, SourceResource};
use aof::data::sources::{
    CreateVersionError, SourceItemData, SourceMetaItem, SourceMetadata, SubscribeError,
};
use aof::data::{Data, DataError};
use aof::session::protocol::{Event, UpdateType};
use aof::session::users::UserMgrDispatchEvent;

fn meta() -> SourceMetadata {
    SourceMetadata { tags: vec![0x81, 0xa5, b't', b'i', b't', b'l', b'e', 0xa1, b'T'] }
}

fn items(paths: &[&str]) -> Vec<SourceMetaItem> {
    paths
        .iter()
        .map(|p| SourceMetaItem { path: p.to_string(), is_virtual: false, tags: vec![0x80] })
        .collect()
}

#[test]
fn a_subscription_is_seen_after_it_was_made() {
    let mut data = Data::new();
    assert_eq!(data.is_user_subscribed_to_source(1, "ex:///s").unwrap(), false);
    let UserMgrDispatchEvent(user, dispatch) = data.user_subscribe_source(1, "ex:///s").unwrap();
    assert_eq!(user, 1);
    assert!(dispatch.exclude.is_none());
    assert!(matches!(dispatch.event, Event::UserDidSubscribeSource { ref source } if source == "ex:///s"));
    assert_eq!(data.is_user_subscribed_to_source(1, "ex:///s").unwrap(), true);
    assert_eq!(data.is_user_subscribed_to_source(2, "ex:///s").unwrap(), false);
    assert_eq!(data.user_source_subscriptions(1).unwrap(), vec!["ex:///s".to_string()]);
    assert_eq!(data.source_get_subscribed_users("ex:///s").unwrap(), vec![1]);
    assert_eq!(data.all_user_subscribed_sources().unwrap(), vec!["ex:///s".to_string()]);
}

#[test]
fn subscribing_twice_fails() {
    let mut data = Data::new();
    data.user_subscribe_source(1, "ex:///s").unwrap();
    assert!(matches!(data.user_subscribe_source(1, "ex:///s"), Err(SubscribeError::AlreadyInState)));
    assert_eq!(data.user_source_subscriptions.len(), 1);
    // another user may
    assert!(data.user_subscribe_source(2, "ex:///s").is_ok());
    assert_eq!(data.source_get_subscribed_users("ex:///s").unwrap(), vec![1, 2]);
}

#[test]
fn subscribing_to_what_is_no_uri_fails() {
    let mut data = Data::new();
    assert!(matches!(data.user_subscribe_source(1, "not a uri"), Err(SubscribeError::InvalidUri)));
    assert!(matches!(data.user_unsubscribe_source(1, "not a uri"), Err(SubscribeError::InvalidUri)));
    assert!(data.user_source_subscriptions.is_empty());
}

#[test]
fn unsubscribing_removes_the_subscription() {
    let mut data = Data::new();
    assert!(matches!(data.user_unsubscribe_source(1, "ex:///s"), Err(SubscribeError::AlreadyInState)));
    data.user_subscribe_source(1, "ex:///s").unwrap();
    data.user_subscribe_source(1, "ex:///t").unwrap();
    data.user_subscribe_source(2, "ex:///s").unwrap();
    let UserMgrDispatchEvent(user, dispatch) = data.user_unsubscribe_source(1, "ex:///s").unwrap();
    assert_eq!(user, 1);
    assert!(matches!(dispatch.event, Event::UserDidUnsubscribeSource { ref source } if source == "ex:///s"));
    assert_eq!(data.user_source_subscriptions(1).unwrap(), vec!["ex:///t".to_string()]);
    assert_eq!(data.source_get_subscribed_users("ex:///s").unwrap(), vec![2]);
    assert!(matches!(data.user_unsubscribe_source(1, "ex:///s"), Err(SubscribeError::AlreadyInState)));
}

#[test]
fn creates_a_version_of_a_source_with_its_associations() {
    let mut data = Data::new();
    let hash = data
        .create_source_version("ex:///root", &meta(), &items(&["/a", "/b"]), Some("2021-01-01"))
        .unwrap();
    assert_eq!(hash.len(), 128);
    assert_eq!(data.source_versions.len(), 1);
    let version = data.source_by_hash(&hash).unwrap().unwrap();
    assert_eq!(version.date_updated(), Some("2021-01-01"));
    assert_eq!(version.tags().unwrap(), meta().tags);
    let read = version.items().unwrap();
    assert_eq!(read.len(), 2);
    assert_eq!(read[0].path, "/a");
    assert_eq!(read[1].path, "/b");
    let assocs: Vec<(String, String, String)> = data
        .source_version_associated_items
        .iter()
        .map(|a| (a.source_uri.clone(), a.source_hash.clone(), a.item_uri.clone()))
        .collect();
    assert_eq!(
        assocs,
        vec![
            ("ex:///root".to_string(), hash.clone(), "ex:///a".to_string()),
            ("ex:///root".to_string(), hash.clone(), "ex:///b".to_string()),
        ]
    );
    assert!(data.source_by_hash("no such hash").unwrap().is_none());
}

#[test]
fn creating_the_same_version_again_changes_nothing() {
    let mut data = Data::new();
    let first = data.create_source_version("ex:///root", &meta(), &items(&["/a", "/a"]), None).unwrap();
    assert_eq!(data.source_versions.len(), 1);
    assert_eq!(data.source_version_associated_items.len(), 1);
    let second = data.create_source_version("ex:///root", &meta(), &items(&["/a", "/a"]), None).unwrap();
    assert_eq!(first, second);
    assert_eq!(data.source_versions.len(), 1);
    assert_eq!(data.source_version_associated_items.len(), 1);
    let other = data.create_source_version("ex:///root", &meta(), &items(&["/a"]), None).unwrap();
    assert_ne!(first, other);
    assert_eq!(data.source_versions.len(), 2);
    assert_eq!(data.source_version_associated_items.len(), 2);
}

#[test]
fn a_version_of_what_is_no_uri_is_refused() {
    let mut data = Data::new();
    assert!(matches!(
        data.create_source_version("no uri", &meta(), &items(&[]), None),
        Err(CreateVersionError::InvalidUri)
    ));
    assert!(matches!(
        data.create_source_item_version("no uri", SourceItemData { tags: vec![0x80] }, None),
        Err(CreateVersionError::InvalidUri)
    ));
    assert!(data.source_versions.is_empty());
    assert!(data.source_item_versions.is_empty());
}

#[test]
fn creates_a_version_of_an_item_that_reads_back() {
    let mut data = Data::new();
    let tags = vec![0x81, 0xa8, b'c', b'o', b'n', b't', b'e', b'n', b't', b's', 0xa5, b'h', b'e', b'l', b'l', b'o'];
    let hash = data
        .create_source_item_version("ex:///a", SourceItemData { tags: tags.clone() }, Some("2021-02-03"))
        .unwrap();
    let again = data
        .create_source_item_version("ex:///a", SourceItemData { tags: tags.clone() }, Some("2021-02-03"))
        .unwrap();
    assert_eq!(hash, again);
    assert_eq!(data.source_item_versions.len(), 1);
    // the stored data are compressed
    assert_ne!(data.source_item_versions[0].data, tags);
    assert_eq!(&data.source_item_versions[0].data[..2], &[0x1f, 0x8b]);
    let version = data.source_item_by_hash(&hash).unwrap().unwrap();
    assert_eq!(version.date_updated(), Some("2021-02-03"));
    assert_eq!(version.get_data().unwrap().tags, tags);
}

#[test]
fn stored_data_that_do_not_decompress_or_decode_are_errors() {
    let mut data = Data::new();
    data.insert_source_item_version("ex:///a", "h1", None, vec![1, 2, 3]);
    let version = data.source_item_by_hash("h1").unwrap().unwrap();
    assert!(matches!(version.get_data(), Err(DataError::Io)));
    // a stream that holds no structure of one field
    let hash = data.create_source_item_version("ex:///b", SourceItemData { tags: vec![0xc1] }, None).unwrap();
    let version = data.source_item_by_hash(&hash).unwrap().unwrap();
    assert!(matches!(version.get_data(), Err(DataError::Decode)));
}

#[test]
fn a_pointer_is_made_on_the_first_update() {
    let mut data = Data::new();
    assert!(data.user_source(1, "ex:///s").unwrap().is_none());
    let UserMgrDispatchEvent(user, dispatch) =
        data.user_update_source(1, "ex:///s", "2021-01-01T00:00:00+00:00", "h1").unwrap();
    assert_eq!(user, 1);
    assert!(matches!(
        dispatch.event,
        Event::SubscribedSourceDidUpdate { ref source, update_type: UpdateType::Update } if source == "ex:///s"
    ));
    assert_eq!(data.user_sources.len(), 1);
    data.user_update_source(1, "ex:///s", "2021-01-02T00:00:00+00:00", "h2").unwrap();
    assert_eq!(data.user_sources.len(), 1);
    let pointer = data.user_source(1, "ex:///s").unwrap().unwrap();
    assert_eq!(pointer.version_date_hash(), Some(("2021-01-02T00:00:00+00:00", "h2")));
    assert_eq!(pointer.user_data(), &[] as &[u8]);
    assert!(data.user_source(2, "ex:///s").unwrap().is_none());
}

#[test]
fn user_data_are_kept_when_the_version_is_deleted() {
    let mut data = Data::new();
    let UserMgrDispatchEvent(user, dispatch) =
        data.user_update_source_data(1, "ex:///r", vec![0xde, 0xad], Some(77)).unwrap();
    assert_eq!(user, 1);
    assert_eq!(dispatch.exclude, Some(77));
    assert!(matches!(dispatch.event, Event::SourceUserDataDidUpdate { ref source } if source == "ex:///r"));
    data.user_update_source(1, "ex:///r", "d", "h").unwrap();
    let UserMgrDispatchEvent(_, dispatch) = data.user_delete_source(1, "ex:///r").unwrap();
    assert!(matches!(
        dispatch.event,
        Event::SubscribedSourceDidUpdate { update_type: UpdateType::Delete, .. }
    ));
    let pointer = data.user_source(1, "ex:///r").unwrap().unwrap();
    assert_eq!(pointer.version_date_hash(), None);
    assert_eq!(pointer.user_data(), &[0xde, 0xad]);
}

#[test]
fn item_pointers_work_as_source_pointers_do() {
    let mut data = Data::new();
    let UserMgrDispatchEvent(_, dispatch) = data.user_update_source_item(3, "ex:///a", "d1", "h1").unwrap();
    assert!(matches!(
        dispatch.event,
        Event::SubscribedSourceItemDidUpdate { ref source_item, update_type: UpdateType::Update } if source_item == "ex:///a"
    ));
    let UserMgrDispatchEvent(_, dispatch) =
        data.user_update_source_item_data(3, "ex:///a", vec![1], None).unwrap();
    assert!(dispatch.exclude.is_none());
    assert!(matches!(dispatch.event, Event::SourceItemUserDataDidUpdate { ref source_item } if source_item == "ex:///a"));
    let pointer = data.user_source_item(3, "ex:///a").unwrap().unwrap();
    assert_eq!(pointer.version_date_hash(), Some(("d1", "h1")));
    assert_eq!(pointer.user_data(), &[1]);
    let UserMgrDispatchEvent(_, dispatch) = data.user_delete_source_item(3, "ex:///a").unwrap();
    assert!(matches!(
        dispatch.event,
        Event::SubscribedSourceItemDidUpdate { update_type: UpdateType::Delete, .. }
    ));
    assert_eq!(data.user_source_item(3, "ex:///a").unwrap().unwrap().version_date_hash(), None);
}

#[test]
fn finds_the_version_that_was_fetched_last() {
    let mut data = Data::new();
    assert_eq!(data.latest_user_source_version("ex:///s").unwrap(), None);
    data.user_update_source(1, "ex:///s", "2021-01-01T00:00:00+00:00", "old").unwrap();
    data.user_update_source(2, "ex:///s", "2021-03-01T00:00:00+00:00", "new").unwrap();
    data.user_update_source(3, "ex:///s", "2021-02-01T00:00:00+00:00", "mid").unwrap();
    data.user_update_source(4, "ex:///t", "2022-01-01T00:00:00+00:00", "other").unwrap();
    assert_eq!(data.latest_user_source_version("ex:///s").unwrap(), Some("new".to_string()));
    // a pointer without a version comes before every date
    data.user_update_source_data(5, "ex:///s", vec![], None).unwrap();
    assert_eq!(data.latest_user_source_version("ex:///s").unwrap(), Some("new".to_string()));
    data.user_delete_source(2, "ex:///s").unwrap();
    assert_eq!(data.latest_user_source_version("ex:///s").unwrap(), Some("mid".to_string()));
}

#[test]
fn finds_the_subscribers_of_an_item_through_the_associations() {
    let mut data = Data::new();
    data.user_subscribe_source(1, "ex:///root").unwrap();
    data.user_subscribe_source(2, "ex:///other").unwrap();
    data.create_source_version("ex:///root", &meta(), &items(&["/a"]), None).unwrap();
    assert_eq!(data.source_item_get_subscribed_users("ex:///a").unwrap(), vec![1]);
    assert!(data.source_item_get_subscribed_users("ex:///b").unwrap().is_empty());
    assert!(data.source_item_has_versionless_user("ex:///root", "ex:///a").unwrap());
    assert!(!data.source_item_has_versionless_user("ex:///none", "ex:///a").unwrap());
    data.user_update_source_item(1, "ex:///a", "d", "h").unwrap();
    assert!(!data.source_item_has_versionless_user("ex:///root", "ex:///a").unwrap());
    data.user_subscribe_source(3, "ex:///root").unwrap();
    assert!(data.source_item_has_versionless_user("ex:///root", "ex:///a").unwrap());
}

#[test]
fn garbage_collection_removes_what_nobody_points_at() {
    let mut data = Data::new();
    let source = data.create_source_version("ex:///root", &meta(), &items(&["/a", "/b"]), None).unwrap();
    let kept = data.create_source_version("ex:///keep", &meta(), &items(&["/a"]), Some("x")).unwrap();
    let item = data.create_source_item_version("ex:///a", SourceItemData { tags: vec![0x80] }, None).unwrap();
    let gone = data.create_source_item_version("ex:///b", SourceItemData { tags: vec![0x80] }, Some("y")).unwrap();
    data.source_item_resource_dependencies.push(ResourceDependency {
        source_item_hash: item.clone(),
        resource_hash: "r1".to_string(),
    });
    data.source_item_resource_dependencies.push(ResourceDependency {
        source_item_hash: gone.clone(),
        resource_hash: "r2".to_string(),
    });
    for hash in ["r1", "r2", "r3"] {
        data.source_resources.push(SourceResource {
            id: None,
            hash: hash.to_string(),
            metadata: Vec::new(),
            data: Vec::new(),
        });
    }
    data.user_update_source(1, "ex:///root", "d", &source).unwrap();
    data.user_update_source(1, "ex:///keep", "d", &kept).unwrap();
    data.user_update_source_item(1, "ex:///a", "d", &item).unwrap();

    data.garbage_collect_sources().unwrap();
    assert_eq!(data.source_versions.len(), 2);
    assert_eq!(data.source_item_versions.len(), 1);
    assert_eq!(data.source_item_versions[0].hash, item);
    // the association with the item without a version is orphaned
    let assocs: Vec<(String, String)> = data
        .source_version_associated_items
        .iter()
        .map(|a| (a.source_uri.clone(), a.item_uri.clone()))
        .collect();
    assert_eq!(
        assocs,
        vec![
            ("ex:///root".to_string(), "ex:///a".to_string()),
            ("ex:///keep".to_string(), "ex:///a".to_string()),
        ]
    );
    assert_eq!(data.source_item_resource_dependencies.len(), 1);
    assert_eq!(data.source_resources.len(), 1);
    assert_eq!(data.source_resources[0].hash, "r1");

    // detach the last pointer of the first version
    data.user_delete_source(1, "ex:///root").unwrap();
    data.garbage_collect_sources().unwrap();
    assert!(data.source_by_hash(&source).unwrap().is_none());
    assert!(data.source_by_hash(&kept).unwrap().is_some());
    assert!(data.source_version_associated_items.iter().all(|a| a.source_hash != source));
    assert_eq!(data.source_version_associated_items.len(), 1);
    // pointers and subscriptions stay
    assert_eq!(data.user_sources.len(), 2);

    data.user_delete_source_item(1, "ex:///a").unwrap();
    data.garbage_collect_sources().unwrap();
    assert!(data.source_item_versions.is_empty());
    assert!(data.source_version_associated_items.is_empty());
    assert!(data.source_item_resource_dependencies.is_empty());
    assert!(data.source_resources.is_empty());
}

#[test]
fn a_version_of_an_item_is_made_once_under_whatever_uri() {
    let mut data = Data::new();
    let tags = vec![0x81, 0xa1, b'k', 0xa1, b'v'];
    let hash = data
        .create_source_item_version("ex:///a", SourceItemData { tags: tags.clone() }, Some("d"))
        .unwrap();
    let stored = data.source_item_versions[0].data.clone();
    let again = data
        .create_source_item_version("other:///b", SourceItemData { tags: tags.clone() }, Some("d"))
        .unwrap();
    assert_eq!(again, hash);
    assert_eq!(data.source_item_versions.len(), 1);
    assert_eq!(data.source_item_versions[0].uri, "ex:///a");
    assert_eq!(data.source_item_versions[0].data, stored);
    // other data or another date give another hash and another row
    let other = data
        .create_source_item_version("ex:///a", SourceItemData { tags: tags.clone() }, None)
        .unwrap();
    assert_ne!(other, hash);
    assert_eq!(data.source_item_versions.len(), 2);
}

#[test]
fn the_tables_hold_no_row_twice() {
    let mut data = Data::new();
    data.insert_user("alice", "a2V5$c2FsdA==".to_string(), "secret", vec![7; 32]).unwrap();
    let meta = SourceMetadata { tags: vec![0x80] };
    for _ in 0..2 {
        let hash = data.create_source_version("ex:///s", &meta, &Vec::new(), None).unwrap();
        data.user_update_source(1, "ex:///s", "d", &hash).unwrap();
        data.user_update_source_data(1, "ex:///s", vec![1], None).unwrap();
        let _ = data.user_subscribe_source(1, "ex:///s");
        let item = data
            .create_source_item_version("ex:///a", SourceItemData { tags: vec![0x80] }, None)
            .unwrap();
        data.user_update_source_item(1, "ex:///a", "d", &item).unwrap();
        data.user_update_source_item_data(1, "ex:///a", vec![2], None).unwrap();
    }
    assert_eq!(data.source_versions.len(), 1);
    assert_eq!(data.source_item_versions.len(), 1);
    assert_eq!(data.user_sources.len(), 1);
    assert_eq!(data.user_source_items.len(), 1);
    assert_eq!(data.user_source_subscriptions.len(), 1);
    data.garbage_collect_sources().unwrap();
    assert_eq!(data.source_versions.len(), 1);
    assert_eq!(data.source_item_versions.len(), 1);
}
