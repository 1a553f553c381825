use aof::data::sources::{SourceItemData, SourceMetaItem, SourceMetadata};
use aof::data::Data;
use aof::fetcher::FetchRequest;
use aof::session::protocol::{Event, Request, Response, SimpleResult, UpdateType};
use aof::session::users::{
    user_seen_item, user_seen_source, Action, DispatchUserEvent, RequestError, SessionMsg, User,
    UserConnMsg, UserManager, UserMgrDispatchEvent, MAX_USER_SESSIONS,
};

fn store_with_alice() -> Data {
    let mut data = Data::new();
    data.insert_user("alice", "a2V5$c2FsdA==".to_string(), "secret", vec![9; 32]).unwrap();
    data
}

fn reply_of(actions: &[Action], conn: u64, id: u32) -> &Response {
    match actions.last() {
        Some(Action::Conn(c, UserConnMsg::Response { id: i, data })) => {
            assert_eq!(*c, conn);
            assert_eq!(*i, id);
            data
        }
        other => panic!("no response: {:?}", other),
    }
}

fn failure(result: &SimpleResult) -> &'static str {
    match result {
        SimpleResult::Failure { error } => error,
        SimpleResult::Success => "",
    }
}

#[test]
fn a_request_of_a_user_that_is_gone_stops_the_connection() {
    let mut data = Data::new();
    let hub = User::new(1);
    let actions = hub.handle_client_request(&mut data, 5, 1, Request::UserTokens).unwrap();
    assert_eq!(actions.len(), 1);
    assert!(matches!(actions[0], Action::Conn(5, UserConnMsg::ForceStop)));
}

#[test]
fn answers_requests_for_the_keys_and_the_tokens() {
    let mut data = store_with_alice();
    let hub = User::new(1);
    let actions = hub.handle_client_request(&mut data, 5, 10, Request::UserClientKey).unwrap();
    assert!(matches!(reply_of(&actions, 5, 10), Response::UserClientKey(k) if k == &vec![9u8; 32]));
    let actions = hub.handle_client_request(&mut data, 5, 11, Request::UserSecretKey).unwrap();
    assert!(matches!(reply_of(&actions, 5, 11), Response::UserSecretKey(k) if k == "secret"));
    let actions = hub.handle_client_request(&mut data, 5, 12, Request::UserTokens).unwrap();
    assert!(matches!(reply_of(&actions, 5, 12), Response::UserTokens(64)));
    let actions = hub.handle_client_request(&mut data, 5, 13, Request::UserRegenClientKey).unwrap();
    assert!(matches!(reply_of(&actions, 5, 13), Response::UserRegenClientKey(())));
    assert_ne!(data.users[0].client_key, vec![9u8; 32]);
}

#[test]
fn changes_the_name_of_the_user() {
    let mut data = store_with_alice();
    data.insert_user("bob", String::new(), "", Vec::new()).unwrap();
    let hub = User::new(1);
    let req = |name: &str| Request::UserChangeName { new_name: name.to_string() };
    let actions = hub.handle_client_request(&mut data, 5, 1, req("bob")).unwrap();
    assert!(matches!(reply_of(&actions, 5, 1), Response::UserChangeName(r) if failure(r) == "name_taken"));
    let actions = hub.handle_client_request(&mut data, 5, 2, req("x")).unwrap();
    assert!(matches!(reply_of(&actions, 5, 2), Response::UserChangeName(r) if failure(r) == "invalid_name"));
    let actions = hub.handle_client_request(&mut data, 5, 3, req("alicia")).unwrap();
    assert!(matches!(reply_of(&actions, 5, 3), Response::UserChangeName(SimpleResult::Success)));
    assert_eq!(data.users[0].name, "alicia");
}

#[test]
fn a_stored_password_that_cannot_be_read_fails_the_request() {
    let mut data = Data::new();
    data.insert_user("alice", "broken".to_string(), "secret", Vec::new()).unwrap();
    let hub = User::new(1);
    let res = hub.handle_client_request(&mut data, 5, 1, Request::UserDelete { password: "pw".into() });
    assert!(matches!(res, Err(RequestError::UserAuth(_))));
    assert_eq!(data.users.len(), 1);
    let actions =
        hub.handle_client_message(&mut data, 5, 1, Request::UserDelete { password: "pw".into() });
    assert_eq!(actions.len(), 1);
    assert!(matches!(actions[0], Action::Conn(5, UserConnMsg::ErrorResponse { id: 1 })));
    let actions = hub.handle_client_message(&mut data, 5, 2, Request::UserEnumerateObjects);
    assert!(matches!(actions[0], Action::Conn(5, UserConnMsg::ErrorResponse { id: 2 })));
}

#[test]
fn a_wrong_password_changes_nothing() {
    let mut data = store_with_alice();
    let hub = User::new(1);
    let actions = hub
        .handle_client_request(
            &mut data,
            5,
            1,
            Request::UserChangePassword { password: "wrong".into(), new_password: "n".into() },
        )
        .unwrap();
    assert!(matches!(reply_of(&actions, 5, 1), Response::UserChangePassword(r) if failure(r) == "invalid"));
    let actions = hub
        .handle_client_request(
            &mut data,
            5,
            2,
            Request::UserChangeSecretKey { password: "wrong".into(), new_secret_key: "n".into() },
        )
        .unwrap();
    assert!(matches!(reply_of(&actions, 5, 2), Response::UserChangeSecretKey(r) if failure(r) == "invalid"));
    assert_eq!(data.users[0].secret_key, "secret");
    let actions = hub
        .handle_client_request(&mut data, 5, 3, Request::UserDelete { password: "wrong".into() })
        .unwrap();
    assert_eq!(actions.len(), 2);
    assert!(matches!(&actions[0], Action::Conn(5, UserConnMsg::Response { id: 3, data: Response::UserDelete(r) }) if failure(r) == "invalid"));
    assert!(matches!(actions[1], Action::Conn(5, UserConnMsg::ForceStop)));
    assert_eq!(data.users.len(), 1);
}

#[test]
fn the_right_password_changes_the_secret_key_and_deletes_the_user() {
    let mut data = Data::new();
    data.create_user("alice", "pw", "secret").unwrap();
    let hub = User::new(1);
    let actions = hub
        .handle_client_request(
            &mut data,
            5,
            1,
            Request::UserChangeSecretKey { password: "pw".into(), new_secret_key: "new".into() },
        )
        .unwrap();
    assert!(matches!(reply_of(&actions, 5, 1), Response::UserChangeSecretKey(SimpleResult::Success)));
    assert_eq!(data.users[0].secret_key, "new");
    let actions = hub
        .handle_client_request(&mut data, 5, 2, Request::UserDelete { password: "pw".into() })
        .unwrap();
    assert!(matches!(&actions[0], Action::Conn(5, UserConnMsg::Response { id: 2, data: Response::UserDelete(SimpleResult::Success) })));
    assert!(matches!(actions[1], Action::Conn(5, UserConnMsg::ForceStop)));
    assert!(data.users.is_empty());
}

#[test]
fn subscribes_and_unsubscribes_through_requests() {
    let mut data = store_with_alice();
    let hub = User::new(1);
    let sub = |uri: &str| Request::UserSubscribeSource { uri: uri.to_string() };
    let unsub = |uri: &str| Request::UserUnsubscribeSource { uri: uri.to_string() };
    let actions = hub.handle_client_request(&mut data, 5, 1, sub("ex:///s")).unwrap();
    assert_eq!(actions.len(), 2);
    assert!(matches!(
        &actions[0],
        Action::Dispatch(UserMgrDispatchEvent(1, DispatchUserEvent { event: Event::UserDidSubscribeSource { source }, exclude: None })) if source == "ex:///s"
    ));
    assert!(matches!(reply_of(&actions, 5, 1), Response::UserSubscribeSource(SimpleResult::Success)));
    let actions = hub.handle_client_request(&mut data, 5, 2, sub("ex:///s")).unwrap();
    assert_eq!(actions.len(), 1);
    assert!(matches!(reply_of(&actions, 5, 2), Response::UserSubscribeSource(r) if failure(r) == "already_subscribed"));
    let actions = hub.handle_client_request(&mut data, 5, 3, sub("nothing")).unwrap();
    assert!(matches!(reply_of(&actions, 5, 3), Response::UserSubscribeSource(r) if failure(r) == "invalid_uri"));
    let actions = hub.handle_client_request(&mut data, 5, 4, Request::UserSources).unwrap();
    assert!(matches!(reply_of(&actions, 5, 4), Response::UserSources(s) if s == &vec!["ex:///s".to_string()]));
    let actions = hub.handle_client_request(&mut data, 5, 5, unsub("ex:///t")).unwrap();
    assert!(matches!(reply_of(&actions, 5, 5), Response::UserUnsubscribeSource(r) if failure(r) == "not_subscribed"));
    let actions = hub.handle_client_request(&mut data, 5, 6, unsub("ex:///s")).unwrap();
    assert_eq!(actions.len(), 2);
    assert!(matches!(reply_of(&actions, 5, 6), Response::UserUnsubscribeSource(SimpleResult::Success)));
    assert!(data.user_source_subscriptions.is_empty());
}

#[test]
fn asks_the_fetcher_for_a_source_and_an_item() {
    let mut data = store_with_alice();
    let hub = User::new(1);
    let actions = hub
        .handle_client_request(&mut data, 5, 1, Request::UserRequestSource { uri: "ex:///s".into() })
        .unwrap();
    assert!(matches!(&actions[0], Action::Fetch(FetchRequest::Source(Some(1), uri)) if uri == "ex:///s"));
    assert!(matches!(reply_of(&actions, 5, 1), Response::UserRequestSource(SimpleResult::Success)));
    let actions = hub
        .handle_client_request(&mut data, 5, 2, Request::UserRequestSourceItem { uri: "ex:///a".into() })
        .unwrap();
    assert!(matches!(&actions[0], Action::Fetch(FetchRequest::SourceItem(Some(1), uri)) if uri == "ex:///a"));
    assert!(matches!(reply_of(&actions, 5, 2), Response::UserRequestSourceItem(SimpleResult::Success)));
}

#[test]
fn answers_a_request_for_a_source_with_what_the_user_sees() {
    let mut data = store_with_alice();
    let hub = User::new(1);
    let actions = hub
        .handle_client_request(&mut data, 5, 1, Request::Source { uri: "ex:///root".into() })
        .unwrap();
    assert!(matches!(reply_of(&actions, 5, 1), Response::Source(s) if !s.loaded && s.data.is_none()));
    let tags = vec![0x81, 0xa5, b't', b'i', b't', b'l', b'e', 0xa1, b'T'];
    let items = vec![SourceMetaItem { path: "/a".into(), is_virtual: false, tags: vec![0x80] }];
    let hash = data
        .create_source_version("ex:///root", &SourceMetadata { tags: tags.clone() }, &items, Some("2021-01-01"))
        .unwrap();
    data.user_update_source(1, "ex:///root", "2021-05-05T00:00:00+00:00", &hash).unwrap();
    let actions = hub
        .handle_client_request(&mut data, 5, 2, Request::Source { uri: "ex:///root".into() })
        .unwrap();
    match reply_of(&actions, 5, 2) {
        Response::Source(s) => {
            assert!(s.loaded);
            let d = s.data.as_ref().unwrap();
            assert_eq!(d.last_fetched, "2021-05-05T00:00:00+00:00");
            assert_eq!(d.last_updated, Some("2021-01-01".to_string()));
            assert_eq!(d.data, tags);
            assert_eq!(d.items.len(), 1);
            assert_eq!(d.items[0].path, "/a");
        }
        other => panic!("unexpected: {:?}", other),
    }
    // the version is gone
    data.source_versions.clear();
    let actions = hub
        .handle_client_request(&mut data, 5, 3, Request::Source { uri: "ex:///root".into() })
        .unwrap();
    assert!(matches!(reply_of(&actions, 5, 3), Response::Source(s) if !s.loaded));
}

#[test]
fn answers_requests_for_an_item_and_its_data() {
    let mut data = store_with_alice();
    let hub = User::new(1);
    let tags = vec![0x81, 0xa8, b'c', b'o', b'n', b't', b'e', b'n', b't', b's', 0xa5, b'h', b'e', b'l', b'l', b'o'];
    let hash = data
        .create_source_item_version("ex:///a", SourceItemData { tags: tags.clone() }, None)
        .unwrap();
    let actions = hub
        .handle_client_request(&mut data, 5, 1, Request::SourceItemData { uri: "ex:///a".into() })
        .unwrap();
    assert!(matches!(reply_of(&actions, 5, 1), Response::SourceItemData(None)));
    data.user_update_source_item(1, "ex:///a", "2021-05-05T00:00:00+00:00", &hash).unwrap();
    let actions = hub
        .handle_client_request(&mut data, 5, 2, Request::SourceItemData { uri: "ex:///a".into() })
        .unwrap();
    assert!(matches!(reply_of(&actions, 5, 2), Response::SourceItemData(Some(t)) if t == &tags));
    let actions = hub
        .handle_client_request(&mut data, 5, 3, Request::SourceItem { uri: "ex:///a".into() })
        .unwrap();
    match reply_of(&actions, 5, 3) {
        Response::SourceItem(s) => {
            assert!(s.loaded);
            let d = s.data.as_ref().unwrap();
            assert_eq!(d.last_fetched, "2021-05-05T00:00:00+00:00");
            assert_eq!(d.last_updated, None);
        }
        other => panic!("unexpected: {:?}", other),
    }
}

#[test]
fn user_data_reach_the_other_sessions_only() {
    let mut data = store_with_alice();
    let mut manager = UserManager::new();
    let place = manager.get_user(1);
    manager.users[place].add_session(100, 1);
    manager.users[place].add_session(200, 2);
    let other = manager.get_user(2);
    manager.users[other].add_session(300, 3);
    let actions = manager.users[place]
        .handle_client_request(
            &mut data,
            100,
            1,
            Request::SetSourceUserData { uri: "ex:///r".into(), data: vec![0xde, 0xad] },
        )
        .unwrap();
    assert_eq!(actions.len(), 2);
    assert!(matches!(reply_of(&actions, 100, 1), Response::SetSourceUserData(SimpleResult::Success)));
    match &actions[0] {
        Action::Dispatch(event) => {
            assert!(matches!(&event.1.event, Event::SourceUserDataDidUpdate { source } if source == "ex:///r"));
            assert_eq!(event.1.exclude, Some(100));
            assert_eq!(manager.dispatch(event), vec![200]);
        }
        other => panic!("unexpected: {:?}", other),
    }
    let actions = manager.users[place]
        .handle_client_request(&mut data, 100, 2, Request::SourceUserData { uri: "ex:///r".into() })
        .unwrap();
    assert!(matches!(reply_of(&actions, 100, 2), Response::SourceUserData(Some(d)) if d == &vec![0xde, 0xad]));
    let actions = manager.users[place]
        .handle_client_request(&mut data, 100, 3, Request::SourceUserData { uri: "ex:///q".into() })
        .unwrap();
    assert!(matches!(reply_of(&actions, 100, 3), Response::SourceUserData(None)));
    let actions = manager.users[place]
        .handle_client_request(
            &mut data,
            100,
            4,
            Request::SetSourceItemUserData { uri: "bad uri".into(), data: vec![1] },
        )
        .unwrap();
    assert!(matches!(reply_of(&actions, 100, 4), Response::SetSourceItemUserData(r) if failure(r) == "invalid_uri"));
}

#[test]
fn an_update_reaches_the_sessions_of_the_user_and_of_nobody_else() {
    let mut data = Data::new();
    let mut manager = UserManager::new();
    let one = manager.get_user(1);
    manager.users[one].add_session(11, 1);
    manager.users[one].add_session(12, 2);
    let two = manager.get_user(2);
    manager.users[two].add_session(21, 3);
    data.user_subscribe_source(1, "ex:///s").unwrap();
    let event = data.user_update_source(1, "ex:///s", "d", "h").unwrap();
    assert!(matches!(
        &event.1.event,
        Event::SubscribedSourceDidUpdate { source, update_type: UpdateType::Update } if source == "ex:///s"
    ));
    assert_eq!(manager.dispatch(&event), vec![11, 12]);
    // an event for a user without a hub reaches nobody
    let event = data.user_update_source(3, "ex:///s", "d", "h").unwrap();
    assert!(manager.dispatch(&event).is_empty());
    assert_eq!(manager.get_user(1), one);
    manager.stopped(1);
    let event = data.user_update_source(1, "ex:///s", "d", "h").unwrap();
    assert!(manager.dispatch(&event).is_empty());
    assert_eq!(manager.users.len(), 1);
}

#[test]
fn the_sixth_session_stops_the_oldest() {
    let mut hub = User::new(1);
    for (i, conn) in [10u64, 20, 30, 40, 50].iter().enumerate() {
        assert_eq!(hub.add_session(*conn, 100 + i as u64), None);
    }
    assert_eq!(hub.conns.len(), MAX_USER_SESSIONS);
    assert_eq!(hub.add_session(60, 200), Some(10));
    assert_eq!(hub.conns.len(), 6);
    // the oldest stays until it says that it ended
    assert_eq!(hub.handle_session_msg(SessionMsg::Remove(10), 201), (None, false));
    assert_eq!(hub.conns.len(), 5);
    assert_eq!(hub.handle_session_msg(SessionMsg::Add(70), 202), (Some(20), false));
    // a session that is added again counts once, with the new time
    assert_eq!(hub.add_session(20, 300), Some(30));
    assert_eq!(hub.conns.len(), 6);
    assert_eq!(hub.dispatch_event(None), vec![20, 30, 40, 50, 60, 70]);
    assert_eq!(hub.dispatch_event(Some(40)), vec![20, 30, 50, 60, 70]);
    assert_eq!(hub.dispatch_event(Some(99)), vec![20, 30, 40, 50, 60, 70]);
}

#[test]
fn the_hub_stops_with_its_last_session() {
    let mut hub = User::new(1);
    hub.add_session(1, 10);
    hub.add_session(2, 11);
    assert!(!hub.remove_session(3));
    assert!(!hub.remove_session(1));
    assert!(hub.remove_session(2));
    assert!(hub.conns.is_empty());
    assert!(hub.dispatch_event(None).is_empty());
}

#[test]
fn manages_domains_through_requests() {
    let mut data = store_with_alice();
    data.insert_user("bob", String::new(), "", Vec::new()).unwrap();
    let alice = User::new(1);
    let bob = User::new(2);
    let actions = alice
        .handle_client_request(&mut data, 5, 1, Request::UserCreateDomain { abbrev: "ex".into(), name: "Example".into() })
        .unwrap();
    let id = match reply_of(&actions, 5, 1) {
        Response::UserCreateDomain(r) => {
            assert!(r.success);
            assert_eq!(r.error, "");
            r.id.clone()
        }
        other => panic!("unexpected: {:?}", other),
    };
    let actions = alice
        .handle_client_request(&mut data, 5, 2, Request::UserCreateDomain { abbrev: "toolong".into(), name: "Example".into() })
        .unwrap();
    assert!(matches!(reply_of(&actions, 5, 2), Response::UserCreateDomain(r) if !r.success && r.error == "abbrev_too_long" && r.id.is_empty()));
    let actions = alice.handle_client_request(&mut data, 5, 3, Request::Domain { id: id.clone() }).unwrap();
    assert!(matches!(reply_of(&actions, 5, 3), Response::Domain(Some(d)) if d.abbrev == "ex" && d.name == "Example" && d.editable && !d.is_public));
    let actions = bob.handle_client_request(&mut data, 6, 4, Request::Domain { id: id.clone() }).unwrap();
    assert!(matches!(reply_of(&actions, 6, 4), Response::Domain(Some(d)) if !d.editable));
    let actions = bob.handle_client_request(&mut data, 6, 5, Request::Domain { id: "nonesuch".into() }).unwrap();
    assert!(matches!(reply_of(&actions, 6, 5), Response::Domain(None)));
    let actions = bob.handle_client_request(&mut data, 6, 6, Request::DomainScript { id: "nonesuch".into() }).unwrap();
    assert!(matches!(reply_of(&actions, 6, 6), Response::DomainScript(r) if !r.success && r.error == Some("not_found")));
    let update = |script: &str| Request::UserUpdateDomain {
        id: id.clone(),
        abbrev: "ex".into(),
        name: "Example".into(),
        description: "d".into(),
        is_public: true,
        script: script.to_string(),
    };
    let actions = bob.handle_client_request(&mut data, 6, 7, update("s")).unwrap();
    assert!(matches!(reply_of(&actions, 6, 7), Response::UserUpdateDomain(r) if failure(r) == "forbidden"));
    let actions = alice.handle_client_request(&mut data, 5, 8, update(&"s".repeat(262_145))).unwrap();
    assert!(matches!(reply_of(&actions, 5, 8), Response::UserUpdateDomain(r) if failure(r) == "script_too_long"));
    let actions = alice.handle_client_request(&mut data, 5, 9, update("the script")).unwrap();
    assert!(matches!(reply_of(&actions, 5, 9), Response::UserUpdateDomain(SimpleResult::Success)));
    let actions = bob.handle_client_request(&mut data, 6, 10, Request::DomainScript { id: id.clone() }).unwrap();
    assert!(matches!(reply_of(&actions, 6, 10), Response::DomainScript(r) if r.success && r.script == Some("the script".to_string())));
    let actions = bob.handle_client_request(&mut data, 6, 11, Request::PublicDomains).unwrap();
    assert!(matches!(reply_of(&actions, 6, 11), Response::UserDomains(ids) if ids == &vec![id.clone()]));
    let sub = Request::UserSubscribeDomain { id: id.clone() };
    let actions = alice.handle_client_request(&mut data, 5, 12, sub).unwrap();
    assert!(matches!(reply_of(&actions, 5, 12), Response::UserSubscribeDomain(r) if failure(r) == "is_owner"));
    let actions = bob.handle_client_request(&mut data, 6, 13, Request::UserSubscribeDomain { id: id.clone() }).unwrap();
    assert!(matches!(reply_of(&actions, 6, 13), Response::UserSubscribeDomain(SimpleResult::Success)));
    let actions = bob.handle_client_request(&mut data, 6, 14, Request::UserSubscribeDomain { id: id.clone() }).unwrap();
    assert!(matches!(reply_of(&actions, 6, 14), Response::UserSubscribeDomain(r) if failure(r) == "already_subscribed"));
    let actions = bob.handle_client_request(&mut data, 6, 15, Request::UserDomains).unwrap();
    assert!(matches!(reply_of(&actions, 6, 15), Response::UserDomains(ids) if ids == &vec![id.clone()]));
    let actions = bob.handle_client_request(&mut data, 6, 16, Request::UserUnsubscribeDomain { id: id.clone() }).unwrap();
    assert!(matches!(reply_of(&actions, 6, 16), Response::UserSubscribeDomain(SimpleResult::Success)));
    let actions = bob.handle_client_request(&mut data, 6, 17, Request::UserUnsubscribeDomain { id: id.clone() }).unwrap();
    assert!(matches!(reply_of(&actions, 6, 17), Response::UserSubscribeDomain(r) if failure(r) == "not_subscribed"));
    let actions = bob.handle_client_request(&mut data, 6, 18, Request::UserDeleteDomain { id: id.clone() }).unwrap();
    assert!(matches!(reply_of(&actions, 6, 18), Response::UserDeleteDomain(r) if failure(r) == "forbidden"));
    let actions = alice.handle_client_request(&mut data, 5, 19, Request::UserDeleteDomain { id: id.clone() }).unwrap();
    assert!(matches!(reply_of(&actions, 5, 19), Response::UserDeleteDomain(SimpleResult::Success)));
    let actions = alice.handle_client_request(&mut data, 5, 20, Request::UserDeleteDomain { id }).unwrap();
    assert!(matches!(reply_of(&actions, 5, 20), Response::UserDeleteDomain(r) if failure(r) == "not_found"));
}

#[test]
fn manages_rss_keys_through_requests() {
    let mut data = store_with_alice();
    let hub = User::new(1);
    let actions = hub
        .handle_client_request(&mut data, 5, 1, Request::UserCreateRssAuthKey { label: Some("reader".into()) })
        .unwrap();
    let key = match reply_of(&actions, 5, 1) {
        Response::UserCreateRssAuthKey(r) => {
            assert!(r.success);
            assert_eq!(r.key.len(), 64);
            assert!(r.key.chars().all(|c| c.is_ascii_hexdigit()));
            r.key.clone()
        }
        other => panic!("unexpected: {:?}", other),
    };
    let actions = hub.handle_client_request(&mut data, 5, 2, Request::UserRssAuthKeys).unwrap();
    assert!(matches!(reply_of(&actions, 5, 2), Response::UserRssAuthKeys(keys) if keys.len() == 1 && keys[0].key == key && keys[0].label == Some("reader".to_string())));
    let actions = hub
        .handle_client_request(&mut data, 5, 3, Request::UserDeleteRssAuthKey { key: key.clone() })
        .unwrap();
    assert!(matches!(reply_of(&actions, 5, 3), Response::UserDeleteRssAuthKey(SimpleResult::Success)));
    assert!(data.user_rss_auth_keys.is_empty());
    assert!(matches!(
        hub.handle_client_request(&mut data, 5, 4, Request::UserEnumerateObjects),
        Err(RequestError::InternalError)
    ));
}

#[test]
fn deletes_the_version_of_a_source_through_a_request() {
    let mut data = store_with_alice();
    let hub = User::new(1);
    data.user_update_source(1, "ex:///s", "d", "h").unwrap();
    let actions = hub
        .handle_client_request(&mut data, 5, 1, Request::UserDeleteSource { uri: "ex:///s".into() })
        .unwrap();
    assert_eq!(actions.len(), 2);
    assert!(matches!(
        &actions[0],
        Action::Dispatch(UserMgrDispatchEvent(1, DispatchUserEvent { event: Event::SubscribedSourceDidUpdate { update_type: UpdateType::Delete, .. }, .. }))
    ));
    assert!(matches!(reply_of(&actions, 5, 1), Response::UserDeleteSource(SimpleResult::Success)));
    assert!(data.user_sources[0].version_hash.is_none());
}

#[test]
fn the_oldest_session_is_told_to_stop_once() {
    let mut hub = User::new(1);
    for (i, conn) in [11u64, 12, 13, 14, 15].iter().enumerate() {
        let (actions, stop) = hub.handle(SessionMsg::Add(*conn), 100 + i as u64);
        // with five sessions or fewer nobody is told to stop
        assert!(actions.is_empty());
        assert!(!stop);
    }
    let (actions, stop) = hub.handle(SessionMsg::Add(16), 200);
    assert!(!stop);
    assert_eq!(actions.len(), 1);
    assert!(matches!(&actions[0], Action::Conn(11, UserConnMsg::ForceStop)));
    assert!(hub.conns.contains(&(16, 200)));
    // no session occurs twice
    let mut ids: Vec<u64> = hub.conns.iter().map(|c| c.0).collect();
    ids.sort();
    ids.dedup();
    assert_eq!(ids.len(), hub.conns.len());

    let (actions, stop) = hub.handle(SessionMsg::Remove(11), 201);
    assert!(actions.is_empty());
    assert!(!stop);
    for conn in [12u64, 13, 14, 15].iter() {
        assert_eq!(hub.handle(SessionMsg::Remove(*conn), 202).1, false);
    }
    let (actions, stop) = hub.handle(SessionMsg::Remove(16), 203);
    assert!(actions.is_empty());
    assert!(stop);
}

#[test]
fn finds_what_a_user_sees_of_a_source_and_an_item() {
    let mut data = store_with_alice();
    assert!(user_seen_source(&data, 1, "ex:///s").is_none());
    let meta = SourceMetadata { tags: vec![0x80] };
    let items = vec![SourceMetaItem { path: "/a".to_string(), is_virtual: false, tags: vec![0x80] }];
    let hash = data.create_source_version("ex:///s", &meta, &items, None).unwrap();
    assert_eq!(hash.len(), 128);
    assert!(user_seen_source(&data, 1, "ex:///s").is_none());
    data.user_update_source(1, "ex:///s", "2021-01-01T00:00:00+00:00", &hash).unwrap();
    let (date, version) = user_seen_source(&data, 1, "ex:///s").unwrap();
    assert_eq!(date, "2021-01-01T00:00:00+00:00");
    assert_eq!(version.items().unwrap().len(), 1);
    assert!(user_seen_source(&data, 2, "ex:///s").is_none());
    data.user_delete_source(1, "ex:///s").unwrap();
    assert!(user_seen_source(&data, 1, "ex:///s").is_none());

    let item =
        data.create_source_item_version("ex:///a", SourceItemData { tags: vec![0x80] }, None).unwrap();
    assert_eq!(item.len(), 128);
    assert!(user_seen_item(&data, 1, "ex:///a").is_none());
    data.user_update_source_item(1, "ex:///a", "d", &item).unwrap();
    let (date, version) = user_seen_item(&data, 1, "ex:///a").unwrap();
    assert_eq!(date, "d");
    assert_eq!(version.get_data().unwrap().tags, vec![0x80]);
    // a pointer at a version that is gone sees nothing
    data.user_update_source_item(1, "ex:///a", "d", "gone").unwrap();
    assert!(user_seen_item(&data, 1, "ex:///a").is_none());
}
