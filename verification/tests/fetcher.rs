use aof::console::{ConsoleMessage, MessageType, MsgFrag};
use aof::data::sources::{CreateVersionError, SourceMetaItem};
use aof::data::{Data, DataError};
use aof::fetcher::script::supervisor;
use aof::fetcher::script::{
    fetch_source, fetch_source_item, source_item_request, source_request, InlineItemData,
    ScriptError, SourceFetchData, SourceItemFetchData,
};
use aof::fetcher::{FetchAction, FetchError, FetchMsg, FetchPlan, FetchRequest, Fetcher};
use aof::session::protocol::{Event, UpdateType};

fn store_with_domain() -> Data {
    let mut data = Data::new();
    data.insert_user("alice", String::new(), "", Vec::new()).unwrap();
    data.insert_user("bob", String::new(), "", Vec::new()).unwrap();
    data.insert_domain(1, "exexexex", "ex", "Example").unwrap();
    data
}

fn title(text: &str) -> Vec<u8> {
    let mut tags = vec![0x81, 0xa5, b't', b'i', b't', b'l', b'e', 0xa0 + text.len() as u8];
    tags.extend_from_slice(text.as_bytes());
    tags
}

fn source_data(item_data: Vec<InlineItemData>) -> SourceFetchData {
    SourceFetchData {
        last_updated: None,
        tags: title("T"),
        items: vec![SourceMetaItem { path: "/a".into(), is_virtual: false, tags: title("Chapter 1") }],
        item_data,
    }
}

fn log_line(text: &str) -> FetchMsg {
    FetchMsg {
        time: None,
        msg: ConsoleMessage { msg_type: MessageType::Log, message: vec![MsgFrag::Log(text.into())] },
    }
}

#[test]
fn plans_a_fetch_for_the_user_that_asked() {
    let data = store_with_domain();
    let (plan, begin) = Fetcher::prepare_source(&data, Some(1), "exexexex://host/root?x=1").unwrap();
    assert_eq!(plan.uri, "exexexex:///root");
    assert_eq!(plan.domain, "exexexex");
    assert_eq!(plan.path, "/root");
    assert_eq!(plan.users, vec![1]);
    assert!(plan.script.contains("loadSource"));
    assert!(matches!(
        begin,
        FetchAction::Broadcast(ref users, Event::SourceFetchDidBegin { ref source }) if users == &vec![1] && source == "exexexex:///root"
    ));
}

#[test]
fn plans_an_automatic_fetch_for_every_subscriber() {
    let mut data = store_with_domain();
    data.user_subscribe_source(2, "exexexex:///root").unwrap();
    data.user_subscribe_source(1, "exexexex:///root").unwrap();
    data.user_subscribe_source(1, "exexexex:///other").unwrap();
    let (plan, _) = Fetcher::prepare_source(&data, None, "exexexex:///root").unwrap();
    assert_eq!(plan.users, vec![2, 1]);
    let (plan, begin) = Fetcher::prepare_source_item(&data, None, "exexexex:///a").unwrap();
    assert!(plan.users.is_empty());
    assert!(matches!(begin, FetchAction::Broadcast(_, Event::SourceItemFetchDidBegin { .. })));
}

#[test]
fn a_fetch_of_what_is_no_uri_or_of_no_domain_cannot_be_planned() {
    let data = store_with_domain();
    assert!(matches!(Fetcher::prepare_source(&data, Some(1), "nothing"), Err(FetchError::InvalidUri)));
    assert!(matches!(
        Fetcher::prepare_source(&data, Some(1), "nonesuch:///root"),
        Err(FetchError::DomainNotFound(ref d)) if d == "nonesuch"
    ));
    assert!(matches!(Fetcher::prepare_source_item(&data, None, ""), Err(FetchError::InvalidUri)));
    assert!(matches!(
        Fetcher::prepare_source_item(&data, None, "zz:///a"),
        Err(FetchError::DomainNotFound(_))
    ));
}

#[test]
fn stores_a_fetched_source_and_tells_the_user() {
    let mut data = store_with_domain();
    let (plan, _) = Fetcher::prepare_source(&data, Some(1), "exexexex:///root").unwrap();
    let out = Fetcher::fetch_source(
        &mut data,
        &plan,
        vec![log_line("fetching")],
        Ok(source_data(Vec::new())),
        "2021-05-05T00:00:00+00:00",
    )
    .unwrap();
    let hash = out.hash.unwrap();
    assert_eq!(hash.len(), 128);
    assert_eq!(out.messages.len(), 1);
    assert_eq!(out.actions.len(), 2);
    assert!(matches!(
        &out.actions[0],
        FetchAction::Dispatch(e) if e.0 == 1 && matches!(&e.1.event, Event::SubscribedSourceDidUpdate { source, update_type: UpdateType::Update } if source == "exexexex:///root")
    ));
    match &out.actions[1] {
        FetchAction::Broadcast(users, Event::SourceFetchDidEnd { source, success, log }) => {
            assert_eq!(users, &vec![1]);
            assert_eq!(source, "exexexex:///root");
            assert!(*success);
            assert_eq!(log.len(), 1);
            assert_eq!(log[0].msg_type.0, "log");
        }
        other => panic!("unexpected: {:?}", other),
    }
    let pointer = data.user_source(1, "exexexex:///root").unwrap().unwrap();
    assert_eq!(pointer.version_date_hash(), Some(("2021-05-05T00:00:00+00:00", hash.as_str())));
    assert!(data.user_source(2, "exexexex:///root").unwrap().is_none());
    let version = data.source_by_hash(&hash).unwrap().unwrap();
    assert_eq!(version.tags().unwrap(), title("T"));
    assert_eq!(version.items().unwrap()[0].path, "/a");
    assert_eq!(data.source_version_associated_items[0].item_uri, "exexexex:///a");
}

#[test]
fn stores_the_inline_data_of_items() {
    let mut data = store_with_domain();
    data.user_subscribe_source(1, "exexexex:///root").unwrap();
    data.user_subscribe_source(2, "exexexex:///root").unwrap();
    let (plan, _) = Fetcher::prepare_source(&data, None, "exexexex:///root").unwrap();
    assert_eq!(plan.users, vec![1, 2]);
    let contents = vec![0x81, 0xa8, b'c', b'o', b'n', b't', b'e', b'n', b't', b's', 0xa5, b'h', b'e', b'l', b'l', b'o'];
    let inline = vec![
        InlineItemData {
            path: "/a".into(),
            data: SourceItemFetchData { last_updated: Some("2021-01-01".into()), tags: contents.clone() },
        },
        InlineItemData {
            path: "/unlisted".into(),
            data: SourceItemFetchData { last_updated: None, tags: vec![0x80] },
        },
    ];
    let out = Fetcher::fetch_source(&mut data, &plan, Vec::new(), Ok(source_data(inline)), "d").unwrap();
    // two updates of the source, the end of the fetch, two updates of the item
    assert_eq!(out.actions.len(), 5);
    assert!(matches!(&out.actions[2], FetchAction::Broadcast(users, Event::SourceFetchDidEnd { success: true, .. }) if users == &vec![1, 2]));
    assert!(matches!(
        &out.actions[3],
        FetchAction::Dispatch(e) if e.0 == 1 && matches!(&e.1.event, Event::SubscribedSourceItemDidUpdate { source_item, .. } if source_item == "exexexex:///a")
    ));
    assert!(matches!(&out.actions[4], FetchAction::Dispatch(e) if e.0 == 2));
    assert_eq!(data.source_item_versions.len(), 1);
    for user in [1, 2] {
        let pointer = data.user_source_item(user, "exexexex:///a").unwrap().unwrap();
        let (_, hash) = pointer.version_date_hash().unwrap();
        let version = data.source_item_by_hash(hash).unwrap().unwrap();
        assert_eq!(version.get_data().unwrap().tags, contents);
        assert_eq!(version.date_updated(), Some("2021-01-01"));
    }
}

#[test]
fn a_failed_run_changes_nothing_and_ends_the_log_with_the_error() {
    let mut data = store_with_domain();
    let (plan, _) = Fetcher::prepare_source(&data, Some(1), "exexexex:///root").unwrap();
    let out = Fetcher::fetch_source(
        &mut data,
        &plan,
        vec![log_line("one")],
        Err(ScriptError::Timeout),
        "d",
    )
    .unwrap();
    assert!(out.hash.is_none());
    assert_eq!(out.messages.len(), 2);
    assert_eq!(out.messages[1].msg.msg_type, MessageType::Error);
    assert!(matches!(&out.messages[1].msg.message[..], [MsgFrag::Log(text)] if text == "script timed out (infinite loop?)"));
    assert_eq!(out.actions.len(), 1);
    match &out.actions[0] {
        FetchAction::Broadcast(users, Event::SourceFetchDidEnd { success, log, .. }) => {
            assert_eq!(users, &vec![1]);
            assert!(!*success);
            assert_eq!(log.len(), 2);
            assert_eq!(log[1].msg_type.0, "error");
        }
        other => panic!("unexpected: {:?}", other),
    }
    assert!(data.source_versions.is_empty());
    assert!(data.user_sources.is_empty());
}

#[test]
fn stores_a_fetched_item_for_the_subscribers_of_its_source() {
    let mut data = store_with_domain();
    data.user_subscribe_source(2, "exexexex:///root").unwrap();
    let (plan, _) = Fetcher::prepare_source(&data, None, "exexexex:///root").unwrap();
    Fetcher::fetch_source(&mut data, &plan, Vec::new(), Ok(source_data(Vec::new())), "d").unwrap();
    let (plan, _) = Fetcher::prepare_source_item(&data, None, "exexexex:///a").unwrap();
    assert_eq!(plan.users, vec![2]);
    let item = SourceItemFetchData { last_updated: None, tags: vec![0x80] };
    let out = Fetcher::fetch_source_item(&mut data, &plan, None, Vec::new(), Ok(item), "d2").unwrap();
    assert_eq!(out.actions.len(), 2);
    assert!(matches!(&out.actions[0], FetchAction::Dispatch(e) if e.0 == 2));
    assert!(matches!(&out.actions[1], FetchAction::Broadcast(users, Event::SourceItemFetchDidEnd { success: true, .. }) if users == &vec![2]));
    let pointer = data.user_source_item(2, "exexexex:///a").unwrap().unwrap();
    assert_eq!(pointer.version_date_hash().unwrap().0, "d2");
    let out = Fetcher::fetch_source_item(
        &mut data,
        &plan,
        Some(1),
        Vec::new(),
        Err(ScriptError::Script("boom".into())),
        "d3",
    )
    .unwrap();
    assert!(out.hash.is_none());
    assert!(matches!(&out.messages[0].msg.message[..], [MsgFrag::Log(text)] if text == "failed to run script: boom"));
    assert!(matches!(&out.actions[0], FetchAction::Broadcast(users, Event::SourceItemFetchDidEnd { success: false, .. }) if users == &vec![2]));
}

#[test]
fn a_fetch_that_did_not_begin_is_still_seen_by_the_user_that_asked() {
    let request = FetchRequest::Source(Some(7), "bad".to_string());
    let actions = Fetcher::handle(&request, &FetchError::InvalidUri);
    assert_eq!(actions.len(), 2);
    assert!(matches!(&actions[0], FetchAction::Broadcast(users, Event::SourceFetchDidBegin { source }) if users == &vec![7] && source == "bad"));
    match &actions[1] {
        FetchAction::Broadcast(users, Event::SourceFetchDidEnd { source, success, log }) => {
            assert_eq!(users, &vec![7]);
            assert_eq!(source, "bad");
            assert!(!*success);
            assert_eq!(log.len(), 1);
            assert_eq!(log[0].msg_type.0, "error");
            assert_eq!(format!("{:?}", log[0].message), "[Log(\"invalid uri\")]");
        }
        other => panic!("unexpected: {:?}", other),
    }
    let request = FetchRequest::SourceItem(Some(7), "zz:///a".to_string());
    let actions = Fetcher::handle(&request, &FetchError::DomainNotFound("zz".into()));
    assert!(matches!(&actions[0], FetchAction::Broadcast(_, Event::SourceItemFetchDidBegin { .. })));
    assert!(matches!(&actions[1], FetchAction::Broadcast(_, Event::SourceItemFetchDidEnd { success: false, .. })));
    assert!(Fetcher::handle(&FetchRequest::Source(None, "bad".into()), &FetchError::InvalidUri).is_empty());
}

#[test]
fn errors_of_a_fetch_have_texts() {
    assert_eq!(FetchError::InvalidUri.message(), "invalid uri");
    assert_eq!(FetchError::DomainNotFound("x".into()).message(), "no such domain");
    assert_eq!(
        FetchError::Create(CreateVersionError::Encode).message(),
        "failed to create source version: encode error"
    );
    assert_eq!(
        FetchError::Create(CreateVersionError::IoError).message(),
        "failed to create source version: io error"
    );
    assert_eq!(
        FetchError::Create(CreateVersionError::InvalidUri).message(),
        "failed to create source version: invalid uri"
    );
    assert_eq!(FetchError::Data(DataError::Database).message(), "database error");
    assert_eq!(FetchError::Data(DataError::Decode).message(), "data decode error");
    assert_eq!(FetchError::Data(DataError::Io).message(), "io error");
    assert_eq!(ScriptError::Parse("x".into()).message(), "failed to parse data: x");
    assert_eq!(supervisor::ScriptError::Timeout.message(), "script execution took too long (infinite loop?)");
    assert_eq!(supervisor::ScriptError::NoResult.message(), "script ended without result");
    assert_eq!(supervisor::ScriptError::Fatal("f".into()).message(), "fatal: f");
    assert_eq!(supervisor::ScriptError::Exec("e".into()).message(), "script execution error: e");
}

#[test]
fn maps_the_outcome_of_a_run() {
    assert!(matches!(fetch_source(Err(supervisor::ScriptError::Timeout)), Err(ScriptError::Timeout)));
    assert!(matches!(
        fetch_source(Err(supervisor::ScriptError::NoResult)),
        Err(ScriptError::Script(ref s)) if s == "script execution ended with no result"
    ));
    assert!(matches!(
        fetch_source_item(Err(supervisor::ScriptError::NoResult)),
        Err(ScriptError::Script(ref s)) if s == "script completed with no result"
    ));
    assert!(matches!(
        fetch_source(Err(supervisor::ScriptError::Exec("x".into()))),
        Err(ScriptError::Script(ref s)) if s == "x"
    ));
    assert!(matches!(
        fetch_source_item(Err(supervisor::ScriptError::Fatal("y".into()))),
        Err(ScriptError::Script(ref s)) if s == "y"
    ));
    assert!(matches!(fetch_source(Ok(Err("missing field".into()))), Err(ScriptError::Parse(ref s)) if s == "missing field"));
    assert!(matches!(fetch_source(Ok(Ok(source_data(Vec::new())))), Ok(ref d) if d.items.len() == 1));
    assert!(matches!(
        source_request("d", "s", "/p"),
        supervisor::Fetch::Source { ref domain, ref script, ref path } if domain == "d" && script == "s" && path == "/p"
    ));
    assert!(matches!(source_item_request("d", "s", "/p"), supervisor::Fetch::SourceItem { .. }));
    let date = Fetcher::fetch_date().unwrap();
    assert!(date.contains('T'));
    assert!(date.ends_with("+00:00"));
}

#[test]
fn a_version_that_cannot_be_created_fails_the_fetch_before_anybody_is_told() {
    let mut data = store_with_domain();
    let plan = FetchPlan {
        uri: "no uri".to_string(),
        domain: "exexexex".to_string(),
        script: String::new(),
        path: "/root".to_string(),
        users: vec![1, 2],
    };
    let failure =
        Fetcher::fetch_source(&mut data, &plan, Vec::new(), Ok(source_data(Vec::new())), "d")
            .unwrap_err();
    assert!(matches!(failure.error, FetchError::Create(CreateVersionError::InvalidUri)));
    assert!(failure.actions.is_empty());
    assert!(data.source_versions.is_empty());
    assert!(data.user_sources.is_empty());
}

#[test]
fn inline_data_that_the_store_holds_are_not_stored_again() {
    let mut data = store_with_domain();
    let (plan, _) = Fetcher::prepare_source(&data, Some(1), "exexexex:///root").unwrap();
    let inline = || {
        vec![InlineItemData {
            path: "/a".to_string(),
            data: SourceItemFetchData { last_updated: None, tags: title("hello") },
        }]
    };
    let first =
        Fetcher::fetch_source(&mut data, &plan, Vec::new(), Ok(source_data(inline())), "d1").unwrap();
    let second =
        Fetcher::fetch_source(&mut data, &plan, Vec::new(), Ok(source_data(inline())), "d2").unwrap();
    assert_eq!(first.hash, second.hash);
    assert_eq!(first.hash.as_ref().unwrap().len(), 128);
    assert_eq!(data.source_versions.len(), 1);
    assert_eq!(data.source_item_versions.len(), 1);
    assert_eq!(data.user_source_items.len(), 1);
    let pointer = data.user_source_item(1, "exexexex:///a").unwrap().unwrap();
    assert_eq!(pointer.version_date_hash().unwrap().0, "d2");
}
