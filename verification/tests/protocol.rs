use aof::session::protocol::{
    parse_message, request_name, write_error_response, ClientMsg, EncodedResponse, Event,
    FetchLogItem, FetchLogTime, MsgParseError, ReqDeserError, Request, RequestFrame, RequestName,
    Response, UpdateType, WriteError, MAX_CHUNK_PAYLOAD, MAX_MSG_BUF_SIZE, MAX_MSG_SIZE,
};
use aof::console::{ConsoleMessage, MessageType, MsgFrag};
use aof::fetcher::{FetchMsg, FetchTime};

fn frame(id: u32, name: &str, payload: &[u8]) -> Vec<u8> {
    let mut msg = vec![0xc0];
    msg.extend_from_slice(&id.to_be_bytes());
    msg.push(name.len() as u8);
    msg.extend_from_slice(name.as_bytes());
    msg.extend_from_slice(payload);
    msg
}

#[test]
fn parses_a_simple_request() {
    let msg = frame(7, "user_tokens", &[]);
    match parse_message(&msg) {
        Ok(ClientMsg::Request(id, frame)) => {
            assert_eq!(id, 7);
            assert_eq!(frame.name, RequestName::UserTokens);
            assert!(frame.payload.is_empty());
            assert!(matches!(frame.decode_simple(), Some(Ok(Request::UserTokens))));
        }
        Err(e) => panic!("unexpected error: {:?}", e),
    }
}

#[test]
fn reads_the_id_with_the_most_significant_byte_first() {
    let msg = frame(0x0102_0304, "source", &[0x81]);
    match parse_message(&msg) {
        Ok(ClientMsg::Request(id, frame)) => {
            assert_eq!(id, 0x0102_0304);
            assert_eq!(frame.name, RequestName::Source);
            assert_eq!(frame.payload, vec![0x81]);
            assert!(frame.decode_simple().is_none());
        }
        Err(e) => panic!("unexpected error: {:?}", e),
    }
}

#[test]
fn rejects_an_unknown_type() {
    assert!(matches!(parse_message(&[0xc1, 0, 0]), Err(MsgParseError::UnknownType(0xc1))));
    assert!(matches!(parse_message(&[0xb8]), Err(MsgParseError::UnknownType(0xb8))));
}

#[test]
fn rejects_a_frame_that_ends_early() {
    assert!(matches!(parse_message(&[]), Err(MsgParseError::Io)));
    assert!(matches!(parse_message(&[0xc0, 0, 0]), Err(MsgParseError::Io)));
    assert!(matches!(parse_message(&[0xc0, 0, 0, 0, 1]), Err(MsgParseError::Io)));
    assert!(matches!(parse_message(&[0xc0, 0, 0, 0, 1, 4, b's', b'o']), Err(MsgParseError::Io)));
}

#[test]
fn rejects_a_name_that_is_not_utf8() {
    let msg = vec![0xc0, 0, 0, 0, 1, 2, 0xff, 0xfe];
    assert!(matches!(parse_message(&msg), Err(MsgParseError::NameUtf8)));
}

#[test]
fn rejects_an_unknown_name() {
    let msg = frame(1, "no_such_request", &[]);
    match parse_message(&msg) {
        Err(MsgParseError::ReqDeser(ReqDeserError::UnknownName(name))) => {
            assert_eq!(name, "no_such_request");
        }
        other => panic!("unexpected: {:?}", other),
    }
}

#[test]
fn rejects_trailing_bytes_behind_a_simple_request() {
    let msg = frame(1, "user_sources", &[0xc0]);
    match parse_message(&msg) {
        Ok(ClientMsg::Request(_, frame)) => {
            assert!(matches!(frame.decode_simple(), Some(Err(MsgParseError::TrailingBytes))));
        }
        Err(e) => panic!("unexpected error: {:?}", e),
    }
}

#[test]
fn finishes_a_decoded_request() {
    let frame = RequestFrame { name: RequestName::Source, payload: vec![1, 2, 3] };
    let req = Request::Source { uri: "ex:///a".to_string() };
    assert!(matches!(frame.finish(Some((req, 3))), Ok(Request::Source { .. })));
    let req = Request::Source { uri: "ex:///a".to_string() };
    assert!(matches!(frame.finish(Some((req, 2))), Err(MsgParseError::TrailingBytes)));
    let req = Request::SourceItem { uri: "ex:///a".to_string() };
    assert!(matches!(
        frame.finish(Some((req, 3))),
        Err(MsgParseError::ReqDeser(ReqDeserError::Decode))
    ));
    assert!(matches!(frame.finish(None), Err(MsgParseError::ReqDeser(ReqDeserError::Decode))));
}

#[test]
fn knows_every_request_name() {
    let names = [
        ("user_client_key", RequestName::UserClientKey),
        ("user_secret_key", RequestName::UserSecretKey),
        ("user_sources", RequestName::UserSources),
        ("user_tokens", RequestName::UserTokens),
        ("user_domains", RequestName::UserDomains),
        ("public_domains", RequestName::PublicDomains),
        ("user_rss_auth_keys", RequestName::UserRssAuthKeys),
        ("user_regen_client_key", RequestName::UserRegenClientKey),
        ("user_enumerate_objects", RequestName::UserEnumerateObjects),
        ("user_change_name", RequestName::UserChangeName),
        ("user_change_password", RequestName::UserChangePassword),
        ("user_change_secret_key", RequestName::UserChangeSecretKey),
        ("user_delete", RequestName::UserDelete),
        ("source", RequestName::Source),
        ("source_item", RequestName::SourceItem),
        ("source_item_data", RequestName::SourceItemData),
        ("source_user_data", RequestName::SourceUserData),
        ("source_item_user_data", RequestName::SourceItemUserData),
        ("user_subscribe_source", RequestName::UserSubscribeSource),
        ("user_unsubscribe_source", RequestName::UserUnsubscribeSource),
        ("user_delete_source", RequestName::UserDeleteSource),
        ("user_request_source", RequestName::UserRequestSource),
        ("user_request_source_item", RequestName::UserRequestSourceItem),
        ("set_source_user_data", RequestName::SetSourceUserData),
        ("set_source_item_user_data", RequestName::SetSourceItemUserData),
        ("user_create_domain", RequestName::UserCreateDomain),
        ("user_update_domain", RequestName::UserUpdateDomain),
        ("user_delete_domain", RequestName::UserDeleteDomain),
        ("domain", RequestName::Domain),
        ("domain_script", RequestName::DomainScript),
        ("user_subscribe_domain", RequestName::UserSubscribeDomain),
        ("user_unsubscribe_domain", RequestName::UserUnsubscribeDomain),
        ("user_create_rss_auth_key", RequestName::UserCreateRssAuthKey),
        ("user_delete_rss_auth_key", RequestName::UserDeleteRssAuthKey),
    ];
    for (text, name) in names.iter() {
        assert_eq!(request_name(text), Some(*name));
    }
    assert_eq!(request_name(""), None);
    assert_eq!(request_name("Source"), None);
    assert!(RequestName::UserTokens.has_no_payload());
    assert!(!RequestName::Source.has_no_payload());
    assert_eq!(Request::UserDelete { password: String::new() }.name(), RequestName::UserDelete);
}

#[test]
fn a_short_response_is_one_frame() {
    let mut enc = Response::encode(9, vec![1, 2, 3]).unwrap();
    assert_eq!(enc.id(), 9);
    let mut out = Vec::new();
    assert!(matches!(enc.write_chunk(&mut out), Ok(true)));
    assert_eq!(out, vec![0xc8, 0, 0, 0, 9, 0, 0, 0, 3, 1, 2, 3]);
    assert!(enc.is_done());
}

#[test]
fn an_empty_response_is_one_frame() {
    let mut enc = EncodedResponse::new(1, Vec::new()).unwrap();
    let frames = enc.write_all_chunks();
    assert_eq!(frames, vec![vec![0xc8, 0, 0, 0, 1, 0, 0, 0, 0]]);
}

#[test]
fn a_response_of_the_largest_payload_of_a_frame_is_one_frame() {
    let data = vec![7u8; MAX_CHUNK_PAYLOAD];
    let mut enc = EncodedResponse::new(2, data).unwrap();
    let frames = enc.write_all_chunks();
    assert_eq!(frames.len(), 1);
    assert_eq!(frames[0].len(), 9 + MAX_CHUNK_PAYLOAD);
    assert!(frames[0].len() <= MAX_MSG_SIZE);
}

#[test]
fn a_long_response_is_sent_in_chunks_that_reassemble() {
    let len = 16_369usize;
    let data: Vec<u8> = (0..len).map(|i| (i % 251) as u8).collect();
    let mut enc = EncodedResponse::new(0xaabbccdd, data.clone()).unwrap();
    let frames = enc.write_all_chunks();
    assert_eq!(frames.len(), 2);
    assert_eq!(&frames[0][..9], &[0xc8, 0xaa, 0xbb, 0xcc, 0xdd, 0, 0, 0x3f, 0xf1]);
    assert_eq!(&frames[1][..5], &[0xc9, 0xaa, 0xbb, 0xcc, 0xdd]);
    let mut payload = Vec::new();
    payload.extend_from_slice(&frames[0][9..]);
    payload.extend_from_slice(&frames[1][5..]);
    assert_eq!(payload, data);
    assert_eq!(frames[0].len(), 9 + 16_368);
    assert_eq!(frames[1].len(), 5 + 1);
}

#[test]
fn a_very_long_response_is_sent_in_many_chunks() {
    let len = 100_000usize;
    let data: Vec<u8> = (0..len).map(|i| (i * 7 % 256) as u8).collect();
    let mut enc = EncodedResponse::new(5, data.clone()).unwrap();
    let mut payload = Vec::new();
    let mut count = 0;
    loop {
        let mut out = Vec::new();
        let done = enc.write_chunk(&mut out).unwrap();
        assert!(out.len() <= MAX_MSG_SIZE);
        if count == 0 {
            assert_eq!(out[0], 0xc8);
            assert_eq!(&out[1..5], &[0, 0, 0, 5]);
            assert_eq!(&out[5..9], &(len as u32).to_be_bytes());
            payload.extend_from_slice(&out[9..]);
        } else {
            assert_eq!(out[0], 0xc9);
            assert_eq!(&out[1..5], &[0, 0, 0, 5]);
            payload.extend_from_slice(&out[5..]);
        }
        count += 1;
        if done {
            break;
        }
    }
    assert_eq!(count, 7);
    assert_eq!(payload, data);
}

#[test]
fn a_response_that_is_too_large_is_refused() {
    assert!(matches!(
        EncodedResponse::new(1, vec![0u8; MAX_MSG_BUF_SIZE + 1]),
        Err(WriteError::TooLarge)
    ));
    assert!(EncodedResponse::new(1, vec![0u8; MAX_MSG_BUF_SIZE]).is_ok());
}

#[test]
fn writes_an_error_response() {
    let mut out = vec![0xff];
    write_error_response(0x01020304, &mut out);
    assert_eq!(out, vec![0xff, 0xcc, 1, 2, 3, 4]);
}

#[test]
fn frames_an_event() {
    let event = Event::SubscribedSourceDidUpdate {
        source: "ex:///r".to_string(),
        update_type: UpdateType::Update,
    };
    assert_eq!(event.name(), "subscribed_source_did_update");
    let mut out = Vec::new();
    event.write(&[0x80], &mut out).unwrap();
    let mut expected = vec![0xb8, 28];
    expected.extend_from_slice(b"subscribed_source_did_update");
    expected.push(0x80);
    assert_eq!(out, expected);
}

#[test]
fn names_every_event() {
    let s = || "x".to_string();
    let events = vec![
        (Event::ProtocolError { error: s() }, "protocol_error"),
        (Event::UserDidSubscribeSource { source: s() }, "user_did_subscribe_source"),
        (Event::UserDidUnsubscribeSource { source: s() }, "user_did_unsubscribe_source"),
        (Event::UserDidSubscribeDomain { domain: s() }, "user_did_subscribe_domain"),
        (Event::UserDidUnsubscribeDomain { domain: s() }, "user_did_unsubscribe_domain"),
        (Event::SourceUserDataDidUpdate { source: s() }, "source_user_data_did_update"),
        (
            Event::SourceItemUserDataDidUpdate { source_item: s() },
            "source_item_user_data_did_update",
        ),
        (Event::SubscribedDomainDidUpdate { domain: s() }, "subscribed_domain_did_update"),
        (Event::SourceFetchDidBegin { source: s() }, "source_fetch_did_begin"),
        (
            Event::SourceFetchDidEnd { source: s(), success: true, log: Vec::new() },
            "source_fetch_did_end",
        ),
        (Event::SourceItemFetchDidBegin { source_item: s() }, "source_item_fetch_did_begin"),
        (
            Event::SourceItemFetchDidEnd { source_item: s(), success: false, log: Vec::new() },
            "source_item_fetch_did_end",
        ),
        (
            Event::SubscribedSourceDidUpdate { source: s(), update_type: UpdateType::Delete },
            "subscribed_source_did_update",
        ),
        (
            Event::SubscribedSourceItemDidUpdate {
                source_item: s(),
                update_type: UpdateType::Update,
            },
            "subscribed_source_item_did_update",
        ),
    ];
    for (event, name) in events.iter() {
        assert_eq!(event.name(), *name);
    }
    assert_eq!(UpdateType::Update.as_str(), "update");
    assert_eq!(UpdateType::Delete.as_str(), "delete");
}

#[test]
fn log_times_have_a_precision_of_sixteen_milliseconds() {
    let time = FetchTime { real: 1_234_567_890, script: 15_999_999, fetch: 16_000_000 };
    let log = FetchLogTime::from(time);
    assert_eq!(log, FetchLogTime { real: 1232, script: 0, fetch: 16 });
}

#[test]
fn turns_a_message_into_a_log_item() {
    let msg = FetchMsg {
        time: Some(FetchTime { real: 32_000_000, script: 0, fetch: 0 }),
        msg: ConsoleMessage {
            msg_type: MessageType::Warn,
            message: vec![MsgFrag::Log("a".to_string()), MsgFrag::ArgSep, MsgFrag::Number(7)],
        },
    };
    let by_ref = FetchLogItem::from_ref(&msg);
    let item = FetchLogItem::from(msg);
    assert_eq!(item.msg_type.0, "warn");
    assert_eq!(item.time, Some(FetchLogTime { real: 32, script: 0, fetch: 0 }));
    assert_eq!(format!("{:?}", item.message), "[Log(\"a\"), ArgSep, Number(7)]");
    assert_eq!(format!("{:?}", by_ref), format!("{:?}", item));
}
