use aof::clock::Timestamp;
use aof::data::registration::{is_deadline_ahead, TokenVerError};
use aof::data::Data;

#[test]
fn a_token_is_valid_until_a_second_before_its_deadline() {
    let deadline = Timestamp { secs: 1_609_459_200, nanos: 0 };
    assert!(is_deadline_ahead(deadline, Timestamp { secs: 1_609_459_199, nanos: 0 }));
    assert!(!is_deadline_ahead(deadline, Timestamp { secs: 1_609_459_199, nanos: 1 }));
    assert!(!is_deadline_ahead(deadline, Timestamp { secs: 1_609_459_200, nanos: 0 }));
    assert!(!is_deadline_ahead(deadline, Timestamp { secs: 1_700_000_000, nanos: 0 }));
    assert!(is_deadline_ahead(deadline, Timestamp { secs: 0, nanos: 0 }));
    assert!(is_deadline_ahead(deadline, Timestamp { secs: -5, nanos: 999_999_999 }));
}

#[test]
fn verifies_a_registration_token_against_its_deadline() {
    let mut data = Data::new();
    data.create_registration_token("tok", "2021-01-01T00:00:00Z").unwrap();
    data.create_registration_token("zone", "2021-01-01T01:00:00+01:00").unwrap();
    data.create_registration_token("bad", "tomorrow").unwrap();
    let before = Timestamp { secs: 1_609_459_100, nanos: 0 };
    let after = Timestamp { secs: 1_609_459_200, nanos: 0 };
    assert_eq!(data.verify_registration_token_at("tok", before), Ok(true));
    assert_eq!(data.verify_registration_token_at("tok", after), Ok(false));
    assert_eq!(data.verify_registration_token_at("zone", before), Ok(true));
    assert_eq!(data.verify_registration_token_at("zone", after), Ok(false));
    assert_eq!(data.verify_registration_token_at("none", before), Ok(false));
    assert_eq!(
        data.verify_registration_token_at("bad", before),
        Err(TokenVerError::InvalidDateFormat)
    );
    // the deadline has passed long ago
    assert_eq!(data.verify_registration_token("tok"), Ok(false));
    data.create_registration_token("far", "2999-01-01T00:00:00Z").unwrap();
    assert_eq!(data.verify_registration_token("far"), Ok(true));
    assert_eq!(data.registration_token("tok").unwrap().unwrap().valid_until, "2021-01-01T00:00:00Z");
    data.delete_registration_token("tok").unwrap();
    assert!(data.registration_token("tok").unwrap().is_none());
    assert_eq!(data.registration_tokens.len(), 3);
}

#[test]
fn keeps_the_rss_keys_of_each_user() {
    let mut data = Data::new();
    data.user_create_rss_auth_key(1, "key-one", Some("reader")).unwrap();
    data.user_create_rss_auth_key(2, "key-two", None).unwrap();
    data.user_create_rss_auth_key(1, "key-three", None).unwrap();
    let key = data.rss_auth_key("key-one").unwrap().unwrap();
    assert_eq!(key.user_id(), 1);
    assert_eq!(key.label(), Some("reader"));
    assert_eq!(key.auth_key(), "key-one");
    assert!(data.rss_auth_key("key-four").unwrap().is_none());
    let keys: Vec<String> =
        data.user_rss_auth_keys(1).unwrap().iter().map(|k| k.auth_key().to_string()).collect();
    assert_eq!(keys, vec!["key-one".to_string(), "key-three".to_string()]);
    // the key of another user is not deleted
    data.user_delete_rss_auth_key(1, "key-two").unwrap();
    assert!(data.rss_auth_key("key-two").unwrap().is_some());
    data.user_delete_rss_auth_key(1, "key-one").unwrap();
    assert!(data.rss_auth_key("key-one").unwrap().is_none());
    assert_eq!(data.user_rss_auth_keys(1).unwrap().len(), 1);
}

#[test]
fn counts_days_and_seconds() {
    assert_eq!(Timestamp { secs: 0, nanos: 0 }.day(), 719_163);
    assert_eq!(Timestamp { secs: 86_399, nanos: 999_999_999 }.day(), 719_163);
    assert_eq!(Timestamp { secs: 86_400, nanos: 0 }.day(), 719_164);
    assert_eq!(Timestamp { secs: -1, nanos: 0 }.day(), 719_162);
    assert_eq!(Timestamp { secs: -86_400, nanos: 0 }.day(), 719_162);
    assert_eq!(Timestamp { secs: -86_401, nanos: 0 }.day(), 719_161);
    let a = Timestamp { secs: 10, nanos: 500_000_000 };
    let b = Timestamp { secs: 12, nanos: 0 };
    assert_eq!(b.secs_since(a), 1);
    assert_eq!(a.secs_since(b), -1);
    assert_eq!(a.secs_since(a), 0);
    assert_eq!(Timestamp { secs: 12, nanos: 500_000_000 }.secs_since(a), 2);
}
