use aof::data::models::User;
use aof::data::password::{Password, PasswordParseError, UserAuthError};
use aof::data::users::{CreateUserError, ModifyUserError, UserSnapshot};
use aof::data::{Data, DataError};

fn add_user(data: &mut Data, name: &str) {
    data.insert_user(name, "a2V5$c2FsdA==".to_string(), "secret", vec![7; 32]).unwrap();
}

#[test]
fn user_names_have_three_to_thirty_two_bytes_of_letters_and_digits() {
    let data = Data::new();
    assert!(data.is_valid_user_name("abc"));
    assert!(data.is_valid_user_name("alice"));
    assert!(data.is_valid_user_name("Alice42"));
    assert!(data.is_valid_user_name(&"a".repeat(32)));
    assert!(data.is_valid_user_name("日本語"));
    assert!(!data.is_valid_user_name("ab"));
    assert!(!data.is_valid_user_name(""));
    assert!(!data.is_valid_user_name(&"a".repeat(33)));
    assert!(!data.is_valid_user_name("al ice"));
    assert!(!data.is_valid_user_name("alice!"));
    assert!(!data.is_valid_user_name("a_b"));
    // eleven letters of three bytes each are too long
    assert!(!data.is_valid_user_name(&"日".repeat(11)));
    // one letter of two bytes is too short
    assert!(!data.is_valid_user_name("é"));
}

#[test]
fn users_get_ids_in_the_order_in_which_they_come() {
    let mut data = Data::new();
    add_user(&mut data, "alice");
    add_user(&mut data, "bob");
    assert_eq!(data.user_by_name("alice").unwrap().unwrap().id(), 1);
    assert_eq!(data.user_by_name("bob").unwrap().unwrap().id(), 2);
    let bob = data.user(2).unwrap().unwrap();
    assert_eq!(bob.name(), "bob");
    assert_eq!(bob.secret_key(), "secret");
    assert_eq!(bob.client_key(), &[7u8; 32]);
    assert_eq!(bob.tokens(), 64);
    assert!(data.user(3).unwrap().is_none());
    assert!(data.user_by_name("carol").unwrap().is_none());
    assert!(data.is_user_name_taken("alice").unwrap());
    assert!(!data.is_user_name_taken("carol").unwrap());
    data.delete_user(2).unwrap();
    add_user(&mut data, "carol");
    assert_eq!(data.user_by_name("carol").unwrap().unwrap().id(), 2);
}

#[test]
fn a_user_with_a_bad_or_taken_name_is_refused() {
    let mut data = Data::new();
    add_user(&mut data, "alice");
    assert_eq!(
        data.insert_user("al", String::new(), "", Vec::new()),
        Err(CreateUserError::InvalidName)
    );
    assert_eq!(
        data.insert_user("alice", String::new(), "", Vec::new()),
        Err(CreateUserError::NameTaken)
    );
    assert_eq!(data.create_user("x", "pw", "sk"), Err(CreateUserError::InvalidName));
    assert_eq!(data.create_user("alice", "pw", "sk"), Err(CreateUserError::NameTaken));
    assert_eq!(data.users.len(), 1);
}

#[test]
fn the_ids_of_users_can_be_used_up() {
    let mut data = Data::new();
    data.users.push(User {
        id: Some(i32::MAX),
        name: "last".to_string(),
        password: String::new(),
        secret_key: String::new(),
        tokens: 0,
        client_key: Vec::new(),
    });
    assert_eq!(
        data.insert_user("alice", String::new(), "", Vec::new()),
        Err(CreateUserError::Data(DataError::Database))
    );
}

#[test]
fn a_created_user_can_log_in_with_the_password() {
    let mut data = Data::new();
    data.create_user("alice", "pw", "the secret key").unwrap();
    let alice = data.user_by_name("alice").unwrap().unwrap();
    assert_eq!(alice.id(), 1);
    assert_eq!(alice.secret_key(), "the secret key");
    assert_eq!(alice.client_key().len(), 32);
    assert_eq!(alice.tokens(), 64);
    assert_eq!(alice.auth("pw"), Ok(true));
    assert_eq!(alice.auth("pW"), Ok(false));
    assert_eq!(alice.auth(""), Ok(false));
}

#[test]
fn a_password_reads_back_from_its_text() {
    let password = Password::with_salt("pw", vec![1, 2, 3, 4]).unwrap();
    assert_eq!(password.derived_key.len(), 64);
    assert_eq!(password.salt, vec![1, 2, 3, 4]);
    let text = password.to_string();
    assert!(text.ends_with("$AQIDBA=="));
    assert_eq!(text.len(), 88 + 1 + 8);
    let read = Password::from_string(&text).unwrap();
    assert_eq!(read.derived_key, password.derived_key);
    assert_eq!(read.salt, password.salt);
    assert!(read.verify("pw"));
    assert!(!read.verify("pw "));
    // the same password with another salt has another key
    let other = Password::with_salt("pw", vec![1, 2, 3, 5]).unwrap();
    assert_ne!(other.derived_key, password.derived_key);
    // and with the same salt the same key
    let same = Password::with_salt("pw", vec![1, 2, 3, 4]).unwrap();
    assert_eq!(same.derived_key, password.derived_key);
}

#[test]
fn a_stored_password_that_cannot_be_read_is_an_error() {
    assert!(matches!(Password::from_string("a2V5"), Err(PasswordParseError::NoSalt)));
    assert!(matches!(Password::from_string(""), Err(PasswordParseError::NoSalt)));
    assert!(matches!(Password::from_string("!!$c2FsdA=="), Err(PasswordParseError::InvalidBase64)));
    assert!(matches!(Password::from_string("a2V5$!!"), Err(PasswordParseError::InvalidBase64)));
    let read = Password::from_string("a2V5$c2FsdA==$more").unwrap();
    assert_eq!(read.derived_key, b"key".to_vec());
    assert_eq!(read.salt, b"salt".to_vec());
    let read = Password::from_string("$").unwrap();
    assert!(read.derived_key.is_empty() && read.salt.is_empty());
    let user = UserSnapshot::from(User {
        id: Some(1),
        name: "alice".to_string(),
        password: "broken".to_string(),
        secret_key: String::new(),
        tokens: 64,
        client_key: Vec::new(),
    });
    assert_eq!(user.auth("pw"), Err(UserAuthError::PasswordParse(PasswordParseError::NoSalt)));
}

#[test]
fn changes_the_name_the_keys_and_the_tokens_of_a_user() {
    let mut data = Data::new();
    add_user(&mut data, "alice");
    add_user(&mut data, "bob");
    let alice = data.user(1).unwrap().unwrap();
    assert_eq!(data.change_user_name(&alice, "bob"), Err(ModifyUserError::NameTaken));
    assert_eq!(data.change_user_name(&alice, "a b"), Err(ModifyUserError::InvalidName));
    assert_eq!(data.change_user_name(&alice, "alicia"), Ok(()));
    assert_eq!(data.user(1).unwrap().unwrap().name(), "alicia");
    assert_eq!(data.user(2).unwrap().unwrap().name(), "bob");
    data.change_user_secret_key(&alice, "new secret").unwrap();
    assert_eq!(data.user(1).unwrap().unwrap().secret_key(), "new secret");
    assert_eq!(data.user(2).unwrap().unwrap().secret_key(), "secret");
    data.user_regen_client_key(&alice).unwrap();
    assert_ne!(data.user(1).unwrap().unwrap().client_key(), &[7u8; 32]);
    assert_eq!(data.user(1).unwrap().unwrap().client_key().len(), 32);
    assert_eq!(data.user(2).unwrap().unwrap().client_key(), &[7u8; 32]);
    let mut alice = data.user(1).unwrap().unwrap();
    alice.set_tokens(&mut data, 3).unwrap();
    assert_eq!(alice.tokens(), 3);
    assert_eq!(data.user(1).unwrap().unwrap().tokens(), 3);
    assert_eq!(data.user(2).unwrap().unwrap().tokens(), 64);
}

#[test]
fn changes_the_password_of_a_user() {
    let mut data = Data::new();
    add_user(&mut data, "alice");
    let alice = data.user(1).unwrap().unwrap();
    data.change_user_password(&alice, "new password").unwrap();
    let alice = data.user(1).unwrap().unwrap();
    assert_eq!(alice.auth("new password"), Ok(true));
    assert_eq!(alice.auth("pw"), Ok(false));
}

#[test]
fn deleting_a_user_deletes_the_pointers_and_the_domains_of_the_user() {
    let mut data = Data::new();
    add_user(&mut data, "alice");
    add_user(&mut data, "bob");
    data.user_update_source(1, "ex:///s", "d", "h").unwrap();
    data.user_update_source(2, "ex:///s", "d", "h").unwrap();
    data.user_update_source_item(1, "ex:///a", "d", "h").unwrap();
    data.insert_domain(1, "aaaaaaaa", "ex", "Example").unwrap();
    data.insert_domain(2, "bbbbbbbb", "ex", "Example").unwrap();
    data.user_subscribe_source(1, "ex:///s").unwrap();
    data.delete_user(1).unwrap();
    assert!(data.user(1).unwrap().is_none());
    assert!(data.user(2).unwrap().is_some());
    assert_eq!(data.user_sources.len(), 1);
    assert_eq!(data.user_sources[0].user_id, 2);
    assert!(data.user_source_items.is_empty());
    assert_eq!(data.source_domains.len(), 1);
    assert_eq!(data.source_domains[0].domain, "bbbbbbbb");
    // subscriptions stay
    assert_eq!(data.user_source_subscriptions.len(), 1);
}
