use aof::clock::Timestamp;
use aof::data::users::CreateUserError;
use aof::data::Data;
use aof::http_api::login::{
    find_user, get_earliest_response_delay, get_user_session, login_max_age, SessionError,
    MAX_AGE_PERSIST,
};
use aof::http_api::registration::{is_name_available, register, registration_error, verify_token};
use aof::http_api::resources::{is_forwarded_header, is_received_header};
use aof::http_api::rss::{
    blockquotes, item_contents, latest_items, source_uri, Note, DEFAULT_ITEM_COUNT,
};
use aof::script_host::{
    exec_source, exec_specifier, module_source, module_specifier, replace_all, script_modules,
    ModLoader,
};
use aof::session::cookie::{CookieData, Session, SessionStatus};
use aof::startup::{parse_i64, read_expiry, token_from, TOKEN_LEN};

const NOW: Timestamp = Timestamp { secs: 1_600_000_000, nanos: 5 };

fn store_with_alice() -> Data {
    let mut data = Data::new();
    data.insert_user("alice", "a2V5$c2FsdA==".to_string(), "secret", vec![7; 32]).unwrap();
    data.create_registration_token("tok", "2021-01-01T00:00:00Z").unwrap();
    data
}

#[test]
fn a_session_that_nothing_touched_sets_no_cookie() {
    let session = Session::new();
    assert_eq!(session.get(), "");
    let (status, cookie) = session.get_changes();
    assert_eq!(status, SessionStatus::Unchanged);
    assert!(cookie.is_none());

    let loaded = Session::load(CookieData { data: "{\"user_id\":1}".to_string(), max_age: 60 });
    assert_eq!(loaded.get(), "{\"user_id\":1}");
    let (status, cookie) = loaded.get_changes();
    assert_eq!(status, SessionStatus::Unchanged);
    assert!(cookie.is_none());
}

#[test]
fn a_changed_session_sets_its_cookie_with_its_age() {
    let mut session = Session::new();
    session.set("data".to_string());
    let (status, cookie) = session.get_changes();
    assert_eq!(status, SessionStatus::Changed);
    let cookie = cookie.unwrap();
    assert_eq!(cookie.data, "data");
    assert_eq!(cookie.max_age, 0);

    let mut session = Session::new();
    session.set("data".to_string());
    session.set_max_age(login_max_age(true));
    let (_, cookie) = session.get_changes();
    assert_eq!(cookie.unwrap().max_age, 2_592_000);

    let mut session = Session::load(CookieData { data: "kept".to_string(), max_age: 60 });
    session.renew();
    let (status, cookie) = session.get_changes();
    assert_eq!(status, SessionStatus::Changed);
    let cookie = cookie.unwrap();
    assert_eq!(cookie.data, "kept");
    assert_eq!(cookie.max_age, 60);
}

#[test]
fn the_age_of_a_cookie_is_cut_to_thirty_two_bits() {
    let mut session = Session::new();
    session.set_max_age(Some(i64::MAX));
    assert_eq!(session.get_changes().1.unwrap().max_age, i32::MAX);
    let mut session = Session::new();
    session.set_max_age(Some(i64::MIN));
    assert_eq!(session.get_changes().1.unwrap().max_age, i32::MIN);
    let mut session = Session::new();
    session.set_max_age(Some(-1));
    assert_eq!(session.get_changes().1.unwrap().max_age, -1);
    let mut session = Session::load(CookieData { data: String::new(), max_age: 60 });
    session.set_max_age(None);
    assert_eq!(session.get_changes().1.unwrap().max_age, 0);
}

#[test]
fn a_deleted_session_stays_deleted() {
    let mut session = Session::load(CookieData { data: "kept".to_string(), max_age: 60 });
    session.delete();
    session.set("other".to_string());
    session.set_max_age(Some(5));
    session.renew();
    assert_eq!(session.get(), "kept");
    let (status, cookie) = session.get_changes();
    assert_eq!(status, SessionStatus::Removed);
    assert!(cookie.is_none());
}

#[test]
fn a_session_belongs_to_the_user_that_its_data_name() {
    let data = store_with_alice();
    let user = get_user_session(&data, Some(1)).unwrap();
    assert!(user.has_id());
    assert_eq!(user.id(), 1);
    assert_eq!(user.name(), "alice");
    assert_eq!(get_user_session(&data, Some(2)).err(), Some(SessionError::NoSession));
    assert_eq!(get_user_session(&data, None).err(), Some(SessionError::NoSession));
}

#[test]
fn a_login_that_persists_lasts_thirty_days() {
    assert_eq!(MAX_AGE_PERSIST, 30 * 24 * 3600);
    assert_eq!(login_max_age(true), Some(2_592_000));
    assert_eq!(login_max_age(false), None);
}

#[test]
fn a_failed_login_takes_between_one_and_two_seconds() {
    assert_eq!(get_earliest_response_delay(0), 1000);
    assert_eq!(get_earliest_response_delay(2047), 1000);
    assert_eq!(get_earliest_response_delay(1 << 63), 1500);
    assert_eq!(get_earliest_response_delay(1 << 62), 1250);
    assert_eq!(get_earliest_response_delay(u64::MAX), 1999);
}

#[test]
fn a_name_is_available_to_the_holder_of_a_valid_token() {
    let data = store_with_alice();
    assert!(verify_token(&data, "tok", NOW));
    assert!(!verify_token(&data, "tok", Timestamp { secs: 1_609_459_200, nanos: 0 }));
    assert!(!verify_token(&data, "none", NOW));

    assert_eq!(is_name_available(&data, "tok", "bob", NOW), (true, ""));
    assert_eq!(is_name_available(&data, "tok", "alice", NOW), (false, "name_taken"));
    assert_eq!(is_name_available(&data, "none", "bob", NOW), (false, "invalid_token"));
    assert_eq!(is_name_available(&data, "none", "b", NOW), (false, "invalid_name"));
    assert_eq!(is_name_available(&data, "tok", "b", NOW), (false, "invalid_name"));
}

#[test]
fn names_the_reason_why_a_registration_failed() {
    assert_eq!(registration_error(CreateUserError::InvalidName), "invalid_name");
    assert_eq!(registration_error(CreateUserError::NameTaken), "name_taken");
    assert_eq!(registration_error(CreateUserError::PasswordDerivationError), "internal_error");
    assert_eq!(
        registration_error(CreateUserError::Data(aof::data::DataError::Database)),
        "internal_error"
    );
}

#[test]
fn a_registration_uses_its_token_up() {
    let mut data = store_with_alice();
    assert_eq!(register(&mut data, "none", "bob", "pw", "key", NOW), Err("invalid_token"));
    assert_eq!(register(&mut data, "tok", "alice", "pw", "key", NOW), Err("name_taken"));
    assert_eq!(register(&mut data, "tok", "b", "pw", "key", NOW), Err("invalid_name"));
    assert_eq!(data.users.len(), 1);
    assert!(data.registration_token("tok").unwrap().is_some());

    assert_eq!(register(&mut data, "tok", "bob", "pw", "key", NOW), Ok(()));
    let bob = data.user_by_name("bob").unwrap().unwrap();
    assert_eq!(bob.id(), 2);
    assert_eq!(bob.secret_key(), "key");
    assert_eq!(bob.auth("pw"), Ok(true));
    assert_eq!(bob.auth("other"), Ok(false));
    assert!(data.registration_token("tok").unwrap().is_none());
    assert_eq!(register(&mut data, "tok", "carol", "pw", "key", NOW), Err("invalid_token"));
}

#[test]
fn the_proxy_passes_some_headers_on() {
    for name in ["accept", "accept-encoding", "if-none-match", "range", "pragma"].iter() {
        assert!(is_forwarded_header(name), "{}", name);
    }
    for name in ["cookie", "authorization", "host", "user-agent", "referer", "Accept", ""].iter() {
        assert!(!is_forwarded_header(name), "{}", name);
    }
    for name in ["content-type", "content-length", "etag", "transfer-encoding", "date"].iter() {
        assert!(is_received_header(name), "{}", name);
    }
    for name in ["set-cookie", "location", "x-frame-options", "Content-Type", ""].iter() {
        assert!(!is_received_header(name), "{}", name);
    }
}

#[test]
fn a_feed_names_its_source_by_domain_and_path() {
    assert_eq!(source_uri("ex", "a/b"), Ok("ex:///a/b".to_string()));
    assert_eq!(source_uri("EX", ""), Ok("ex:///".to_string()));
    assert_eq!(source_uri("no scheme", "a"), Err(()));
    assert_eq!(source_uri("", "a"), Err(()));
}

#[test]
fn a_feed_renders_the_latest_items_first() {
    assert_eq!(DEFAULT_ITEM_COUNT, 20);
    assert_eq!(latest_items(5, 2), vec![4, 3]);
    assert_eq!(latest_items(2, 20), vec![1, 0]);
    assert_eq!(latest_items(3, 3), vec![2, 1, 0]);
    assert_eq!(latest_items(0, 3), Vec::<usize>::new());
    assert_eq!(latest_items(3, 0), Vec::<usize>::new());
}

#[test]
fn the_contents_of_an_item_are_its_preface_its_text_and_its_appendix() {
    let notes = vec![
        Note { heading: "Summary".to_string(), text: "short".to_string() },
        Note { heading: "Notes".to_string(), text: "<p>more</p>".to_string() },
    ];
    let html = blockquotes(&notes);
    assert_eq!(
        html,
        "<blockquote><h3>Summary</h3>short</blockquote>\
         <blockquote><h3>Notes</h3><p>more</p></blockquote>"
    );
    assert_eq!(blockquotes(&Vec::new()), "");

    assert_eq!(item_contents(None, None, None), None);
    assert_eq!(item_contents(None, Some("main".to_string()), None), Some("main".to_string()));
    assert_eq!(
        item_contents(Some("pre".to_string()), Some("main".to_string()), Some("app".to_string())),
        Some("premainapp".to_string())
    );
    assert_eq!(item_contents(Some(String::new()), None, None), Some(String::new()));
    assert_eq!(
        item_contents(Some("pre".to_string()), None, Some("app".to_string())),
        Some("preapp".to_string())
    );
}

#[test]
fn a_token_has_a_letter_for_each_draw() {
    assert_eq!(TOKEN_LEN, 8);
    assert_eq!(token_from(&vec![0, 1, 25, 26, 27, 51]), "abzabz");
    assert_eq!(token_from(&vec![7; 8]), "hhhhhhhh");
    assert_eq!(token_from(&Vec::new()), "");
    assert_eq!(token_from(&vec![usize::MAX]).len(), 1);
}

#[test]
fn reads_the_expiry_of_a_token() {
    assert_eq!(read_expiry("", NOW), Some(Timestamp { secs: 1_600_086_400, nanos: 5 }));
    assert_eq!(read_expiry("3600", NOW), Some(Timestamp { secs: 1_600_003_600, nanos: 5 }));
    assert_eq!(read_expiry("-5", NOW), Some(Timestamp { secs: 1_599_999_995, nanos: 5 }));
    assert_eq!(read_expiry("0", NOW), Some(NOW));
    assert_eq!(
        read_expiry("2021-01-01T00:00:00Z", NOW),
        Some(Timestamp { secs: 1_609_459_200, nanos: 0 })
    );
    assert_eq!(
        read_expiry("2021-01-01T01:00:00.5+01:00", NOW),
        Some(Timestamp { secs: 1_609_459_200, nanos: 500_000_000 })
    );
    assert_eq!(read_expiry("soon", NOW), None);
    assert_eq!(read_expiry("3600 ", NOW), None);
    assert_eq!(read_expiry("9223372036854775807", NOW), None);
    assert_eq!(read_expiry("99999999999999999999", NOW), None);
}

#[test]
fn names_the_modules_of_a_run() {
    assert_eq!(module_specifier("dom"), "aof://dom");
    assert_eq!(module_specifier(""), "aof://");
    assert_eq!(exec_specifier(), "aof://script_exec");
    assert_eq!(module_source("export const a = 1;"), "var Deno = null;export const a = 1;");
}

#[test]
fn loads_the_module_that_was_put_under_a_specifier_last() {
    let mut loader = ModLoader::new();
    assert_eq!(loader.load("aof://dom"), None);
    loader.insert("aof://dom".to_string(), "one".to_string());
    loader.insert("aof://script_exec".to_string(), "run".to_string());
    assert_eq!(loader.load("aof://dom"), Some("one".to_string()));
    assert_eq!(loader.load("aof://script_exec"), Some("run".to_string()));
    assert_eq!(loader.load("aof://other"), None);
    loader.insert("aof://dom".to_string(), "two".to_string());
    assert_eq!(loader.load("aof://dom"), Some("two".to_string()));
    assert_eq!(loader.load("aof://script_exec"), Some("run".to_string()));
    assert_eq!(loader.modules.len(), 2);
}

#[test]
fn resolves_an_import_against_the_module_that_imports() {
    let loader = ModLoader::new();
    assert_eq!(loader.resolve("aof://dom", "aof://other"), Some("aof://dom".to_string()));
    assert_eq!(loader.resolve("AOF://dom", "no url"), Some("aof://dom".to_string()));
    assert_eq!(loader.resolve("./x", "aof://dom/dir/a"), Some("aof://dom/dir/x".to_string()));
    assert_eq!(loader.resolve("x", "aof://dom/dir/a"), Some("aof://dom/dir/x".to_string()));
    assert_eq!(loader.resolve("/x", "aof://dom/dir/a"), Some("aof://dom/x".to_string()));
    assert_eq!(loader.resolve("x", "no url"), None);
    assert_eq!(loader.resolve("http://[", "aof://dom"), None);
}

#[test]
fn replaces_each_occurrence_of_a_pattern_from_the_left() {
    assert_eq!(replace_all("a.b.c", ".", "--"), "a--b--c");
    assert_eq!(replace_all("aaa", "aa", "b"), "ba");
    assert_eq!(replace_all("abab", "ab", "ab"), "abab");
    assert_eq!(replace_all("h\u{e4}h", "\u{e4}", "ae"), "haeh");
    assert_eq!(replace_all("abc", "abcd", "x"), "abc");
    assert_eq!(replace_all("abc", "abc", ""), "");
    assert_eq!(replace_all("abc", "", "x"), "abc");
    assert_eq!(replace_all("", "a", "b"), "");
    assert_eq!(replace_all("xx###MODULE###yy", "###MODULE###", "m"), "xxmyy");
}

#[test]
fn the_module_that_calls_the_script_names_it_between_quotes() {
    assert_eq!(
        exec_source("import * as s from \"###MODULE###\";", "aof://dom"),
        "import * as s from \"aof://dom\";"
    );
    assert_eq!(exec_source("\"###MODULE###\"", "a\"b"), "\"a\\\"b\"");
    assert_eq!(exec_source("no place", "aof://dom"), "no place");
}

#[test]
fn a_run_has_the_module_of_the_script_and_the_module_that_calls_it() {
    let (loader, exec) =
        script_modules("dom", "export const a = 1;", "load(\"###MODULE###\")").unwrap();
    assert_eq!(exec, "aof://script_exec");
    assert_eq!(loader.modules.len(), 2);
    assert_eq!(loader.load("aof://dom"), Some("var Deno = null;export const a = 1;".to_string()));
    assert_eq!(loader.load("aof://script_exec"), Some("load(\"aof://dom\")".to_string()));

    // the module that calls the script takes the place of a script of its name
    let (loader, exec) = script_modules("script_exec", "x", "run").unwrap();
    assert_eq!(loader.modules.len(), 1);
    assert_eq!(loader.load(&exec), Some("run".to_string()));

    assert!(script_modules("[", "x", "run").is_none());
}

#[test]
fn reads_a_number_in_decimal() {
    assert_eq!(parse_i64("0"), Some(0));
    assert_eq!(parse_i64("42"), Some(42));
    assert_eq!(parse_i64("+7"), Some(7));
    assert_eq!(parse_i64("-7"), Some(-7));
    assert_eq!(parse_i64("007"), Some(7));
    assert_eq!(parse_i64("-0"), Some(0));
    assert_eq!(parse_i64("9223372036854775807"), Some(i64::MAX));
    assert_eq!(parse_i64("-9223372036854775808"), Some(i64::MIN));
    assert_eq!(parse_i64("9223372036854775808"), None);
    assert_eq!(parse_i64("-9223372036854775809"), None);
    assert_eq!(parse_i64("00000000000000000000000000000000000000001"), Some(1));
    assert_eq!(parse_i64("100000000000000000000000000000000000000000"), None);
    for text in ["", "-", "+", "+-1", "1_000", " 1", "1 ", "1.5", "0x10", "\u{661}", "a"].iter() {
        assert_eq!(parse_i64(text), None, "{:?}", text);
        assert_eq!(text.parse::<i64>().ok(), None, "{:?}", text);
    }
    for text in ["12", "-12", "+12", "0012"].iter() {
        assert_eq!(parse_i64(text), text.parse::<i64>().ok(), "{:?}", text);
    }
}

#[test]
fn a_name_is_stored_and_found_in_its_composed_form() {
    let mut data = store_with_alice();
    // the accent stands behind the letter: no valid name as it is
    let decomposed = "cafe\u{301}";
    assert!(!data.is_valid_user_name(decomposed));
    assert_eq!(register(&mut data, "tok", decomposed, "pw", "key", NOW), Ok(()));
    let user = data.user_by_name("caf\u{e9}").unwrap().unwrap();
    assert_eq!(user.name(), "caf\u{e9}");
    assert!(data.user_by_name(decomposed).unwrap().is_none());
    assert_eq!(find_user(&data, decomposed).unwrap().unwrap().name(), "caf\u{e9}");
    assert_eq!(find_user(&data, "caf\u{e9}").unwrap().unwrap().name(), "caf\u{e9}");
    assert_eq!(find_user(&data, "alice").unwrap().unwrap().id(), 1);
    assert!(find_user(&data, "bob").unwrap().is_none());
}
