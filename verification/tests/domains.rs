use aof::data::domains::{
    check_abbrev_and_name, check_domain_texts, domain_id_char, domain_id_from, gen_domain_id,
    UpdateDomainError, DEFAULT_SCRIPT,
};
use aof::data::models::SourceDomain;
use aof::data::{Data, DataError};

#[test]
fn the_abbrev_has_one_to_six_grapheme_clusters() {
    assert_eq!(check_abbrev_and_name("", "Example"), Err(UpdateDomainError::AbbrevTooShort));
    assert_eq!(check_abbrev_and_name("abcdefg", "Example"), Err(UpdateDomainError::AbbrevTooLong));
    assert_eq!(check_abbrev_and_name("abcdef", "Example"), Ok(()));
    assert_eq!(check_abbrev_and_name("ex", ""), Err(UpdateDomainError::NameTooShort));
    assert_eq!(check_abbrev_and_name("ex", &"n".repeat(129)), Err(UpdateDomainError::NameTooLong));
    assert_eq!(check_abbrev_and_name("ex", &"n".repeat(128)), Ok(()));
    // seven letters with a combining mark each are seven clusters
    assert_eq!(
        check_abbrev_and_name(&"e\u{301}".repeat(7), "Example"),
        Err(UpdateDomainError::AbbrevTooLong)
    );
    // six of them are six, though they are twelve characters
    assert_eq!(check_abbrev_and_name(&"e\u{301}".repeat(6), "Example"), Ok(()));
    // the abbrev is checked before the name
    assert_eq!(check_abbrev_and_name("", ""), Err(UpdateDomainError::AbbrevTooShort));
}

#[test]
fn the_description_and_the_script_have_a_greatest_length() {
    assert_eq!(check_domain_texts("ex", "Example", &"d".repeat(2048), ""), Ok(()));
    assert_eq!(
        check_domain_texts("ex", "Example", &"d".repeat(2049), ""),
        Err(UpdateDomainError::DescriptionTooLong)
    );
    assert_eq!(check_domain_texts("ex", "Example", "", &"s".repeat(262_144)), Ok(()));
    assert_eq!(
        check_domain_texts("ex", "Example", "", &"s".repeat(262_145)),
        Err(UpdateDomainError::ScriptTooLong)
    );
    // the script is measured in bytes
    assert_eq!(
        check_domain_texts("ex", "Example", "", &"é".repeat(131_073)),
        Err(UpdateDomainError::ScriptTooLong)
    );
    assert_eq!(
        check_domain_texts("", "Example", &"d".repeat(2049), ""),
        Err(UpdateDomainError::AbbrevTooShort)
    );
}

#[test]
fn domain_ids_are_eight_lower_case_letters() {
    assert_eq!(domain_id_from(&vec![0, 1, 2, 25, 26, 27, 10, 11]), "abczablk");
    assert_eq!(domain_id_char(10), "l");
    assert_eq!(domain_id_char(11), "k");
    assert_eq!(domain_id_char(25), "z");
    assert_eq!(domain_id_from(&Vec::new()), "");
    for _ in 0..20 {
        let id = gen_domain_id();
        assert_eq!(id.len(), 8);
        assert!(id.chars().all(|c| c.is_ascii_lowercase()));
    }
}

#[test]
fn creates_a_domain_with_the_default_script() {
    let mut data = Data::new();
    let id = data.create_domain(1, "ex", "Example").unwrap();
    assert_eq!(id.len(), 8);
    assert!(data.is_domain_id_taken(&id).unwrap());
    let domain = data.domain_by_domain_id(&id).unwrap().unwrap();
    assert_eq!(domain.id(), id);
    assert_eq!(domain.owner_id(), 1);
    assert_eq!(domain.abbrev(), "ex");
    assert_eq!(domain.name(), "Example");
    assert_eq!(domain.description(), "");
    assert!(!domain.is_public());
    assert_eq!(domain.script(), DEFAULT_SCRIPT);
    assert!(DEFAULT_SCRIPT.starts_with("// write your script here\n\nexport async function loadSource(path) {"));
    assert!(data.domain(1).unwrap().is_some());
    assert!(data.domain(2).unwrap().is_none());
    assert_eq!(data.create_domain(1, "", "Example"), Err(UpdateDomainError::AbbrevTooShort));
    assert_eq!(data.create_domain(1, "ex", ""), Err(UpdateDomainError::NameTooShort));
    assert_eq!(data.source_domains.len(), 1);
    let other = data.create_domain(1, "ex", "Example").unwrap();
    assert_ne!(other, id);
    assert_eq!(data.domain_by_domain_id(&other).unwrap().unwrap().abbrev(), "ex");
}

#[test]
fn the_ids_of_domains_can_be_used_up() {
    let mut data = Data::new();
    data.source_domains.push(SourceDomain {
        id: Some(i32::MAX),
        domain: "zzzzzzzz".to_string(),
        abbrev: "z".to_string(),
        name: "Z".to_string(),
        description: String::new(),
        owner_id: 1,
        is_public: true,
        script: String::new(),
    });
    assert_eq!(data.insert_domain(1, "aaaaaaaa", "a", "A"), Err(DataError::Database));
    assert_eq!(
        data.create_domain(1, "a", "A"),
        Err(UpdateDomainError::Data(DataError::Database))
    );
}

#[test]
fn updates_and_deletes_a_domain() {
    let mut data = Data::new();
    data.insert_domain(1, "aaaaaaaa", "ex", "Example").unwrap();
    data.insert_domain(1, "bbbbbbbb", "ot", "Other").unwrap();
    let mut domain = data.domain_by_domain_id("aaaaaaaa").unwrap().unwrap();
    assert_eq!(
        domain.update(&mut data, "".into(), "n".into(), "d".into(), true, "s".into()),
        Err(UpdateDomainError::AbbrevTooShort)
    );
    assert_eq!(data.domain_by_domain_id("aaaaaaaa").unwrap().unwrap().abbrev(), "ex");
    domain
        .update(&mut data, "new".into(), "New".into(), "Described".into(), true, "script".into())
        .unwrap();
    assert_eq!(domain.abbrev(), "new");
    let read = data.domain_by_domain_id("aaaaaaaa").unwrap().unwrap();
    assert_eq!(read.abbrev(), "new");
    assert_eq!(read.name(), "New");
    assert_eq!(read.description(), "Described");
    assert!(read.is_public());
    assert_eq!(read.script(), "script");
    assert_eq!(data.domain_by_domain_id("bbbbbbbb").unwrap().unwrap().abbrev(), "ot");
    assert_eq!(data.public_domain_ids().unwrap(), vec!["aaaaaaaa".to_string()]);
    data.delete_domain(&read).unwrap();
    assert!(data.domain_by_domain_id("aaaaaaaa").unwrap().is_none());
    assert!(data.domain_by_domain_id("bbbbbbbb").unwrap().is_some());
}

#[test]
fn lists_the_domains_of_a_user_in_the_order_of_their_abbrevs() {
    let mut data = Data::new();
    data.insert_domain(1, "aaaaaaaa", "zeta", "Z").unwrap();
    data.insert_domain(2, "bbbbbbbb", "beta", "B").unwrap();
    data.insert_domain(1, "cccccccc", "alpha", "A").unwrap();
    data.insert_domain(3, "dddddddd", "gamma", "G").unwrap();
    data.insert_domain(1, "eeeeeeee", "alpha", "A2").unwrap();
    let beta = data.domain_by_domain_id("bbbbbbbb").unwrap().unwrap();
    assert!(!data.is_user_subscribed(1, &beta).unwrap());
    data.user_subscribe_domain(1, &beta).unwrap();
    assert!(data.is_user_subscribed(1, &beta).unwrap());
    assert_eq!(
        data.user_full_domain_ids(1).unwrap(),
        vec![
            "cccccccc".to_string(),
            "eeeeeeee".to_string(),
            "bbbbbbbb".to_string(),
            "aaaaaaaa".to_string()
        ]
    );
    assert_eq!(data.user_full_domain_ids(3).unwrap(), vec!["dddddddd".to_string()]);
    assert!(data.user_full_domain_ids(4).unwrap().is_empty());
    data.user_unsubscribe_domain(1, &beta).unwrap();
    assert!(!data.is_user_subscribed(1, &beta).unwrap());
    assert_eq!(data.user_full_domain_ids(1).unwrap().len(), 3);
    assert!(data.public_domain_ids().unwrap().is_empty());
}
