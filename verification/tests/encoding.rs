use std::collections::BTreeMap;

use aof::data::encoding::{
    decode_items, decode_tags, encode_item_data, encode_items, encode_metadata, get_source_hash,
    get_source_item_hash,
};
use aof::data::sources::{SourceItemData, SourceMetaItem, SourceMetadata};
use aof::hash::hash_content;
use aof::msgpack::{
    read_array_len, read_bool, read_str, skip_values, write_array_len, write_bool, write_opt_str,
    write_str,
};

fn tags(pairs: &[(&str, &str)]) -> Vec<u8> {
    let mut map: BTreeMap<String, serde_json::Value> = BTreeMap::new();
    for (k, v) in pairs {
        map.insert(k.to_string(), serde_json::Value::String(v.to_string()));
    }
    rmp_serde::to_vec(&map).unwrap()
}

fn item(path: &str, is_virtual: bool, pairs: &[(&str, &str)]) -> SourceMetaItem {
    SourceMetaItem { path: path.to_string(), is_virtual, tags: tags(pairs) }
}

#[test]
fn hashes_content_with_sha512_in_hex() {
    assert_eq!(
        hash_content(b"abc"),
        "ddaf35a193617abacc417349ae20413112e6fa4e89a97ea20a9eeee64b55d39a2192992a274fc1a836ba3c23a3feebbd454d4423643ce80e2a9ac94fa54ca49f"
    );
    assert_eq!(hash_content(b"").len(), 128);
}

#[test]
fn hashes_an_item_over_its_data_and_its_date() {
    let data = SourceItemData { tags: vec![0x80] };
    assert_eq!(
        get_source_item_hash(&data, None).unwrap(),
        "8279aba1bc0a9df0a39869c404de12b2f1031efb13b688a4c3caf9a4f34fef34389c3501332d010dd128f3ec142163b3780e5c19c9d681421474618bef4c39f5"
    );
    assert_ne!(
        get_source_item_hash(&data, Some("2021-01-01")).unwrap(),
        get_source_item_hash(&data, None).unwrap()
    );
}

#[test]
fn hashes_a_source_over_its_metadata_its_items_and_its_date() {
    let meta = SourceMetadata { tags: vec![0x80] };
    let items = vec![SourceMetaItem { path: "/a".to_string(), is_virtual: false, tags: vec![0x80] }];
    assert_eq!(
        get_source_hash(&meta, &items, Some("2021-01-01")).unwrap(),
        "b851829e8ac5080b6e127a7abfc069b6e3c77e73d1ec601b5e8ab17b5b756a34236d640679f9454d1a2bc186fdff050af4bbd2e66115799ed0e356a0d8762b97"
    );
}

#[test]
fn the_same_content_has_the_same_hash() {
    let meta = SourceMetadata { tags: tags(&[("title", "T")]) };
    let items = vec![item("/a", false, &[("title", "Chapter 1")]), item("/b", true, &[])];
    let first = get_source_hash(&meta, &items, Some("2020-12-31T12:24:01Z")).unwrap();
    let meta2 = SourceMetadata { tags: tags(&[("title", "T")]) };
    let items2 = vec![item("/a", false, &[("title", "Chapter 1")]), item("/b", true, &[])];
    let second = get_source_hash(&meta2, &items2, Some("2020-12-31T12:24:01Z")).unwrap();
    assert_eq!(first, second);
    let other = vec![item("/b", true, &[]), item("/a", false, &[("title", "Chapter 1")])];
    assert_ne!(get_source_hash(&meta, &other, Some("2020-12-31T12:24:01Z")).unwrap(), first);
    assert_ne!(get_source_hash(&meta, &items, None).unwrap(), first);
}

#[test]
fn encodes_metadata_as_a_structure_of_one_field() {
    let map = tags(&[("title", "T")]);
    let meta = SourceMetadata { tags: map.clone() };
    let mut expected = vec![0x91];
    expected.extend_from_slice(&map);
    assert_eq!(encode_metadata(&meta), expected);
    assert_eq!(encode_item_data(&SourceItemData { tags: map.clone() }), expected);
    // the same bytes as a structure of one map, encoded as a sequence
    let mut value: BTreeMap<String, serde_json::Value> = BTreeMap::new();
    value.insert("title".to_string(), serde_json::Value::String("T".to_string()));
    assert_eq!(rmp_serde::to_vec(&(value,)).unwrap(), expected);
}

#[test]
fn encodes_items_as_an_array_of_structures() {
    let items = vec![item("/a", false, &[("title", "Chapter 1")]), item("/b", true, &[])];
    let mut first: BTreeMap<String, serde_json::Value> = BTreeMap::new();
    first.insert("title".to_string(), serde_json::Value::String("Chapter 1".to_string()));
    let second: BTreeMap<String, serde_json::Value> = BTreeMap::new();
    let expected =
        rmp_serde::to_vec(&vec![("/a", false, first), ("/b", true, second)]).unwrap();
    assert_eq!(encode_items(&items).unwrap(), expected);
    assert_eq!(encode_items(&Vec::new()).unwrap(), vec![0x90]);
}

#[test]
fn encodes_long_lists_and_long_paths() {
    let items: Vec<SourceMetaItem> = (0..20).map(|i| item(&format!("/{}", i), false, &[])).collect();
    let enc = encode_items(&items).unwrap();
    assert_eq!(&enc[..3], &[0xdc, 0, 20]);
    let long = "p".repeat(300);
    let enc = encode_items(&vec![item(&long, false, &[])]).unwrap();
    assert_eq!(&enc[..5], &[0x91, 0x93, 0xda, 0x01, 0x2c]);
    let paths: Vec<(String, bool, BTreeMap<String, serde_json::Value>)> =
        vec![(long.clone(), false, BTreeMap::new())];
    assert_eq!(enc, rmp_serde::to_vec(&paths).unwrap());
}

#[test]
fn decodes_what_it_encodes() {
    let items = vec![
        item("/a", false, &[("title", "Chapter 1"), ("contents", "hello")]),
        item("/b", true, &[]),
        item(&"x".repeat(40), false, &[("k", "v")]),
    ];
    let enc = encode_items(&items).unwrap();
    let dec = decode_items(&enc).unwrap();
    assert_eq!(dec.len(), 3);
    for (a, b) in items.iter().zip(dec.iter()) {
        assert_eq!(a.path, b.path);
        assert_eq!(a.is_virtual, b.is_virtual);
        assert_eq!(a.tags, b.tags);
    }
    let map = tags(&[("title", "T")]);
    let enc = encode_metadata(&SourceMetadata { tags: map.clone() });
    assert_eq!(decode_tags(&enc), Some(map));
}

#[test]
fn refuses_bytes_that_are_no_item_list() {
    assert!(decode_items(&[]).is_none());
    assert!(decode_items(&[0x80]).is_none());
    // one entry is announced, none follows
    assert!(decode_items(&[0x91]).is_none());
    // bytes behind the list
    assert!(decode_items(&[0x90, 0xc0]).is_none());
    // an entry of two fields
    assert!(decode_items(&[0x91, 0x92, 0xa1, b'a', 0xc2]).is_none());
    // a path that is no string
    assert!(decode_items(&[0x91, 0x93, 0x01, 0xc2, 0x80]).is_none());
    assert!(decode_items(&[0x91, 0x93, 0xa1, b'a', 0xc2, 0x80]).is_some());
    assert!(decode_tags(&[0x91]).is_none());
    assert!(decode_tags(&[0x92, 0x80]).is_none());
    assert!(decode_tags(&[0x91, 0x80, 0x80]).is_none());
    assert_eq!(decode_tags(&[0x91, 0x80]), Some(vec![0x80]));
}

#[test]
fn writes_strings_booleans_and_headers() {
    let mut out = Vec::new();
    write_str(&mut out, "abc").unwrap();
    assert_eq!(out, vec![0xa3, b'a', b'b', b'c']);
    let mut out = Vec::new();
    write_str(&mut out, &"x".repeat(32)).unwrap();
    assert_eq!(&out[..2], &[0xd9, 32]);
    let mut out = Vec::new();
    write_str(&mut out, &"x".repeat(70_000)).unwrap();
    assert_eq!(&out[..5], &[0xdb, 0, 1, 0x11, 0x70]);
    let mut out = Vec::new();
    write_opt_str(&mut out, None).unwrap();
    write_opt_str(&mut out, Some("é")).unwrap();
    write_bool(&mut out, true);
    write_bool(&mut out, false);
    write_array_len(&mut out, 15);
    write_array_len(&mut out, 16);
    write_array_len(&mut out, 65_536);
    assert_eq!(
        out,
        vec![0xc0, 0xa2, 0xc3, 0xa9, 0xc3, 0xc2, 0x9f, 0xdc, 0, 16, 0xdd, 0, 1, 0, 0]
    );
    assert_eq!(rmp_serde::to_vec(&Some("é")).unwrap(), vec![0xa2, 0xc3, 0xa9]);
    assert_eq!(rmp_serde::to_vec(&None::<&str>).unwrap(), vec![0xc0]);
}

#[test]
fn reads_strings_booleans_and_headers() {
    assert_eq!(read_str(&[0xa3, b'a', b'b', b'c', 0xc0], 0), Some(("abc".to_string(), 4)));
    assert_eq!(read_str(&[0xc0, 0xd9, 1, b'z'], 1), Some(("z".to_string(), 4)));
    assert_eq!(read_str(&[0xa3, b'a'], 0), None);
    assert_eq!(read_str(&[0xa1, 0xff], 0), None);
    assert_eq!(read_str(&[0xc4, 1, b'a'], 0), None);
    assert_eq!(read_bool(&[0xc3], 0), Some((true, 1)));
    assert_eq!(read_bool(&[0xc2], 0), Some((false, 1)));
    assert_eq!(read_bool(&[0xc0], 0), None);
    assert_eq!(read_array_len(&[0x92], 0), Some((2, 1)));
    assert_eq!(read_array_len(&[0xdc, 1, 0], 0), Some((256, 3)));
    assert_eq!(read_array_len(&[0xdd, 0, 1, 0, 0], 0), Some((65_536, 5)));
    assert_eq!(read_array_len(&[0x80], 0), None);
}

#[test]
fn skips_whole_values() {
    let mut map: BTreeMap<String, serde_json::Value> = BTreeMap::new();
    map.insert(
        "authors".to_string(),
        serde_json::Value::Array(vec![
            serde_json::Value::String("a".to_string()),
            serde_json::Value::Bool(true),
            serde_json::Value::Null,
            serde_json::Value::from(-5),
            serde_json::Value::from(70_000u64),
            serde_json::Value::from(1.5),
        ]),
    );
    map.insert("title".to_string(), serde_json::Value::String("x".repeat(300)));
    let bytes = rmp_serde::to_vec(&map).unwrap();
    assert_eq!(skip_values(&bytes, 0, 1), Some(bytes.len()));
    let mut two = bytes.clone();
    two.extend_from_slice(&bytes);
    assert_eq!(skip_values(&two, 0, 1), Some(bytes.len()));
    assert_eq!(skip_values(&two, 0, 2), Some(two.len()));
    assert_eq!(skip_values(&two, 0, 3), None);
    assert_eq!(skip_values(&bytes[..bytes.len() - 1], 0, 1), None);
    assert_eq!(skip_values(&[0xc1], 0, 1), None);
    assert_eq!(skip_values(&[], 0, 0), Some(0));
    // extensions, blobs and numbers
    assert_eq!(skip_values(&[0xc4, 2, 9, 9, 0xd4, 1, 2, 0xcb, 0, 0, 0, 0, 0, 0, 0, 0], 0, 3), Some(16));
    assert_eq!(skip_values(&[0xc7, 1, 5, 9, 0xca, 0, 0, 0, 0], 0, 2), Some(9));
}

#[test]
fn the_hash_is_over_the_bytes_that_rmp_serde_writes() {
    let mut title: BTreeMap<String, serde_json::Value> = BTreeMap::new();
    title.insert("title".to_string(), serde_json::Value::String("T".to_string()));
    title.insert("authors".to_string(), serde_json::Value::Array(vec![serde_json::Value::Bool(true)]));
    let mut chapter: BTreeMap<String, serde_json::Value> = BTreeMap::new();
    chapter.insert("n".to_string(), serde_json::Value::from(3));

    let meta = SourceMetadata { tags: rmp_serde::to_vec(&title).unwrap() };
    let items = vec![
        SourceMetaItem {
            path: "/a".to_string(),
            is_virtual: true,
            tags: rmp_serde::to_vec(&chapter).unwrap(),
        },
    ];
    for date in [None, Some("2021-01-01T00:00:00Z")].iter() {
        let mut fed = rmp_serde::to_vec(&(title.clone(),)).unwrap();
        fed.extend(rmp_serde::to_vec(&vec![("/a", true, chapter.clone())]).unwrap());
        fed.extend(rmp_serde::to_vec(date).unwrap());
        let digest = <sha2::Sha512 as sha2::Digest>::digest(&fed);
        assert_eq!(get_source_hash(&meta, &items, *date).unwrap(), hex::encode(digest));

        let mut fed = rmp_serde::to_vec(&(chapter.clone(),)).unwrap();
        fed.extend(rmp_serde::to_vec(date).unwrap());
        let digest = <sha2::Sha512 as sha2::Digest>::digest(&fed);
        let data = SourceItemData { tags: rmp_serde::to_vec(&chapter).unwrap() };
        assert_eq!(get_source_item_hash(&data, *date).unwrap(), hex::encode(digest));
    }
}
