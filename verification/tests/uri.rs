use aof::uri::{canonicalize_uri, is_valid_uri, join_scheme_and_path, read_url, UrlHost};

#[test]
fn collapses_the_authority_the_query_and_the_fragment() {
    let uri = canonicalize_uri("ex://host.example/a/b?q=1#frag").unwrap();
    assert_eq!(uri.text, "ex:///a/b");
    assert_eq!(uri.scheme, "ex");
    assert_eq!(uri.path, "/a/b");
}

#[test]
fn keeps_a_canonical_uri() {
    let uri = canonicalize_uri("ex:///root").unwrap();
    assert_eq!(uri.text, "ex:///root");
    assert_eq!(uri.scheme, "ex");
    assert_eq!(uri.path, "/root");
}

#[test]
fn lowers_the_case_of_the_scheme() {
    let uri = canonicalize_uri("EX:///Root").unwrap();
    assert_eq!(uri.text, "ex:///Root");
}

#[test]
fn canonicalizing_twice_is_canonicalizing_once() {
    for input in ["ex://host/a?x#y", "abcdefgh:///p/q", "ex://user:pw@host:81/a%20b", "ex:///"] {
        let once = canonicalize_uri(input).unwrap();
        assert_eq!(once.text, format!("{}://{}", once.scheme, once.path));
        let twice = canonicalize_uri(&once.text).unwrap();
        assert_eq!(twice.text, once.text);
        assert_eq!(twice.scheme, once.scheme);
        assert_eq!(twice.path, once.path);
    }
}

#[test]
fn a_uri_without_slashes_has_no_collapsed_form() {
    // the path of such a URI does not start with a slash, so the joined text
    // reads it as a host
    let once = canonicalize_uri("ex:a").unwrap();
    assert_ne!(once.text, format!("{}://{}", once.scheme, once.path));
    let twice = canonicalize_uri(&once.text).unwrap();
    assert_ne!(twice.text, once.text);
}

#[test]
fn refuses_what_is_no_url() {
    assert!(canonicalize_uri("").is_err());
    assert!(canonicalize_uri("no scheme").is_err());
    assert!(canonicalize_uri("/just/a/path").is_err());
    assert!(!is_valid_uri("://x"));
    assert!(is_valid_uri("ex:///a"));
    assert!(is_valid_uri("https://example.com/"));
}

#[test]
fn joins_a_scheme_and_a_path() {
    assert_eq!(join_scheme_and_path("ex", "/a"), "ex:///a");
    assert_eq!(join_scheme_and_path("", ""), "://");
}

#[test]
fn reads_the_parts_of_a_url() {
    let url = read_url("https://Example.com:8443/a/b?q=1#f").unwrap();
    assert_eq!(url.scheme, "https");
    assert_eq!(url.path, "/a/b");
    assert_eq!(url.text, "https://example.com:8443/a/b?q=1#f");
    assert!(matches!(url.host, UrlHost::Domain(ref d) if d == "example.com"));
    let url = read_url("http://127.0.0.1/").unwrap();
    assert!(matches!(url.host, UrlHost::Ipv4([127, 0, 0, 1])));
    let url = read_url("http://[2001:db8::1]/").unwrap();
    assert!(matches!(url.host, UrlHost::Ipv6(a) if a[0] == 0x20 && a[1] == 0x01 && a[2] == 0x0d && a[3] == 0xb8 && a[15] == 1));
    let url = read_url("data:text/plain,Stuff").unwrap();
    assert!(matches!(url.host, UrlHost::Absent));
    assert_eq!(url.path, "text/plain,Stuff");
    assert!(read_url("nothing").is_none());
    // the canonical form of a URL with a special scheme has no host to read
    assert!(canonicalize_uri("http://127.0.0.1/").is_err());
}
