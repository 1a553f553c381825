//! The proxy for resources: which headers pass through it.

use vstd::prelude::*;

use crate::text::str_eq;

verus! {

/// Whether a header of the request, by its name in lower case, is passed on
/// to the origin.
pub open spec fn forwarded(name: Seq<char>) -> bool {
    name == "accept"@ || name == "accept-charset"@ || name == "accept-encoding"@ || name
        == "accept-language"@ || name == "cache-control"@ || name == "if-match"@ || name
        == "if-none-match"@ || name == "if-modified-since"@ || name == "if-unmodified-since"@
        || name == "range"@ || name == "if-range"@ || name == "connection"@ || name == "pragma"@
}

/// Whether a header of the origin's response, by its name in lower case, is
/// passed on to the client.
pub open spec fn received(name: Seq<char>) -> bool {
    name == "content-type"@ || name == "content-length"@ || name == "content-encoding"@ || name
        == "content-language"@ || name == "content-location"@ || name == "accept-ranges"@ || name
        == "content-range"@ || name == "forwarded"@ || name == "date"@ || name == "age"@ || name
        == "cache-control"@ || name == "expires"@ || name == "vary"@ || name == "pragma"@ || name
        == "last-modified"@ || name == "etag"@ || name == "server"@ || name == "transfer-encoding"@
}

/// Whether a header of the request is passed on to the origin.
pub fn is_forwarded_header(name: &str) -> (pass: bool)
    ensures
        pass == forwarded(name@),
{
    str_eq(name, "accept") || str_eq(name, "accept-charset") || str_eq(name, "accept-encoding")
        || str_eq(name, "accept-language") || str_eq(name, "cache-control") || str_eq(
        name,
        "if-match",
    ) || str_eq(name, "if-none-match") || str_eq(name, "if-modified-since") || str_eq(
        name,
        "if-unmodified-since",
    ) || str_eq(name, "range") || str_eq(name, "if-range") || str_eq(name, "connection")
        || str_eq(name, "pragma")
}

/// Whether a header of the origin's response is passed on to the client. The
/// header `location` is not passed on as it is: it is rewritten so that the
/// redirect goes through the proxy.
pub fn is_received_header(name: &str) -> (pass: bool)
    ensures
        pass == received(name@),
{
    str_eq(name, "content-type") || str_eq(name, "content-length") || str_eq(
        name,
        "content-encoding",
    ) || str_eq(name, "content-language") || str_eq(name, "content-location") || str_eq(
        name,
        "accept-ranges",
    ) || str_eq(name, "content-range") || str_eq(name, "forwarded") || str_eq(name, "date")
        || str_eq(name, "age") || str_eq(name, "cache-control") || str_eq(name, "expires")
        || str_eq(name, "vary") || str_eq(name, "pragma") || str_eq(name, "last-modified")
        || str_eq(name, "etag") || str_eq(name, "server") || str_eq(name, "transfer-encoding")
}

} // verus!
