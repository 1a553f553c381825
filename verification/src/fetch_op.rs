//! The rules of the `fetch` that scripts call: the methods and redirect
//! policies that it takes, the cap on redirects and on the size of a
//! response, and the least time that a fetch takes.

use vstd::prelude::*;

use crate::permission::Denial;
use crate::text::str_eq;

verus! {

/// Least time that a fetch takes, in milliseconds: a fetch that is done
/// sooner is held back for the rest.
pub const MIN_FETCH_TIME: u64 = 200;

/// Time after which a request is given up, in milliseconds.
pub const REQUEST_TIMEOUT: u64 = 20_000;

/// Largest response, in bytes.
pub const MAX_RESPONSE_SIZE: usize = 268_435_456;

/// The redirect with this number is not followed any more.
pub const MAX_REDIRECTS: u32 = 10;

pub const USER_AGENT: &'static str = "Mozilla/5.0 (Macintosh; Intel Mac OS X 10_15_7) AppleWebKit/537.36 (KHTML, like Gecko) Chrome/90.0.4430.72 Safari/537.36";

/// Heap of a script run at its start, in bytes.
pub const INITIAL_HEAP_SIZE: usize = 0;

/// Largest heap of a script run, in bytes.
pub const MAX_HEAP_SIZE: usize = 268_435_456;

/// The methods of HTTP that a script can ask for.
#[derive(Debug, Clone, Copy, PartialEq, Eq, Structural)]
pub enum Method {
    Get,
    Head,
    Post,
    Patch,
    Trace,
    Delete,
    Options,
    Connect,
}

/// What a fetch does about a redirect.
#[derive(Debug, Clone, Copy, PartialEq, Eq, Structural)]
pub enum RedirectPolicy {
    Follow,
    Error,
    Manual,
}

/// Why a fetch failed.
#[derive(Debug)]
pub enum FetchError {
    NoResource,
    NoBody,
    /// The URL does not parse.
    Url,
    Permission(Denial),
    InvalidMethod,
    InvalidRedirectPolicy,
    ResponseTooLarge,
    /// The request failed; the text tells how.
    Req(String),
}

/// The method that goes by `name`.
pub open spec fn method_of(name: Seq<char>) -> Option<Method> {
    if name == "GET"@ {
        Some(Method::Get)
    } else if name == "HEAD"@ {
        Some(Method::Head)
    } else if name == "POST"@ {
        Some(Method::Post)
    } else if name == "PATCH"@ {
        Some(Method::Patch)
    } else if name == "TRACE"@ {
        Some(Method::Trace)
    } else if name == "DELETE"@ {
        Some(Method::Delete)
    } else if name == "OPTIONS"@ {
        Some(Method::Options)
    } else if name == "CONNECT"@ {
        Some(Method::Connect)
    } else {
        None
    }
}

/// Reads the method of a fetch.
pub fn parse_method(name: &str) -> (res: Result<Method, FetchError>)
    ensures
        match method_of(name@) {
            Some(m) => res matches Ok(method) && method == m,
            None => res matches Err(FetchError::InvalidMethod),
        },
{
    if str_eq(name, "GET") {
        Ok(Method::Get)
    } else if str_eq(name, "HEAD") {
        Ok(Method::Head)
    } else if str_eq(name, "POST") {
        Ok(Method::Post)
    } else if str_eq(name, "PATCH") {
        Ok(Method::Patch)
    } else if str_eq(name, "TRACE") {
        Ok(Method::Trace)
    } else if str_eq(name, "DELETE") {
        Ok(Method::Delete)
    } else if str_eq(name, "OPTIONS") {
        Ok(Method::Options)
    } else if str_eq(name, "CONNECT") {
        Ok(Method::Connect)
    } else {
        Err(FetchError::InvalidMethod)
    }
}

/// The redirect policy that goes by `name`.
pub open spec fn redirect_policy_of(name: Seq<char>) -> Option<RedirectPolicy> {
    if name == "follow"@ {
        Some(RedirectPolicy::Follow)
    } else if name == "error"@ {
        Some(RedirectPolicy::Error)
    } else if name == "manual"@ {
        Some(RedirectPolicy::Manual)
    } else {
        None
    }
}

/// Reads the redirect policy of a fetch.
pub fn parse_redirect_policy(name: &str) -> (res: Result<RedirectPolicy, FetchError>)
    ensures
        match redirect_policy_of(name@) {
            Some(p) => res matches Ok(policy) && policy == p,
            None => res matches Err(FetchError::InvalidRedirectPolicy),
        },
{
    if str_eq(name, "follow") {
        Ok(RedirectPolicy::Follow)
    } else if str_eq(name, "error") {
        Ok(RedirectPolicy::Error)
    } else if str_eq(name, "manual") {
        Ok(RedirectPolicy::Manual)
    } else {
        Err(FetchError::InvalidRedirectPolicy)
    }
}

/// What a fetch does about one redirect.
#[derive(Debug)]
pub enum RedirectStep {
    /// The redirect is followed.
    Follow,
    /// The fetch fails: it was redirected too often.
    TooMany,
    /// The fetch fails: the target of the redirect is not permitted.
    Denied(Denial),
    /// The fetch fails: the policy does not allow redirects.
    NotAllowed,
}

/// What a fetch with the policy `Follow` does about a redirect whose target
/// was checked by the permission hook, when `count` permitted redirects came
/// before: a target that is not permitted fails the fetch; a permitted one
/// counts, and is followed unless it is the tenth, which fails the fetch.
pub open spec fn redirect_step(count: u32, permitted: Result<(), Denial>) -> (u32, RedirectStep) {
    match permitted {
        Ok(()) => if count + 1 < MAX_REDIRECTS {
            ((count + 1) as u32, RedirectStep::Follow)
        } else {
            (
                if count < u32::MAX {
                    (count + 1) as u32
                } else {
                    count
                },
                RedirectStep::TooMany,
            )
        },
        Err(d) => (count, RedirectStep::Denied(d)),
    }
}

/// Decides on a redirect of a fetch with the policy `Follow`.
pub fn on_redirect(count: &mut u32, permitted: Result<(), Denial>) -> (step: RedirectStep)
    ensures
        (*final(count), step) == redirect_step(*old(count), permitted),
{
    match permitted {
        Ok(()) => {
            if *count < u32::MAX {
                *count = *count + 1;
            }
            if *count < MAX_REDIRECTS {
                RedirectStep::Follow
            } else {
                RedirectStep::TooMany
            }
        },
        Err(err) => RedirectStep::Denied(err),
    }
}

/// A fetch fails at the tenth permitted redirect at the latest: after nine
/// permitted redirects the next one is not followed, whatever its target,
/// and before that a permitted redirect is followed and counted.
pub proof fn lemma_redirect_cap(count: u32)
    ensures
        count + 1 >= MAX_REDIRECTS ==> redirect_step(count, Ok(())).1 is TooMany,
        count + 1 < MAX_REDIRECTS ==> redirect_step(count, Ok(())).1 is Follow && redirect_step(
            count,
            Ok(()),
        ).0 == count + 1,
{
}

/// Whether a response of the announced length `content_length` is accepted.
pub fn check_content_length(content_length: Option<u64>) -> (res: Result<(), FetchError>)
    ensures
        match content_length {
            Some(l) if l > MAX_RESPONSE_SIZE => res matches Err(FetchError::ResponseTooLarge),
            _ => res is Ok,
        },
{
    match content_length {
        Some(l) => {
            if l > MAX_RESPONSE_SIZE as u64 {
                Err(FetchError::ResponseTooLarge)
            } else {
                Ok(())
            }
        },
        None => Ok(()),
    }
}

/// Counts a chunk of `chunk_len` bytes of a response of which `received`
/// bytes came before. Fails once the response is larger than
/// `MAX_RESPONSE_SIZE`.
pub fn add_chunk(received: usize, chunk_len: usize) -> (res: Result<usize, FetchError>)
    ensures
        received + chunk_len > MAX_RESPONSE_SIZE ==> res matches Err(FetchError::ResponseTooLarge),
        received + chunk_len <= MAX_RESPONSE_SIZE ==> (res matches Ok(total) && total == received
            + chunk_len),
{
    if received > MAX_RESPONSE_SIZE || chunk_len > MAX_RESPONSE_SIZE - received {
        Err(FetchError::ResponseTooLarge)
    } else {
        Ok(received + chunk_len)
    }
}

/// How long a fetch that took `elapsed` milliseconds is held back so that it
/// takes `MIN_FETCH_TIME` in all.
pub fn remaining_fetch_time(elapsed: u64) -> (rest: u64)
    ensures
        rest == if elapsed < MIN_FETCH_TIME {
            MIN_FETCH_TIME - elapsed
        } else {
            0
        },
{
    if elapsed < MIN_FETCH_TIME {
        MIN_FETCH_TIME - elapsed
    } else {
        0
    }
}

} // verus!
