//! The hub of one user: the set of the user's live sessions, the handling of
//! their requests and the fan-out of events.

use vstd::prelude::*;

use crate::data::domains::{
    abbrev_or_name_error, domain_texts_error, is_generated_id, DomainSnapshot, UpdateDomainError,
};
use crate::data::encoding::{decoded_items, decoded_tags};
use crate::data::models::{views, RssAuthKeyView, SourceDomainView, UserView};
use crate::data::password::UserAuthError;
use crate::data::sources::{stored_item_tags, SubscribeError};
use crate::data::users::{auth_result, tokens_of, ModifyUserError, UserId, UserSnapshot};
use crate::data::rss_auth_keys::RssAuthKey;
use crate::data::table::{
    any_where, lemma_picked_contains, lemma_unique_filter, lemma_unique_push,
    lemma_unique_same_keys, picked, unique_by,
};
use crate::data::{Data, DataError, DataView};
use crate::fetcher::FetchRequest;
use crate::hash::hex_encode;
use crate::random::os_random_bytes;
use crate::session::protocol::{
    DomainScriptResult, Event, EventView, Request, RequestId, Response, ResponseDomain,
    ResponseRssAuthKey, SimpleResult, SourceItemResult, SourceItemResultData, SourceResult,
    SourceResultData, UpdateType, UserCreateDomainResult, UserCreateRssAuthKeyResult,
};
use crate::text::{copy_bytes, copy_str, opt_text, own_opt_str};
use crate::uri::{canonical_uri, canonicalize_uri};

verus! {

/// The address of a live session.
pub type SessionId = u64;

/// An event for the sessions of one user, all of them or all but one.
#[derive(Debug, Clone)]
pub struct DispatchUserEvent {
    pub event: Event,
    /// The session that is not told, if any.
    pub exclude: Option<SessionId>,
}

impl DispatchUserEvent {
    /// An event for every session.
    pub fn new(event: Event) -> (res: DispatchUserEvent)
        ensures
            res.event == event,
            res.exclude is None,
    {
        DispatchUserEvent { event, exclude: None }
    }

    /// An event for every session but `exclude`.
    pub fn new_excluding(event: Event, exclude: Option<SessionId>) -> (res: DispatchUserEvent)
        ensures
            res.event == event,
            res.exclude == exclude,
    {
        DispatchUserEvent { event, exclude }
    }
}

/// An event on its way to the hub of a user.
#[derive(Debug, Clone)]
pub struct UserMgrDispatchEvent(pub UserId, pub DispatchUserEvent);

/// What a `UserMgrDispatchEvent` holds.
pub struct DispatchView {
    pub user: UserId,
    pub event: EventView,
    pub exclude: Option<SessionId>,
}

impl View for UserMgrDispatchEvent {
    type V = DispatchView;

    open spec fn view(&self) -> DispatchView {
        DispatchView { user: self.0, event: self.1.event@, exclude: self.1.exclude }
    }
}

/// The event `event` for every session of `user`.
pub open spec fn dispatch_to(user: UserId, event: EventView) -> DispatchView {
    DispatchView { user, event, exclude: None }
}


/// A message to one connection.
#[derive(Debug)]
pub enum UserConnMsg {
    Response { id: RequestId, data: Response },
    ErrorResponse { id: RequestId },
    Event { event: Event },
    ForceStop,
}

/// What the hub asks for after it handled a message: actions are carried out
/// in their order.
#[derive(Debug)]
pub enum Action {
    /// A message for the connection of a session.
    Conn(SessionId, UserConnMsg),
    /// An event for the sessions of a user.
    Dispatch(UserMgrDispatchEvent),
    /// A request for the fetcher.
    Fetch(FetchRequest),
}

/// Why a request got no response.
#[derive(Debug, Clone, Copy, PartialEq, Eq, Structural)]
pub enum RequestError {
    UserAuth(UserAuthError),
    Data(DataError),
    InternalError,
}

/// Max amount of simultaneous user sessions for a user.
pub const MAX_USER_SESSIONS: usize = 5;

/// Length of a generated RSS key in bytes, before it is written in hex.
pub const RSS_AUTH_KEY_LEN: usize = 32;

/// An active user. There can be at most one per user account.
pub struct User {
    pub user_id: UserId,
    /// The live sessions with the time at which each was added, in the order
    /// in which they were added.
    pub conns: Vec<(SessionId, u64)>,
}

/// Whether `result` is the failure with the error `code`.
pub open spec fn is_failure(result: SimpleResult, code: Seq<char>) -> bool {
    result matches SimpleResult::Failure { error } && error@ == code
}

/// Whether `actions` are one response to the request `id` of the session
/// `conn`, of which `holds` holds.
pub open spec fn one_reply(
    actions: Seq<Action>,
    conn: SessionId,
    id: RequestId,
    holds: spec_fn(Response) -> bool,
) -> bool {
    actions.len() == 1 && is_reply(actions[0], conn, id, holds)
}

/// Whether `action` is a response to the request `id` of the session `conn`,
/// of which `holds` holds.
pub open spec fn is_reply(
    action: Action,
    conn: SessionId,
    id: RequestId,
    holds: spec_fn(Response) -> bool,
) -> bool {
    action matches Action::Conn(c, UserConnMsg::Response { id: i, data }) && c == conn && i == id
        && holds(data)
}

/// Whether `actions` are the event `event` and then a response to the
/// request `id` of the session `conn`, of which `holds` holds.
pub open spec fn event_then_reply(
    actions: Seq<Action>,
    event: DispatchView,
    conn: SessionId,
    id: RequestId,
    holds: spec_fn(Response) -> bool,
) -> bool {
    actions.len() == 2 && (actions[0] matches Action::Dispatch(e) && e@ == event) && is_reply(
        actions[1],
        conn,
        id,
        holds,
    )
}

/// The error code of a refused abbrev, name, description or script.
pub open spec fn domain_error_code(e: UpdateDomainError) -> Seq<char> {
    match e {
        UpdateDomainError::AbbrevTooShort => "abbrev_too_short"@,
        UpdateDomainError::AbbrevTooLong => "abbrev_too_long"@,
        UpdateDomainError::NameTooShort => "name_too_short"@,
        UpdateDomainError::NameTooLong => "name_too_long"@,
        UpdateDomainError::DescriptionTooLong => "description_too_long"@,
        UpdateDomainError::ScriptTooLong => "script_too_long"@,
        UpdateDomainError::Data(_) => "internal_error"@,
    }
}

/// The error code of a refused abbrev, name, description or script.
pub fn domain_error_name(e: UpdateDomainError) -> (code: &'static str)
    ensures
        code@ == domain_error_code(e),
{
    match e {
        UpdateDomainError::AbbrevTooShort => "abbrev_too_short",
        UpdateDomainError::AbbrevTooLong => "abbrev_too_long",
        UpdateDomainError::NameTooShort => "name_too_short",
        UpdateDomainError::NameTooLong => "name_too_long",
        UpdateDomainError::DescriptionTooLong => "description_too_long",
        UpdateDomainError::ScriptTooLong => "script_too_long",
        UpdateDomainError::Data(_) => "internal_error",
    }
}

/// What the response to a request for a domain holds of it.
pub open spec fn describes_domain(r: ResponseDomain, d: SourceDomainView, user: UserId) -> bool {
    r.abbrev@ == d.abbrev && r.name@ == d.name && r.description@ == d.description && r.is_public
        == d.is_public && r.editable == (d.owner_id == user)
}

/// Whether `actions` are the single response `UserSecretKey`-style text
/// replies are made of: one response of which `holds` holds, with the store
/// unchanged.
pub open spec fn unchanged_reply(
    before: DataView,
    after: DataView,
    res: Result<Vec<Action>, RequestError>,
    conn: SessionId,
    id: RequestId,
    holds: spec_fn(Response) -> bool,
) -> bool {
    after == before && (res matches Ok(actions) && one_reply(actions@, conn, id, holds))
}

/// Whether a request failed with `error`, without an action and without a
/// change of the store.
pub open spec fn fails_with(
    before: DataView,
    after: DataView,
    res: Result<Vec<Action>, RequestError>,
    error: RequestError,
) -> bool {
    after == before && res == Err::<Vec<Action>, RequestError>(error)
}

/// What the store answers to a request for the source at `uri` as `user`
/// sees it: the date of the fetch with the version that the user points at,
/// or nothing where the user points at none or the version is gone.
pub open spec fn seen_source(d: DataView, user: UserId, uri: Seq<char>) -> Option<
    (Seq<char>, crate::data::models::SourceVersionView),
> {
    match d.user_source(user, uri) {
        Some(p) => match (p.version_date, p.version_hash) {
            (Some(date), Some(hash)) => match d.source_by_hash(hash) {
                Some(v) => Some((date, v)),
                None => None,
            },
            _ => None,
        },
        None => None,
    }
}

/// What the store answers to a request for the item at `uri` as `user` sees
/// it.
pub open spec fn seen_item(d: DataView, user: UserId, uri: Seq<char>) -> Option<
    (Seq<char>, crate::data::models::SourceItemVersionView),
> {
    match d.user_source_item(user, uri) {
        Some(p) => match (p.version_date, p.version_hash) {
            (Some(date), Some(hash)) => match d.source_item_by_hash(hash) {
                Some(v) => Some((date, v)),
                None => None,
            },
            _ => None,
        },
        None => None,
    }
}

/// The source at `uri` as the user sees it: the date of the fetch with the
/// version that the user points at.
pub fn user_seen_source(data: &Data, user: UserId, uri: &str) -> (res: Option<
    (String, crate::data::sources::SourceVersionSnapshot),
>)
    ensures
        match (res, seen_source(data@, user, uri@)) {
            (Some((date, version)), Some((d, v))) => date@ == d && version@ == v,
            (None, None) => true,
            _ => false,
        },
{
    let pointer = match data.user_source(user, uri) {
        Ok(Some(p)) => p,
        _ => {
            return None;
        },
    };
    match pointer.version_date_hash() {
        Some((date, hash)) => match data.source_by_hash(hash) {
            Ok(Some(version)) => Some((copy_str(date), version)),
            _ => None,
        },
        None => None,
    }
}

/// The item at `uri` as the user sees it: the date of the fetch with the
/// version that the user points at.
pub fn user_seen_item(data: &Data, user: UserId, uri: &str) -> (res: Option<
    (String, crate::data::sources::SourceItemVersionSnapshot),
>)
    ensures
        match (res, seen_item(data@, user, uri@)) {
            (Some((date, version)), Some((d, v))) => date@ == d && version@ == v,
            (None, None) => true,
            _ => false,
        },
{
    let pointer = match data.user_source_item(user, uri) {
        Ok(Some(p)) => p,
        _ => {
            return None;
        },
    };
    match pointer.version_date_hash() {
        Some((date, hash)) => match data.source_item_by_hash(hash) {
            Ok(Some(version)) => Some((copy_str(date), version)),
            _ => None,
        },
        None => None,
    }
}

/// The user data in a row of a pointer: empty where the row holds none.
pub open spec fn data_or_empty(data: Option<Seq<u8>>) -> Seq<u8> {
    match data {
        Some(d) => d,
        None => Seq::empty(),
    }
}


/// Whether `action` tells the connection of the session `conn` to stop.
pub open spec fn is_force_stop(action: Action, conn: SessionId) -> bool {
    action matches Action::Conn(c, UserConnMsg::ForceStop) && c == conn
}

/// The error code of a refused user name.
pub open spec fn name_error_code(e: ModifyUserError) -> Seq<char> {
    match e {
        ModifyUserError::NameTaken => "name_taken"@,
        ModifyUserError::InvalidName => "invalid_name"@,
        _ => "internal_error"@,
    }
}

/// What handling a request about the user's account comes to, for the user
/// whose row is `u`.
pub open spec fn account_request_handled(
    before: DataView,
    after: DataView,
    u: UserView,
    conn: SessionId,
    id: RequestId,
    req: Request,
    res: Result<Vec<Action>, RequestError>,
) -> bool {
    match req {
        Request::UserClientKey => unchanged_reply(
            before,
            after,
            res,
            conn,
            id,
            |r: Response| r matches Response::UserClientKey(k) && k@ == u.client_key,
        ),
        Request::UserSecretKey => unchanged_reply(
            before,
            after,
            res,
            conn,
            id,
            |r: Response| r matches Response::UserSecretKey(k) && k@ == u.secret_key,
        ),
        Request::UserTokens => unchanged_reply(
            before,
            after,
            res,
            conn,
            id,
            |r: Response| r matches Response::UserTokens(t) && t == tokens_of(u.tokens),
        ),
        Request::UserChangeName { new_name } => match before.change_user_name_result(
            u.id,
            new_name@,
        ) {
            Ok(store) => after == store && (res matches Ok(a) && one_reply(
                a@,
                conn,
                id,
                |r: Response| r matches Response::UserChangeName(SimpleResult::Success),
            )),
            Err(e) => unchanged_reply(
                before,
                after,
                res,
                conn,
                id,
                |r: Response|
                    r matches Response::UserChangeName(x) && is_failure(x, name_error_code(e)),
            ),
        },
        Request::UserChangePassword { password, new_password } => match auth_result(
            u.password,
            password@,
        ) {
            Err(e) => fails_with(before, after, res, RequestError::UserAuth(e)),
            Ok(false) => unchanged_reply(
                before,
                after,
                res,
                conn,
                id,
                |r: Response| r matches Response::UserChangePassword(x) && is_failure(x, "invalid"@),
            ),
            Ok(true) => res matches Ok(a) && one_reply(
                a@,
                conn,
                id,
                |r: Response|
                    r matches Response::UserChangePassword(x) && if x is Success {
                        exists|verifier: crate::data::password::Password|
                            verifier.accepts(new_password@) && after
                                == before.with_user_password(
                                    u.id,
                                    crate::data::password::Password::stored_text(
                                        verifier.derived_key@,
                                        verifier.salt@,
                                    ),
                                )
                    } else {
                        is_failure(x, "internal_error"@) && after == before
                    },
            ),
        },
        Request::UserChangeSecretKey { password, new_secret_key } => match auth_result(
            u.password,
            password@,
        ) {
            Err(e) => fails_with(before, after, res, RequestError::UserAuth(e)),
            Ok(false) => unchanged_reply(
                before,
                after,
                res,
                conn,
                id,
                |r: Response|
                    r matches Response::UserChangeSecretKey(x) && is_failure(x, "invalid"@),
            ),
            Ok(true) => after == before.with_user_secret_key(u.id, new_secret_key@)
                && (res matches Ok(a) && one_reply(
                a@,
                conn,
                id,
                |r: Response| r matches Response::UserChangeSecretKey(SimpleResult::Success),
            )),
        },
        Request::UserDelete { password } => match auth_result(u.password, password@) {
            Err(e) => fails_with(before, after, res, RequestError::UserAuth(e)),
            Ok(ok) => (res matches Ok(a) && a@.len() == 2 && is_reply(
                a@[0],
                conn,
                id,
                |r: Response|
                    r matches Response::UserDelete(x) && if ok {
                        x is Success
                    } else {
                        is_failure(x, "invalid"@)
                    },
            ) && is_force_stop(a@[1], conn)) && after
                == if ok && u.id is Some {
                before.without_user(u.id->0)
            } else {
                before
            },
        },
        Request::UserRegenClientKey => match res {
            Ok(a) => one_reply(
                a@,
                conn,
                id,
                |r: Response| r matches Response::UserRegenClientKey(_),
            ) && exists|client_key: Seq<u8>|
                client_key.len() == crate::data::users::CLIENT_KEY_LEN && after
                    == #[trigger] before.with_user_client_key(u.id, client_key),
            Err(e) => e == RequestError::Data(DataError::Io) && after == before,
        },
        _ => true,
    }
}

impl User {
    /// Makes the hub of the user `user_id`, without a session.
    pub fn new(user_id: UserId) -> (user: User)
        ensures
            user.user_id == user_id,
            user.conns@.len() == 0,
            distinct_sessions(user.conns@),
    {
        User { user_id, conns: Vec::new() }
    }

    /// Handles a request about the user's account.
    fn handle_account_request(
        data: &mut Data,
        user: &UserSnapshot,
        conn: SessionId,
        id: RequestId,
        req: Request,
    ) -> (res: Result<Vec<Action>, RequestError>)
        requires
            user@.id is Some,
        ensures
            old(data)@.well_formed() ==> final(data)@.well_formed(),
            account_request_handled(old(data)@, final(data)@, user@, conn, id, req, res),
    {
        let mut actions: Vec<Action> = Vec::new();
        match req {
            Request::UserClientKey => {
                actions.push(
                    Action::Conn(
                        conn,
                        UserConnMsg::Response {
                            id,
                            data: Response::UserClientKey(copy_bytes(user.client_key())),
                        },
                    ),
                );
                Ok(actions)
            },
            Request::UserSecretKey => {
                actions.push(
                    Action::Conn(
                        conn,
                        UserConnMsg::Response {
                            id,
                            data: Response::UserSecretKey(copy_str(user.secret_key())),
                        },
                    ),
                );
                Ok(actions)
            },
            Request::UserTokens => {
                actions.push(
                    Action::Conn(
                        conn,
                        UserConnMsg::Response { id, data: Response::UserTokens(user.tokens()) },
                    ),
                );
                Ok(actions)
            },
            Request::UserChangeName { new_name } => {
                let res = match data.change_user_name(user, new_name.as_str()) {
                    Ok(()) => SimpleResult::Success,
                    Err(ModifyUserError::NameTaken) => SimpleResult::Failure {
                        error: "name_taken",
                    },
                    Err(ModifyUserError::InvalidName) => SimpleResult::Failure {
                        error: "invalid_name",
                    },
                    Err(_) => SimpleResult::Failure { error: "internal_error" },
                };
                actions.push(
                    Action::Conn(
                        conn,
                        UserConnMsg::Response { id, data: Response::UserChangeName(res) },
                    ),
                );
                Ok(actions)
            },
            Request::UserChangePassword { password, new_password } => {
                let authed = match user.auth(password.as_str()) {
                    Ok(a) => a,
                    Err(e) => {
                        return Err(RequestError::UserAuth(e));
                    },
                };
                let res = if authed {
                    match data.change_user_password(user, new_password.as_str()) {
                        Ok(()) => SimpleResult::Success,
                        Err(_) => SimpleResult::Failure { error: "internal_error" },
                    }
                } else {
                    SimpleResult::Failure { error: "invalid" }
                };
                actions.push(
                    Action::Conn(
                        conn,
                        UserConnMsg::Response { id, data: Response::UserChangePassword(res) },
                    ),
                );
                Ok(actions)
            },
            Request::UserChangeSecretKey { password, new_secret_key } => {
                let authed = match user.auth(password.as_str()) {
                    Ok(a) => a,
                    Err(e) => {
                        return Err(RequestError::UserAuth(e));
                    },
                };
                let res = if authed {
                    match data.change_user_secret_key(user, new_secret_key.as_str()) {
                        Ok(()) => SimpleResult::Success,
                        Err(_) => SimpleResult::Failure { error: "internal_error" },
                    }
                } else {
                    SimpleResult::Failure { error: "invalid" }
                };
                actions.push(
                    Action::Conn(
                        conn,
                        UserConnMsg::Response { id, data: Response::UserChangeSecretKey(res) },
                    ),
                );
                Ok(actions)
            },
            Request::UserDelete { password } => {
                let authed = match user.auth(password.as_str()) {
                    Ok(a) => a,
                    Err(e) => {
                        return Err(RequestError::UserAuth(e));
                    },
                };
                let res = if authed {
                    match data.delete_user(user.id()) {
                        Ok(()) => SimpleResult::Success,
                        Err(_) => SimpleResult::Failure { error: "internal_error" },
                    }
                } else {
                    SimpleResult::Failure { error: "invalid" }
                };
                actions.push(
                    Action::Conn(conn, UserConnMsg::Response { id, data: Response::UserDelete(res) }),
                );
                actions.push(Action::Conn(conn, UserConnMsg::ForceStop));
                Ok(actions)
            },
            Request::UserRegenClientKey => {
                match data.user_regen_client_key(user) {
                    Ok(()) => {},
                    Err(e) => {
                        return Err(RequestError::Data(e));
                    },
                }
                actions.push(
                    Action::Conn(
                        conn,
                        UserConnMsg::Response { id, data: Response::UserRegenClientKey(()) },
                    ),
                );
                Ok(actions)
            },
            _ => Ok(actions),
        }
    }
}


/// Whether a response to a request for the script of a domain tells the
/// script of `domain`, or that there is no such domain.
pub open spec fn tells_script(x: DomainScriptResult, domain: Option<SourceDomainView>) -> bool {
    match domain {
        Some(d) => x.success && opt_text(x.script) == Some(d.script) && x.error is None,
        None => !x.success && x.script is None && (x.error matches Some(e) && e@ == "not_found"@),
    }
}

/// Whether a response to a request for a domain describes `domain`, or holds
/// nothing where there is no such domain.
pub open spec fn tells_domain(
    found: Option<ResponseDomain>,
    domain: Option<SourceDomainView>,
    user: UserId,
) -> bool {
    match (found, domain) {
        (Some(r), Some(d)) => describes_domain(r, d, user),
        (None, None) => true,
        _ => false,
    }
}

/// Whether a response to the creation of a domain tells that it failed with
/// the error `code`.
pub open spec fn creation_failed(x: UserCreateDomainResult, code: Seq<char>) -> bool {
    !x.success && x.id@.len() == 0 && x.error@ == code
}

/// What handling a request about domains comes to, for the user `user`.
pub open spec fn domain_request_handled(
    before: DataView,
    after: DataView,
    user: UserId,
    conn: SessionId,
    id: RequestId,
    req: Request,
    res: Result<Vec<Action>, RequestError>,
) -> bool {
    match req {
        Request::UserDomains => unchanged_reply(
            before,
            after,
            res,
            conn,
            id,
            |r: Response|
                r matches Response::UserDomains(ids) && views(ids@) == before.user_full_domain_ids(
                    user,
                ),
        ),
        Request::PublicDomains => unchanged_reply(
            before,
            after,
            res,
            conn,
            id,
            |r: Response|
                r matches Response::UserDomains(ids) && views(ids@) == before.public_domain_ids(),
        ),
        Request::Domain { id: domain_id } => unchanged_reply(
            before,
            after,
            res,
            conn,
            id,
            |r: Response|
                r matches Response::Domain(found) && tells_domain(
                    found,
                    before.domain_by_domain_id(domain_id@),
                    user,
                ),
        ),
        Request::DomainScript { id: domain_id } => unchanged_reply(
            before,
            after,
            res,
            conn,
            id,
            |r: Response|
                r matches Response::DomainScript(x) && tells_script(
                    x,
                    before.domain_by_domain_id(domain_id@),
                ),
        ),
        Request::UserCreateDomain { abbrev, name } => match abbrev_or_name_error(abbrev@, name@) {
            Some(e) => unchanged_reply(
                before,
                after,
                res,
                conn,
                id,
                |r: Response|
                    r matches Response::UserCreateDomain(x) && creation_failed(
                        x,
                        domain_error_code(e),
                    ),
            ),
            None => match res {
                Ok(a) => one_reply(
                    a@,
                    conn,
                    id,
                    |r: Response|
                        r matches Response::UserCreateDomain(x) && x.success && x.error@.len() == 0
                            && is_generated_id(x.id@) && !before.is_domain_id_taken(x.id@) && after
                            == before.with_new_domain(x.id@, user, abbrev@, name@),
                ),
                Err(e) => e == RequestError::Data(DataError::Database) && after == before,
            },
        },
        Request::UserUpdateDomain {
            id: domain_id,
            abbrev,
            name,
            description,
            is_public,
            script,
        } => match before.domain_by_domain_id(domain_id@) {
            None => unchanged_reply(
                before,
                after,
                res,
                conn,
                id,
                |r: Response|
                    r matches Response::UserUpdateDomain(x) && is_failure(x, "not_found"@),
            ),
            Some(d) => if d.owner_id != user {
                unchanged_reply(
                    before,
                    after,
                    res,
                    conn,
                    id,
                    |r: Response|
                        r matches Response::UserUpdateDomain(x) && is_failure(x, "forbidden"@),
                )
            } else {
                match domain_texts_error(abbrev@, name@, description@, script@) {
                    Some(e) => unchanged_reply(
                        before,
                        after,
                        res,
                        conn,
                        id,
                        |r: Response|
                            r matches Response::UserUpdateDomain(x) && is_failure(
                                x,
                                domain_error_code(e),
                            ),
                    ),
                    None => after == before.with_domain_updated(
                        d.id,
                        abbrev@,
                        name@,
                        description@,
                        is_public,
                        script@,
                    ) && (res matches Ok(a) && one_reply(
                        a@,
                        conn,
                        id,
                        |r: Response| r matches Response::UserUpdateDomain(SimpleResult::Success),
                    )),
                }
            },
        },
        Request::UserDeleteDomain { id: domain_id } => match before.domain_by_domain_id(
            domain_id@,
        ) {
            None => unchanged_reply(
                before,
                after,
                res,
                conn,
                id,
                |r: Response|
                    r matches Response::UserDeleteDomain(x) && is_failure(x, "not_found"@),
            ),
            Some(d) => if d.owner_id != user {
                unchanged_reply(
                    before,
                    after,
                    res,
                    conn,
                    id,
                    |r: Response|
                        r matches Response::UserDeleteDomain(x) && is_failure(x, "forbidden"@),
                )
            } else {
                after == before.without_domain(d.id) && (res matches Ok(a) && one_reply(
                    a@,
                    conn,
                    id,
                    |r: Response| r matches Response::UserDeleteDomain(SimpleResult::Success),
                ))
            },
        },
        Request::UserSubscribeDomain { id: domain_id } => match before.domain_by_domain_id(
            domain_id@,
        ) {
            None => unchanged_reply(
                before,
                after,
                res,
                conn,
                id,
                |r: Response|
                    r matches Response::UserSubscribeDomain(x) && is_failure(x, "not_found"@),
            ),
            Some(d) => if d.owner_id == user {
                unchanged_reply(
                    before,
                    after,
                    res,
                    conn,
                    id,
                    |r: Response|
                        r matches Response::UserSubscribeDomain(x) && is_failure(x, "is_owner"@),
                )
            } else if before.is_subscribed_to_domain(user, d.domain) {
                unchanged_reply(
                    before,
                    after,
                    res,
                    conn,
                    id,
                    |r: Response|
                        r matches Response::UserSubscribeDomain(x) && is_failure(
                            x,
                            "already_subscribed"@,
                        ),
                )
            } else {
                after == before.subscribe_domain(user, d.domain) && (res matches Ok(a)
                    && one_reply(
                    a@,
                    conn,
                    id,
                    |r: Response| r matches Response::UserSubscribeDomain(SimpleResult::Success),
                ))
            },
        },
        Request::UserUnsubscribeDomain { id: domain_id } => match before.domain_by_domain_id(
            domain_id@,
        ) {
            None => unchanged_reply(
                before,
                after,
                res,
                conn,
                id,
                |r: Response|
                    r matches Response::UserSubscribeDomain(x) && is_failure(x, "not_found"@),
            ),
            Some(d) => if d.owner_id == user {
                unchanged_reply(
                    before,
                    after,
                    res,
                    conn,
                    id,
                    |r: Response|
                        r matches Response::UserSubscribeDomain(x) && is_failure(x, "is_owner"@),
                )
            } else if !before.is_subscribed_to_domain(user, d.domain) {
                unchanged_reply(
                    before,
                    after,
                    res,
                    conn,
                    id,
                    |r: Response|
                        r matches Response::UserSubscribeDomain(x) && is_failure(
                            x,
                            "not_subscribed"@,
                        ),
                )
            } else {
                after == before.unsubscribe_domain(user, d.domain) && (res matches Ok(a)
                    && one_reply(
                    a@,
                    conn,
                    id,
                    |r: Response| r matches Response::UserSubscribeDomain(SimpleResult::Success),
                ))
            },
        },
        _ => true,
    }
}

/// The response to a request for a domain.
fn domain_response(domain: &Option<DomainSnapshot>, user: UserId) -> (found: Option<
    ResponseDomain,
>)
    ensures
        tells_domain(
            found,
            match domain {
                Some(d) => Some(d@),
                None => None,
            },
            user,
        ),
{
    match domain {
        Some(domain) => Some(
            ResponseDomain {
                abbrev: copy_str(domain.abbrev()),
                name: copy_str(domain.name()),
                description: copy_str(domain.description()),
                is_public: domain.is_public(),
                editable: domain.owner_id() == user,
            },
        ),
        None => None,
    }
}

/// The one response `data` to the request `id` of the session `conn`.
fn reply(conn: SessionId, id: RequestId, data: Response) -> (actions: Vec<Action>)
    ensures
        actions@.len() == 1,
        actions@[0] matches Action::Conn(c, UserConnMsg::Response { id: i, data: d }) && c == conn
            && i == id && d == data,
{
    let mut actions: Vec<Action> = Vec::new();
    actions.push(Action::Conn(conn, UserConnMsg::Response { id, data }));
    actions
}

/// The event `event` and then the response `data` to the request `id` of the
/// session `conn`.
fn event_and_reply(event: UserMgrDispatchEvent, conn: SessionId, id: RequestId, data: Response) -> (actions:
    Vec<Action>)
    ensures
        actions@.len() == 2,
        actions@[0] matches Action::Dispatch(e) && e == event,
        actions@[1] matches Action::Conn(c, UserConnMsg::Response { id: i, data: d }) && c == conn
            && i == id && d == data,
{
    let mut actions: Vec<Action> = Vec::new();
    actions.push(Action::Dispatch(event));
    actions.push(Action::Conn(conn, UserConnMsg::Response { id, data }));
    actions
}

impl User {
    /// Handles a request about domains.
    fn handle_domain_request(
        data: &mut Data,
        user_id: UserId,
        conn: SessionId,
        id: RequestId,
        req: Request,
    ) -> (res: Result<Vec<Action>, RequestError>)
        ensures
            old(data)@.well_formed() ==> final(data)@.well_formed(),
            domain_request_handled(old(data)@, final(data)@, user_id, conn, id, req, res),
    {
        proof {
            reveal_strlit("");
        }
        match req {
            Request::UserDomains => {
                let ids = match data.user_full_domain_ids(user_id) {
                    Ok(ids) => ids,
                    Err(e) => {
                        return Err(RequestError::Data(e));
                    },
                };
                Ok(reply(conn, id, Response::UserDomains(ids)))
            },
            Request::PublicDomains => {
                let ids = match data.public_domain_ids() {
                    Ok(ids) => ids,
                    Err(e) => {
                        return Err(RequestError::Data(e));
                    },
                };
                Ok(reply(conn, id, Response::UserDomains(ids)))
            },
            Request::Domain { id: domain_id } => {
                let domain = match data.domain_by_domain_id(domain_id.as_str()) {
                    Ok(d) => d,
                    Err(e) => {
                        return Err(RequestError::Data(e));
                    },
                };
                let res = domain_response(&domain, user_id);
                Ok(reply(conn, id, Response::Domain(res)))
            },
            Request::DomainScript { id: domain_id } => {
                let domain = match data.domain_by_domain_id(domain_id.as_str()) {
                    Ok(d) => d,
                    Err(e) => {
                        return Err(RequestError::Data(e));
                    },
                };
                let res = match domain {
                    Some(domain) => DomainScriptResult {
                        success: true,
                        script: Some(copy_str(domain.script())),
                        error: None,
                    },
                    None => DomainScriptResult {
                        success: false,
                        script: None,
                        error: Some("not_found"),
                    },
                };
                Ok(reply(conn, id, Response::DomainScript(res)))
            },
            Request::UserCreateDomain { abbrev, name } => {
                let res = match data.create_domain(user_id, abbrev.as_str(), name.as_str()) {
                    Ok(id) => UserCreateDomainResult { success: true, id, error: "" },
                    Err(UpdateDomainError::Data(err)) => {
                        return Err(RequestError::Data(err));
                    },
                    Err(e) => UserCreateDomainResult {
                        success: false,
                        id: String::new(),
                        error: domain_error_name(e),
                    },
                };
                Ok(reply(conn, id, Response::UserCreateDomain(res)))
            },
            Request::UserUpdateDomain {
                id: d_id,
                abbrev,
                name,
                description,
                is_public,
                script,
            } => {
                let found = match data.domain_by_domain_id(d_id.as_str()) {
                    Ok(d) => d,
                    Err(e) => {
                        return Err(RequestError::Data(e));
                    },
                };
                let res = match found {
                    Some(mut domain) => {
                        if domain.owner_id() == user_id {
                            match domain.update(data, abbrev, name, description, is_public, script) {
                                Ok(()) => SimpleResult::Success,
                                Err(UpdateDomainError::Data(err)) => {
                                    return Err(RequestError::Data(err));
                                },
                                Err(e) => SimpleResult::Failure { error: domain_error_name(e) },
                            }
                        } else {
                            SimpleResult::Failure { error: "forbidden" }
                        }
                    },
                    None => SimpleResult::Failure { error: "not_found" },
                };
                Ok(reply(conn, id, Response::UserUpdateDomain(res)))
            },
            Request::UserDeleteDomain { id: d_id } => {
                let found = match data.domain_by_domain_id(d_id.as_str()) {
                    Ok(d) => d,
                    Err(e) => {
                        return Err(RequestError::Data(e));
                    },
                };
                let res = match found {
                    Some(domain) => {
                        if domain.owner_id() == user_id {
                            match data.delete_domain(&domain) {
                                Ok(()) => SimpleResult::Success,
                                Err(e) => {
                                    return Err(RequestError::Data(e));
                                },
                            }
                        } else {
                            SimpleResult::Failure { error: "forbidden" }
                        }
                    },
                    None => SimpleResult::Failure { error: "not_found" },
                };
                Ok(reply(conn, id, Response::UserDeleteDomain(res)))
            },
            Request::UserSubscribeDomain { id: domain_id } => {
                let found = match data.domain_by_domain_id(domain_id.as_str()) {
                    Ok(d) => d,
                    Err(e) => {
                        return Err(RequestError::Data(e));
                    },
                };
                let res = match found {
                    Some(domain) => {
                        if domain.owner_id() == user_id {
                            SimpleResult::Failure { error: "is_owner" }
                        } else {
                            let subscribed = match data.is_user_subscribed(user_id, &domain) {
                                Ok(s) => s,
                                Err(e) => {
                                    return Err(RequestError::Data(e));
                                },
                            };
                            if subscribed {
                                SimpleResult::Failure { error: "already_subscribed" }
                            } else {
                                match data.user_subscribe_domain(user_id, &domain) {
                                    Ok(()) => SimpleResult::Success,
                                    Err(e) => {
                                        return Err(RequestError::Data(e));
                                    },
                                }
                            }
                        }
                    },
                    None => SimpleResult::Failure { error: "not_found" },
                };
                Ok(reply(conn, id, Response::UserSubscribeDomain(res)))
            },
            Request::UserUnsubscribeDomain { id: domain_id } => {
                let found = match data.domain_by_domain_id(domain_id.as_str()) {
                    Ok(d) => d,
                    Err(e) => {
                        return Err(RequestError::Data(e));
                    },
                };
                let res = match found {
                    Some(domain) => {
                        if domain.owner_id() == user_id {
                            SimpleResult::Failure { error: "is_owner" }
                        } else {
                            let subscribed = match data.is_user_subscribed(user_id, &domain) {
                                Ok(s) => s,
                                Err(e) => {
                                    return Err(RequestError::Data(e));
                                },
                            };
                            if !subscribed {
                                SimpleResult::Failure { error: "not_subscribed" }
                            } else {
                                match data.user_unsubscribe_domain(user_id, &domain) {
                                    Ok(()) => SimpleResult::Success,
                                    Err(e) => {
                                        return Err(RequestError::Data(e));
                                    },
                                }
                            }
                        }
                    },
                    None => SimpleResult::Failure { error: "not_found" },
                };
                Ok(reply(conn, id, Response::UserSubscribeDomain(res)))
            },
            _ => Ok(Vec::new()),
        }
    }
}


/// Whether `action` asks the fetcher for the source at `uri` on behalf of
/// `user`.
pub open spec fn is_fetch_source(action: Action, user: UserId, uri: Seq<char>) -> bool {
    action matches Action::Fetch(FetchRequest::Source(u, s)) && u == Some(user) && s@ == uri
}

/// Whether `action` asks the fetcher for the item at `uri` on behalf of
/// `user`.
pub open spec fn is_fetch_item(action: Action, user: UserId, uri: Seq<char>) -> bool {
    action matches Action::Fetch(FetchRequest::SourceItem(u, s)) && u == Some(user) && s@ == uri
}

/// Whether a response to a request for a source tells what the user sees of
/// it: the date of the fetch and the version with its decoded tags and items,
/// or that nothing is loaded.
pub open spec fn tells_source(
    x: SourceResult,
    seen: Option<(Seq<char>, crate::data::models::SourceVersionView)>,
) -> bool {
    match seen {
        Some((date, v)) => x.loaded && (x.data matches Some(d) && d.last_fetched@ == date
            && opt_text(d.last_updated) == v.date_updated && Some(d.data@) == decoded_tags(
            v.metadata,
        ) && Some(views(d.items@)) == decoded_items(v.items)),
        None => !x.loaded && x.data is None,
    }
}

/// Whether a response to a request for an item tells what the user sees of
/// it.
pub open spec fn tells_item(
    x: SourceItemResult,
    seen: Option<(Seq<char>, crate::data::models::SourceItemVersionView)>,
) -> bool {
    match seen {
        Some((date, v)) => x.loaded && (x.data matches Some(d) && d.last_fetched@ == date
            && opt_text(d.last_updated) == v.date_updated),
        None => !x.loaded && x.data is None,
    }
}

/// Whether `found` are the user data of the row `row`, or nothing where
/// there is no row.
pub open spec fn tells_user_data(found: Option<Vec<u8>>, row: Option<Option<Seq<u8>>>) -> bool {
    match (found, row) {
        (Some(bytes), Some(data)) => bytes@ == data_or_empty(data),
        (None, None) => true,
        _ => false,
    }
}

/// What handling a request about sources and items comes to, for the user
/// `user`.
pub open spec fn source_request_handled(
    before: DataView,
    after: DataView,
    user: UserId,
    conn: SessionId,
    id: RequestId,
    req: Request,
    res: Result<Vec<Action>, RequestError>,
) -> bool {
    match req {
        Request::UserSources => unchanged_reply(
            before,
            after,
            res,
            conn,
            id,
            |r: Response|
                r matches Response::UserSources(uris) && views(uris@) == before.subscriptions_of(
                    user,
                ),
        ),
        Request::UserSubscribeSource { uri } => match before.subscribe_result(user, uri@) {
            Ok(store) => after == store && (res matches Ok(a) && event_then_reply(
                a@,
                dispatch_to(user, EventView::UserDidSubscribeSource { source: uri@ }),
                conn,
                id,
                |r: Response| r matches Response::UserSubscribeSource(SimpleResult::Success),
            )),
            Err(crate::data::sources::SubscribeFailure::InvalidUri) => unchanged_reply(
                before,
                after,
                res,
                conn,
                id,
                |r: Response|
                    r matches Response::UserSubscribeSource(x) && is_failure(x, "invalid_uri"@),
            ),
            Err(crate::data::sources::SubscribeFailure::AlreadyInState) => unchanged_reply(
                before,
                after,
                res,
                conn,
                id,
                |r: Response|
                    r matches Response::UserSubscribeSource(x) && is_failure(
                        x,
                        "already_subscribed"@,
                    ),
            ),
        },
        Request::UserUnsubscribeSource { uri } => match before.unsubscribe_result(user, uri@) {
            Ok(store) => after == store && (res matches Ok(a) && event_then_reply(
                a@,
                dispatch_to(user, EventView::UserDidUnsubscribeSource { source: uri@ }),
                conn,
                id,
                |r: Response| r matches Response::UserUnsubscribeSource(SimpleResult::Success),
            )),
            Err(crate::data::sources::SubscribeFailure::InvalidUri) => unchanged_reply(
                before,
                after,
                res,
                conn,
                id,
                |r: Response|
                    r matches Response::UserUnsubscribeSource(x) && is_failure(x, "invalid_uri"@),
            ),
            Err(crate::data::sources::SubscribeFailure::AlreadyInState) => unchanged_reply(
                before,
                after,
                res,
                conn,
                id,
                |r: Response|
                    r matches Response::UserUnsubscribeSource(x) && is_failure(
                        x,
                        "not_subscribed"@,
                    ),
            ),
        },
        Request::UserDeleteSource { uri } => after == before.user_delete_source(user, uri@) && (
        res matches Ok(a) && event_then_reply(
            a@,
            dispatch_to(
                user,
                EventView::SubscribedSourceDidUpdate {
                    source: uri@,
                    update_type: UpdateType::Delete,
                },
            ),
            conn,
            id,
            |r: Response| r matches Response::UserDeleteSource(SimpleResult::Success),
        )),
        Request::UserRequestSource { uri } => after == before && (res matches Ok(a) && a@.len()
            == 2 && is_fetch_source(a@[0], user, uri@) && is_reply(
            a@[1],
            conn,
            id,
            |r: Response| r matches Response::UserRequestSource(SimpleResult::Success),
        )),
        Request::UserRequestSourceItem { uri } => after == before && (res matches Ok(a)
            && a@.len() == 2 && is_fetch_item(a@[0], user, uri@) && is_reply(
            a@[1],
            conn,
            id,
            |r: Response| r matches Response::UserRequestSourceItem(SimpleResult::Success),
        )),
        Request::Source { uri } => match seen_source(before, user, uri@) {
            Some((_, v)) if decoded_tags(v.metadata) is None || decoded_items(v.items) is None =>
            fails_with(before, after, res, RequestError::Data(DataError::Decode)),
            seen => unchanged_reply(
                before,
                after,
                res,
                conn,
                id,
                |r: Response| r matches Response::Source(x) && tells_source(x, seen),
            ),
        },
        Request::SourceItem { uri } => unchanged_reply(
            before,
            after,
            res,
            conn,
            id,
            |r: Response|
                r matches Response::SourceItem(x) && tells_item(x, seen_item(before, user, uri@)),
        ),
        Request::SourceItemData { uri } => match seen_item(before, user, uri@) {
            Some((_, v)) => match stored_item_tags(v.data) {
                Ok(tags) => unchanged_reply(
                    before,
                    after,
                    res,
                    conn,
                    id,
                    |r: Response| r matches Response::SourceItemData(Some(t)) && t@ == tags,
                ),
                Err(e) => fails_with(before, after, res, RequestError::Data(e)),
            },
            None => unchanged_reply(
                before,
                after,
                res,
                conn,
                id,
                |r: Response| r matches Response::SourceItemData(None),
            ),
        },
        Request::SourceUserData { uri } => unchanged_reply(
            before,
            after,
            res,
            conn,
            id,
            |r: Response|
                r matches Response::SourceUserData(found) && tells_user_data(
                    found,
                    match before.user_source(user, uri@) {
                        Some(p) => Some(p.user_data),
                        None => None,
                    },
                ),
        ),
        Request::SourceItemUserData { uri } => unchanged_reply(
            before,
            after,
            res,
            conn,
            id,
            |r: Response|
                r matches Response::SourceItemUserData(found) && tells_user_data(
                    found,
                    match before.user_source_item(user, uri@) {
                        Some(p) => Some(p.user_data),
                        None => None,
                    },
                ),
        ),
        Request::SetSourceUserData { uri, data } => match canonical_uri(uri@) {
            None => unchanged_reply(
                before,
                after,
                res,
                conn,
                id,
                |r: Response|
                    r matches Response::SetSourceUserData(x) && is_failure(x, "invalid_uri"@),
            ),
            Some(_) => after == before.user_update_source_data(user, uri@, data@) && (
            res matches Ok(a) && event_then_reply(
                a@,
                DispatchView {
                    user,
                    event: EventView::SourceUserDataDidUpdate { source: uri@ },
                    exclude: Some(conn),
                },
                conn,
                id,
                |r: Response| r matches Response::SetSourceUserData(SimpleResult::Success),
            )),
        },
        Request::SetSourceItemUserData { uri, data } => match canonical_uri(uri@) {
            None => unchanged_reply(
                before,
                after,
                res,
                conn,
                id,
                |r: Response|
                    r matches Response::SetSourceItemUserData(x) && is_failure(x, "invalid_uri"@),
            ),
            Some(_) => after == before.user_update_source_item_data(user, uri@, data@) && (
            res matches Ok(a) && event_then_reply(
                a@,
                DispatchView {
                    user,
                    event: EventView::SourceItemUserDataDidUpdate { source_item: uri@ },
                    exclude: Some(conn),
                },
                conn,
                id,
                |r: Response| r matches Response::SetSourceItemUserData(SimpleResult::Success),
            )),
        },
        _ => true,
    }
}

impl User {
    /// Handles a request about sources and items.
    fn handle_source_request(
        data: &mut Data,
        user_id: UserId,
        conn: SessionId,
        id: RequestId,
        req: Request,
    ) -> (res: Result<Vec<Action>, RequestError>)
        ensures
            old(data)@.well_formed() ==> final(data)@.well_formed(),
            source_request_handled(old(data)@, final(data)@, user_id, conn, id, req, res),
    {
        match req {
            Request::UserSources => {
                let uris = match data.user_source_subscriptions(user_id) {
                    Ok(u) => u,
                    Err(e) => {
                        return Err(RequestError::Data(e));
                    },
                };
                Ok(reply(conn, id, Response::UserSources(uris)))
            },
            Request::UserSubscribeSource { uri } => {
                match data.user_subscribe_source(user_id, uri.as_str()) {
                    Ok(event) => Ok(
                        event_and_reply(
                            event,
                            conn,
                            id,
                            Response::UserSubscribeSource(SimpleResult::Success),
                        ),
                    ),
                    Err(SubscribeError::InvalidUri) => Ok(
                        reply(
                            conn,
                            id,
                            Response::UserSubscribeSource(
                                SimpleResult::Failure { error: "invalid_uri" },
                            ),
                        ),
                    ),
                    Err(SubscribeError::AlreadyInState) => Ok(
                        reply(
                            conn,
                            id,
                            Response::UserSubscribeSource(
                                SimpleResult::Failure { error: "already_subscribed" },
                            ),
                        ),
                    ),
                    Err(SubscribeError::Data(error)) => Err(RequestError::Data(error)),
                }
            },
            Request::UserUnsubscribeSource { uri } => {
                match data.user_unsubscribe_source(user_id, uri.as_str()) {
                    Ok(event) => Ok(
                        event_and_reply(
                            event,
                            conn,
                            id,
                            Response::UserUnsubscribeSource(SimpleResult::Success),
                        ),
                    ),
                    Err(SubscribeError::InvalidUri) => Ok(
                        reply(
                            conn,
                            id,
                            Response::UserUnsubscribeSource(
                                SimpleResult::Failure { error: "invalid_uri" },
                            ),
                        ),
                    ),
                    Err(SubscribeError::AlreadyInState) => Ok(
                        reply(
                            conn,
                            id,
                            Response::UserUnsubscribeSource(
                                SimpleResult::Failure { error: "not_subscribed" },
                            ),
                        ),
                    ),
                    Err(SubscribeError::Data(error)) => Err(RequestError::Data(error)),
                }
            },
            Request::UserDeleteSource { uri } => {
                match data.user_delete_source(user_id, uri.as_str()) {
                    Ok(event) => Ok(
                        event_and_reply(
                            event,
                            conn,
                            id,
                            Response::UserDeleteSource(SimpleResult::Success),
                        ),
                    ),
                    Err(e) => Err(RequestError::Data(e)),
                }
            },
            Request::UserRequestSource { uri } => {
                let mut actions: Vec<Action> = Vec::new();
                actions.push(Action::Fetch(FetchRequest::Source(Some(user_id), uri)));
                actions.push(
                    Action::Conn(
                        conn,
                        UserConnMsg::Response {
                            id,
                            data: Response::UserRequestSource(SimpleResult::Success),
                        },
                    ),
                );
                Ok(actions)
            },
            Request::UserRequestSourceItem { uri } => {
                let mut actions: Vec<Action> = Vec::new();
                actions.push(Action::Fetch(FetchRequest::SourceItem(Some(user_id), uri)));
                actions.push(
                    Action::Conn(
                        conn,
                        UserConnMsg::Response {
                            id,
                            data: Response::UserRequestSourceItem(SimpleResult::Success),
                        },
                    ),
                );
                Ok(actions)
            },
            Request::Source { uri } => {
                let source = match data.user_source(user_id, uri.as_str()) {
                    Ok(s) => s,
                    Err(e) => {
                        return Err(RequestError::Data(e));
                    },
                };
                let mut result: Option<SourceResultData> = None;
                if let Some(source) = source {
                    if let Some((date, hash)) = source.version_date_hash() {
                        let version = match data.source_by_hash(hash) {
                            Ok(v) => v,
                            Err(e) => {
                                return Err(RequestError::Data(e));
                            },
                        };
                        if let Some(version) = version {
                            let tags = match version.tags() {
                                Ok(t) => t,
                                Err(_) => {
                                    return Err(RequestError::Data(DataError::Decode));
                                },
                            };
                            let items = match version.items() {
                                Ok(i) => i,
                                Err(_) => {
                                    return Err(RequestError::Data(DataError::Decode));
                                },
                            };
                            result =
                            Some(
                                SourceResultData {
                                    last_fetched: copy_str(date),
                                    last_updated: own_opt_str(version.date_updated()),
                                    data: tags,
                                    items,
                                },
                            );
                        }
                    }
                }
                let loaded = result.is_some();
                Ok(reply(conn, id, Response::Source(SourceResult { loaded, data: result })))
            },
            Request::SourceItem { uri } => {
                let source_item = match data.user_source_item(user_id, uri.as_str()) {
                    Ok(s) => s,
                    Err(e) => {
                        return Err(RequestError::Data(e));
                    },
                };
                let mut result: Option<SourceItemResultData> = None;
                if let Some(source_item) = source_item {
                    if let Some((date, hash)) = source_item.version_date_hash() {
                        let version = match data.source_item_by_hash(hash) {
                            Ok(v) => v,
                            Err(e) => {
                                return Err(RequestError::Data(e));
                            },
                        };
                        if let Some(version) = version {
                            result =
                            Some(
                                SourceItemResultData {
                                    last_fetched: copy_str(date),
                                    last_updated: own_opt_str(version.date_updated()),
                                },
                            );
                        }
                    }
                }
                let loaded = result.is_some();
                Ok(reply(conn, id, Response::SourceItem(SourceItemResult { loaded, data: result })))
            },
            Request::SourceItemData { uri } => {
                let source_item = match data.user_source_item(user_id, uri.as_str()) {
                    Ok(s) => s,
                    Err(e) => {
                        return Err(RequestError::Data(e));
                    },
                };
                let mut result: Option<Vec<u8>> = None;
                if let Some(source_item) = source_item {
                    if let Some((_, hash)) = source_item.version_date_hash() {
                        let version = match data.source_item_by_hash(hash) {
                            Ok(v) => v,
                            Err(e) => {
                                return Err(RequestError::Data(e));
                            },
                        };
                        if let Some(version) = version {
                            match version.get_data() {
                                Ok(d) => {
                                    result = Some(d.tags);
                                },
                                Err(e) => {
                                    return Err(RequestError::Data(e));
                                },
                            }
                        }
                    }
                }
                Ok(reply(conn, id, Response::SourceItemData(result)))
            },
            Request::SourceUserData { uri } => {
                let source = match data.user_source(user_id, uri.as_str()) {
                    Ok(s) => s,
                    Err(e) => {
                        return Err(RequestError::Data(e));
                    },
                };
                let found = match source {
                    Some(s) => Some(copy_bytes(s.user_data())),
                    None => None,
                };
                Ok(reply(conn, id, Response::SourceUserData(found)))
            },
            Request::SourceItemUserData { uri } => {
                let source = match data.user_source_item(user_id, uri.as_str()) {
                    Ok(s) => s,
                    Err(e) => {
                        return Err(RequestError::Data(e));
                    },
                };
                let found = match source {
                    Some(s) => Some(copy_bytes(s.user_data())),
                    None => None,
                };
                Ok(reply(conn, id, Response::SourceItemUserData(found)))
            },
            Request::SetSourceUserData { uri, data: user_data } => {
                if canonicalize_uri(uri.as_str()).is_err() {
                    return Ok(
                        reply(
                            conn,
                            id,
                            Response::SetSourceUserData(
                                SimpleResult::Failure { error: "invalid_uri" },
                            ),
                        ),
                    );
                }
                match data.user_update_source_data(user_id, uri.as_str(), user_data, Some(conn)) {
                    Ok(event) => Ok(
                        event_and_reply(
                            event,
                            conn,
                            id,
                            Response::SetSourceUserData(SimpleResult::Success),
                        ),
                    ),
                    Err(e) => Err(RequestError::Data(e)),
                }
            },
            Request::SetSourceItemUserData { uri, data: user_data } => {
                if canonicalize_uri(uri.as_str()).is_err() {
                    return Ok(
                        reply(
                            conn,
                            id,
                            Response::SetSourceItemUserData(
                                SimpleResult::Failure { error: "invalid_uri" },
                            ),
                        ),
                    );
                }
                match data.user_update_source_item_data(
                    user_id,
                    uri.as_str(),
                    user_data,
                    Some(conn),
                ) {
                    Ok(event) => Ok(
                        event_and_reply(
                            event,
                            conn,
                            id,
                            Response::SetSourceItemUserData(SimpleResult::Success),
                        ),
                    ),
                    Err(e) => Err(RequestError::Data(e)),
                }
            },
            _ => Ok(Vec::new()),
        }
    }
}


/// Whether the keys in a response are the keys `rows`, each with its label.
pub open spec fn tells_keys(keys: Seq<ResponseRssAuthKey>, rows: Seq<RssAuthKeyView>) -> bool {
    keys.len() == rows.len() && forall|i: int|
        0 <= i < keys.len() ==> opt_text((#[trigger] keys[i]).label) == rows[i].label
            && keys[i].key@ == rows[i].auth_key
}

/// What handling a request about RSS keys comes to, for the user `user`. A
/// new key is made of random bytes, written in hex. The request to
/// enumerate objects has no response, so it fails.
pub open spec fn rss_request_handled(
    before: DataView,
    after: DataView,
    user: UserId,
    conn: SessionId,
    id: RequestId,
    req: Request,
    res: Result<Vec<Action>, RequestError>,
) -> bool {
    match req {
        Request::UserRssAuthKeys => unchanged_reply(
            before,
            after,
            res,
            conn,
            id,
            |r: Response|
                r matches Response::UserRssAuthKeys(keys) && tells_keys(
                    keys@,
                    before.user_rss_auth_keys(user),
                ),
        ),
        Request::UserCreateRssAuthKey { label } => res matches Ok(a) && one_reply(
            a@,
            conn,
            id,
            |r: Response|
                r matches Response::UserCreateRssAuthKey(x) && if x.success {
                    x.key@.len() == 2 * RSS_AUTH_KEY_LEN && x.error@.len() == 0 && after
                        == before.with_rss_auth_key(user, x.key@, opt_text(label))
                } else {
                    x.key@.len() == 0 && x.error@ == "internal_error"@ && after == before
                },
        ),
        Request::UserDeleteRssAuthKey { key } => after == before.without_rss_auth_key(user, key@)
            && (res matches Ok(a) && one_reply(
            a@,
            conn,
            id,
            |r: Response| r matches Response::UserDeleteRssAuthKey(SimpleResult::Success),
        )),
        Request::UserEnumerateObjects => fails_with(
            before,
            after,
            res,
            RequestError::InternalError,
        ),
        _ => true,
    }
}

/// Which of the four kinds of request a request is.
#[derive(Debug, Clone, Copy, PartialEq, Eq, Structural)]
pub enum RequestKind {
    Account,
    Domain,
    Source,
    Rss,
}

/// The kind of a request.
pub open spec fn request_kind(req: Request) -> RequestKind {
    match req {
        Request::UserClientKey
        | Request::UserSecretKey
        | Request::UserTokens
        | Request::UserChangeName { .. }
        | Request::UserChangePassword { .. }
        | Request::UserChangeSecretKey { .. }
        | Request::UserDelete { .. }
        | Request::UserRegenClientKey => RequestKind::Account,
        Request::UserDomains
        | Request::PublicDomains
        | Request::Domain { .. }
        | Request::DomainScript { .. }
        | Request::UserCreateDomain { .. }
        | Request::UserUpdateDomain { .. }
        | Request::UserDeleteDomain { .. }
        | Request::UserSubscribeDomain { .. }
        | Request::UserUnsubscribeDomain { .. } => RequestKind::Domain,
        Request::UserRssAuthKeys
        | Request::UserCreateRssAuthKey { .. }
        | Request::UserDeleteRssAuthKey { .. }
        | Request::UserEnumerateObjects => RequestKind::Rss,
        _ => RequestKind::Source,
    }
}

/// What handling a request of the user `user` comes to. Where the store
/// holds no such user, the connection is told to stop and nothing else
/// happens. Otherwise the request is answered by one response, after the
/// events and fetch requests that it gives rise to, or it fails and is
/// answered by nobody.
pub open spec fn request_handled(
    before: DataView,
    after: DataView,
    user: UserId,
    conn: SessionId,
    id: RequestId,
    req: Request,
    res: Result<Vec<Action>, RequestError>,
) -> bool {
    match before.user(user) {
        None => after == before && (res matches Ok(a) && a@.len() == 1 && is_force_stop(
            a@[0],
            conn,
        )),
        Some(u) => match request_kind(req) {
            RequestKind::Account => account_request_handled(before, after, u, conn, id, req, res),
            RequestKind::Domain => domain_request_handled(before, after, user, conn, id, req, res),
            RequestKind::Source => source_request_handled(before, after, user, conn, id, req, res),
            RequestKind::Rss => rss_request_handled(before, after, user, conn, id, req, res),
        },
    }
}

/// The keys of a response for the keys of the store.
fn key_responses(keys: &Vec<RssAuthKey>) -> (out: Vec<ResponseRssAuthKey>)
    ensures
        tells_keys(out@, views(keys@)),
{
    let mut out: Vec<ResponseRssAuthKey> = Vec::new();
    let mut i: usize = 0;
    while i < keys.len()
        invariant
            i <= keys@.len(),
            out@.len() == i,
            forall|j: int|
                0 <= j < i ==> opt_text((#[trigger] out@[j]).label) == keys@[j]@.label
                    && out@[j].key@ == keys@[j]@.auth_key,
        decreases keys@.len() - i,
    {
        out.push(
            ResponseRssAuthKey {
                label: own_opt_str(keys[i].label()),
                key: copy_str(keys[i].auth_key()),
            },
        );
        i += 1;
    }
    out
}

impl User {
    /// Handles a request about RSS keys.
    fn handle_rss_request(
        data: &mut Data,
        user_id: UserId,
        conn: SessionId,
        id: RequestId,
        req: Request,
    ) -> (res: Result<Vec<Action>, RequestError>)
        ensures
            old(data)@.well_formed() ==> final(data)@.well_formed(),
            rss_request_handled(old(data)@, final(data)@, user_id, conn, id, req, res),
    {
        proof {
            reveal_strlit("");
        }
        match req {
            Request::UserRssAuthKeys => {
                let keys = match data.user_rss_auth_keys(user_id) {
                    Ok(k) => k,
                    Err(e) => {
                        return Err(RequestError::Data(e));
                    },
                };
                Ok(reply(conn, id, Response::UserRssAuthKeys(key_responses(&keys))))
            },
            Request::UserCreateRssAuthKey { label } => {
                let res = match os_random_bytes(RSS_AUTH_KEY_LEN) {
                    Some(bytes) => {
                        let key = hex_encode(bytes.as_slice());
                        let label_ref = match &label {
                            Some(l) => Some(l.as_str()),
                            None => None,
                        };
                        match data.user_create_rss_auth_key(user_id, key.as_str(), label_ref) {
                            Ok(()) => UserCreateRssAuthKeyResult { success: true, key, error: "" },
                            Err(_) => UserCreateRssAuthKeyResult {
                                success: false,
                                key: String::new(),
                                error: "internal_error",
                            },
                        }
                    },
                    None => UserCreateRssAuthKeyResult {
                        success: false,
                        key: String::new(),
                        error: "internal_error",
                    },
                };
                Ok(reply(conn, id, Response::UserCreateRssAuthKey(res)))
            },
            Request::UserDeleteRssAuthKey { key } => {
                match data.user_delete_rss_auth_key(user_id, key.as_str()) {
                    Ok(()) => Ok(
                        reply(conn, id, Response::UserDeleteRssAuthKey(SimpleResult::Success)),
                    ),
                    Err(e) => Err(RequestError::Data(e)),
                }
            },
            Request::UserEnumerateObjects => Err(RequestError::InternalError),
            _ => Ok(Vec::new()),
        }
    }

    /// Handles a request of one of the user's sessions on the store and
    /// returns what is to be done about it: the response to the request,
    /// events for the user's sessions and requests for the fetcher.
    pub fn handle_client_request(
        &self,
        data: &mut Data,
        conn: SessionId,
        id: RequestId,
        req: Request,
    ) -> (res: Result<Vec<Action>, RequestError>)
        ensures
            old(data)@.well_formed() ==> final(data)@.well_formed(),
            request_handled(old(data)@, final(data)@, self.user_id, conn, id, req, res),
    {
        let user = match data.user(self.user_id) {
            Ok(Some(user)) => user,
            Ok(None) => {
                // user doesn't exist; close the connection
                let mut actions: Vec<Action> = Vec::new();
                actions.push(Action::Conn(conn, UserConnMsg::ForceStop));
                return Ok(actions);
            },
            Err(e) => {
                return Err(RequestError::Data(e));
            },
        };
        match &req {
            Request::UserClientKey
            | Request::UserSecretKey
            | Request::UserTokens
            | Request::UserChangeName { .. }
            | Request::UserChangePassword { .. }
            | Request::UserChangeSecretKey { .. }
            | Request::UserDelete { .. }
            | Request::UserRegenClientKey => User::handle_account_request(
                data,
                &user,
                conn,
                id,
                req,
            ),
            Request::UserDomains
            | Request::PublicDomains
            | Request::Domain { .. }
            | Request::DomainScript { .. }
            | Request::UserCreateDomain { .. }
            | Request::UserUpdateDomain { .. }
            | Request::UserDeleteDomain { .. }
            | Request::UserSubscribeDomain { .. }
            | Request::UserUnsubscribeDomain { .. } => User::handle_domain_request(
                data,
                self.user_id,
                conn,
                id,
                req,
            ),
            Request::UserRssAuthKeys
            | Request::UserCreateRssAuthKey { .. }
            | Request::UserDeleteRssAuthKey { .. }
            | Request::UserEnumerateObjects => User::handle_rss_request(
                data,
                self.user_id,
                conn,
                id,
                req,
            ),
            _ => User::handle_source_request(data, self.user_id, conn, id, req),
        }
    }

    /// Handles a request and, where it fails, answers it with an error
    /// response.
    pub fn handle_client_message(
        &self,
        data: &mut Data,
        conn: SessionId,
        id: RequestId,
        req: Request,
    ) -> (actions: Vec<Action>)
        ensures
            old(data)@.well_formed() ==> final(data)@.well_formed(),
            request_handled(
                old(data)@,
                final(data)@,
                self.user_id,
                conn,
                id,
                req,
                Ok(actions),
            ) || (actions@.len() == 1 && (actions@[0] matches Action::Conn(
                c,
                UserConnMsg::ErrorResponse { id: i },
            ) && c == conn && i == id) && exists|e: RequestError|
                #[trigger] request_handled(
                    old(data)@,
                    final(data)@,
                    self.user_id,
                    conn,
                    id,
                    req,
                    Err(e),
                )),
    {
        match self.handle_client_request(data, conn, id, req) {
            Ok(actions) => actions,
            Err(err) => {
                let mut actions: Vec<Action> = Vec::new();
                actions.push(Action::Conn(conn, UserConnMsg::ErrorResponse { id }));
                assert(request_handled(
                    old(data)@,
                    data@,
                    self.user_id,
                    conn,
                    id,
                    req,
                    Err(err),
                ));
                actions
            },
        }
    }
}


/// A message from a connection about its session: it began, or it ended.
#[derive(Debug, Clone, Copy, PartialEq, Eq, Structural)]
pub enum SessionMsg {
    Add(SessionId),
    Remove(SessionId),
}

/// The sessions with the session `conn` among them, added at the time
/// `now`: a session that is there gets the new time, another one is added at
/// the end.
pub open spec fn with_session(conns: Seq<(SessionId, u64)>, conn: SessionId, now: u64) -> Seq<
    (SessionId, u64),
> {
    if any_where(conns, |c: (SessionId, u64)| c.0 == conn) {
        Seq::new(
            conns.len(),
            |i: int|
                if conns[i].0 == conn {
                    (conn, now)
                } else {
                    conns[i]
                },
        )
    } else {
        conns.push((conn, now))
    }
}

/// The oldest of the sessions that were added before `bound`: the one with
/// the earliest time, and of several with the earliest time the first.
pub open spec fn oldest_session(conns: Seq<(SessionId, u64)>, bound: u64) -> Option<
    (SessionId, u64),
>
    decreases conns.len(),
{
    if conns.len() == 0 {
        None
    } else {
        let earlier = oldest_session(conns.drop_last(), bound);
        let c = conns.last();
        let limit = match earlier {
            Some(e) => e.1,
            None => bound,
        };
        if c.1 < limit {
            Some(c)
        } else {
            earlier
        }
    }
}

/// The session that is told to stop when the sessions have become `conns` at
/// the time `now`: the oldest, where there are more than `MAX_USER_SESSIONS`.
pub open spec fn kicked_session(conns: Seq<(SessionId, u64)>, now: u64) -> Option<SessionId> {
    if conns.len() > MAX_USER_SESSIONS {
        match oldest_session(conns, now) {
            Some(c) => Some(c.0),
            None => None,
        }
    } else {
        None
    }
}

/// The sessions that an event goes to: every session but the excluded one,
/// in the order of the sessions.
pub open spec fn event_targets(conns: Seq<(SessionId, u64)>, exclude: Option<SessionId>) -> Seq<
    SessionId,
> {
    picked(
        conns,
        |c: (SessionId, u64)|
            if exclude == Some(c.0) {
                None
            } else {
                Some(c.0)
            },
    )
}

/// Whether no session occurs twice among the sessions. The hub keeps its
/// sessions so: a session gets an event once.
pub open spec fn distinct_sessions(conns: Seq<(SessionId, u64)>) -> bool {
    unique_by(conns, |c: (SessionId, u64)| c.0)
}

/// What the hub asks for where the session `kicked` has to stop: that it is
/// told so, once.
pub open spec fn stops_session(actions: Seq<Action>, kicked: Option<SessionId>) -> bool {
    match kicked {
        Some(k) => actions.len() == 1 && (actions[0] matches Action::Conn(
            c,
            UserConnMsg::ForceStop,
        ) && c == k),
        None => actions.len() == 0,
    }
}

/// Sessions of which none occurs twice stay so when a session is added and
/// when one is removed, and the session that is added is among them
/// afterwards.
pub proof fn lemma_sessions_stay_distinct(conns: Seq<(SessionId, u64)>, conn: SessionId, now: u64)
    requires
        distinct_sessions(conns),
    ensures
        distinct_sessions(with_session(conns, conn, now)),
        distinct_sessions(conns.filter(|c: (SessionId, u64)| c.0 != conn)),
        with_session(conns, conn, now).contains((conn, now)),
        !conns.filter(|c: (SessionId, u64)| c.0 != conn).contains((conn, now)),
{
    let key = |c: (SessionId, u64)| c.0;
    let after = with_session(conns, conn, now);
    if any_where(conns, |c: (SessionId, u64)| c.0 == conn) {
        lemma_unique_same_keys(conns, after, key);
        let i = choose|i: int|
            0 <= i < conns.len() && (|c: (SessionId, u64)| c.0 == conn)(#[trigger] conns[i]);
        assert(after[i] == (conn, now));
    } else {
        assert forall|i: int| 0 <= i < conns.len() implies key(#[trigger] conns[i]) != key(
            (conn, now),
        ) by {
            assert(!(|c: (SessionId, u64)| c.0 == conn)(conns[i]));
        }
        lemma_unique_push(conns, key, (conn, now));
        assert(after[conns.len() as int] == (conn, now));
    }
    let keep = |c: (SessionId, u64)| c.0 != conn;
    lemma_unique_filter(conns, key, keep);
    if conns.filter(keep).contains((conn, now)) {
        let i = choose|i: int| 0 <= i < conns.filter(keep).len() && conns.filter(keep)[i] == (
            conn,
            now,
        );
        conns.lemma_filter_pred(keep, i);
    }
}

/// The oldest session is one of the sessions, was added before the bound,
/// and no session was added before it.
pub proof fn lemma_oldest_session(conns: Seq<(SessionId, u64)>, bound: u64)
    ensures
        match oldest_session(conns, bound) {
            Some(c) => conns.contains(c) && c.1 < bound && forall|i: int|
                0 <= i < conns.len() ==> c.1 <= (#[trigger] conns[i]).1,
            None => forall|i: int| 0 <= i < conns.len() ==> (#[trigger] conns[i]).1 >= bound,
        },
    decreases conns.len(),
{
    if conns.len() > 0 {
        let init = conns.drop_last();
        lemma_oldest_session(init, bound);
        let earlier = oldest_session(init, bound);
        let c = conns.last();
        assert(conns[conns.len() - 1] == c);
        assert forall|i: int| 0 <= i < init.len() implies init[i] == conns[i] by {}
        match oldest_session(conns, bound) {
            Some(o) => {
                if o == c {
                } else {
                    let k = choose|k: int| 0 <= k < init.len() && init[k] == o;
                    assert(conns[k] == o);
                }
                assert forall|i: int| 0 <= i < conns.len() implies o.1 <= (#[trigger] conns[i]).1 by {
                    if i < init.len() {
                        assert(init[i] == conns[i]);
                    }
                }
            },
            None => {
                assert forall|i: int| 0 <= i < conns.len() implies (#[trigger] conns[i]).1
                    >= bound by {
                    if i < init.len() {
                        assert(init[i] == conns[i]);
                    }
                }
            },
        }
    }
}

/// When a user with five sessions or more opens another one, the new
/// session is added behind the others, and a session is told to stop if any
/// session is older than the new one. It is an oldest one: no session was
/// added before it; where one session is older than every other, it is that
/// one. It is not the new session.
pub proof fn lemma_session_cap(conns: Seq<(SessionId, u64)>, conn: SessionId, now: u64)
    requires
        distinct_sessions(conns),
        conns.len() >= MAX_USER_SESSIONS,
        !any_where(conns, |c: (SessionId, u64)| c.0 == conn),
        exists|i: int| 0 <= i < conns.len() && (#[trigger] conns[i]).1 < now,
    ensures
        with_session(conns, conn, now) == conns.push((conn, now)),
        distinct_sessions(with_session(conns, conn, now)),
        kicked_session(with_session(conns, conn, now), now) matches Some(k) && k != conn
            && exists|i: int|
            0 <= i < conns.len() && (#[trigger] conns[i]).0 == k && forall|j: int|
                0 <= j < conns.len() ==> conns[i].1 <= (#[trigger] conns[j]).1,
        forall|i: int|
            0 <= i < conns.len() && (forall|j: int|
                0 <= j < conns.len() && j != i ==> (#[trigger] conns[i]).1 < (
                #[trigger] conns[j]).1) ==> kicked_session(with_session(conns, conn, now), now)
                == Some(conns[i].0),
{
    let after = with_session(conns, conn, now);
    lemma_sessions_stay_distinct(conns, conn, now);
    lemma_oldest_session(after, now);
    let i = choose|i: int| 0 <= i < conns.len() && (#[trigger] conns[i]).1 < now;
    assert(after[i] == conns[i]);
    let o = oldest_session(after, now)->0;
    let k = choose|k: int| 0 <= k < after.len() && after[k] == o;
    assert(k < conns.len());
    assert(conns[k] == o);
    assert(!(|c: (SessionId, u64)| c.0 == conn)(conns[k]));
    assert forall|j: int| 0 <= j < conns.len() implies conns[k].1 <= (#[trigger] conns[j]).1 by {
        assert(after[j] == conns[j]);
    }
    assert forall|i: int|
        0 <= i < conns.len() && (forall|j: int|
            0 <= j < conns.len() && j != i ==> (#[trigger] conns[i]).1 < (
            #[trigger] conns[j]).1) implies kicked_session(after, now) == Some(conns[i].0) by {
        if k != i {
            assert(conns[i].1 < conns[k].1);
            assert(conns[k].1 <= conns[i].1);
        }
    }
}

/// A user with five sessions or fewer keeps them all: nobody is told to
/// stop.
pub proof fn lemma_within_session_cap(conns: Seq<(SessionId, u64)>, now: u64)
    requires
        conns.len() <= MAX_USER_SESSIONS,
    ensures
        kicked_session(conns, now) is None,
{
}

/// Where no session occurs twice an event goes to each session once: no
/// session occurs twice among the targets of an event.
pub proof fn lemma_targets_distinct(conns: Seq<(SessionId, u64)>, exclude: Option<SessionId>)
    requires
        distinct_sessions(conns),
    ensures
        event_targets(conns, exclude).no_duplicates(),
    decreases conns.len(),
{
    let pick = |c: (SessionId, u64)|
        if exclude == Some(c.0) {
            None
        } else {
            Some(c.0)
        };
    if conns.len() > 0 {
        let init = conns.drop_last();
        let last = conns.last();
        assert forall|i: int, j: int| 0 <= i < j < init.len() implies (|c: (SessionId, u64)| c.0)(
            #[trigger] init[i],
        ) != (|c: (SessionId, u64)| c.0)(#[trigger] init[j]) by {
            assert(init[i] == conns[i] && init[j] == conns[j]);
        }
        lemma_targets_distinct(init, exclude);
        let before = picked(init, pick);
        if exclude != Some(last.0) {
            lemma_picked_contains(init, pick, last.0);
            if before.contains(last.0) {
                let i = choose|i: int| 0 <= i < init.len() && pick(#[trigger] init[i]) == Some(
                    last.0,
                );
                assert(conns[i] == init[i]);
                assert(conns[conns.len() - 1] == last);
                assert((|c: (SessionId, u64)| c.0)(conns[i]) != (|c: (SessionId, u64)| c.0)(
                    conns[conns.len() - 1],
                ));
            }
            assert(event_targets(conns, exclude) =~= before.push(last.0));
            let after = before.push(last.0);
            assert forall|i: int, j: int|
                0 <= i < after.len() && 0 <= j < after.len() && i != j implies after[i]
                != after[j] by {
                if i < before.len() {
                    assert(before.contains(before[i]));
                }
                if j < before.len() {
                    assert(before.contains(before[j]));
                }
            }
        } else {
            assert(event_targets(conns, exclude) =~= before);
        }
    }
}

/// An event for every session but one reaches every other session of the
/// user, and not the one that is excluded.
pub proof fn lemma_echo_suppressed(conns: Seq<(SessionId, u64)>, origin: SessionId)
    ensures
        !event_targets(conns, Some(origin)).contains(origin),
        forall|i: int|
            0 <= i < conns.len() && (#[trigger] conns[i]).0 != origin ==> event_targets(
                conns,
                Some(origin),
            ).contains(conns[i].0),
        forall|i: int|
            0 <= i < conns.len() ==> event_targets(conns, None).contains((#[trigger] conns[i]).0),
{
    let pick = |c: (SessionId, u64)|
        if Some(origin) == Some(c.0) {
            None
        } else {
            Some(c.0)
        };
    lemma_picked_contains(conns, pick, origin);
    assert forall|i: int| 0 <= i < conns.len() && (#[trigger] conns[i]).0 != origin implies picked(
        conns,
        pick,
    ).contains(conns[i].0) by {
        lemma_picked_contains(conns, pick, conns[i].0);
    }
    let all = |c: (SessionId, u64)|
        if None::<SessionId> == Some(c.0) {
            None
        } else {
            Some(c.0)
        };
    assert forall|i: int| 0 <= i < conns.len() implies picked(conns, all).contains(
        (#[trigger] conns[i]).0,
    ) by {
        lemma_picked_contains(conns, all, conns[i].0);
    }
}

impl User {
    /// Takes note that a session began at the time `now`. Returns the session
    /// that is to be told to stop, if the user has too many now.
    pub fn add_session(&mut self, conn: SessionId, now: u64) -> (kicked: Option<SessionId>)
        ensures
            final(self).user_id == old(self).user_id,
            final(self).conns@ == with_session(old(self).conns@, conn, now),
            kicked == kicked_session(final(self).conns@, now),
            distinct_sessions(old(self).conns@) ==> distinct_sessions(final(self).conns@),
    {
        proof {
            if distinct_sessions(self.conns@) {
                lemma_sessions_stay_distinct(self.conns@, conn, now);
            }
        }
        let ghost before = self.conns@;
        let ghost is_conn = |c: (SessionId, u64)| c.0 == conn;
        let mut found = false;
        let mut i: usize = 0;
        while i < self.conns.len()
            invariant
                i <= self.conns@.len(),
                self.conns@.len() == before.len(),
                self.user_id == old(self).user_id,
                found == exists|j: int| 0 <= j < i && (#[trigger] before[j]).0 == conn,
                forall|j: int|
                    0 <= j < i ==> #[trigger] self.conns@[j] == if before[j].0 == conn {
                        (conn, now)
                    } else {
                        before[j]
                    },
                forall|j: int| i <= j < before.len() ==> #[trigger] self.conns@[j] == before[j],
            decreases self.conns@.len() - i,
        {
            if self.conns[i].0 == conn {
                self.conns.set(i, (conn, now));
                found = true;
            }
            i += 1;
        }
        if !found {
            self.conns.push((conn, now));
        }
        proof {
            if found {
                let j = choose|j: int| 0 <= j < before.len() && (#[trigger] before[j]).0 == conn;
                assert(is_conn(before[j]));
            }
            assert(self.conns@ =~= with_session(before, conn, now));
        }
        if self.conns.len() > MAX_USER_SESSIONS {
            // kick the oldest connection
            let mut oldest_conn: Option<SessionId> = None;
            let mut oldest_conn_time: u64 = now;
            let mut k: usize = 0;
            assert(self.conns@.take(0) =~= Seq::<(SessionId, u64)>::empty());
            while k < self.conns.len()
                invariant
                    k <= self.conns@.len(),
                    match oldest_session(self.conns@.take(k as int), now) {
                        Some(c) => oldest_conn == Some(c.0) && oldest_conn_time == c.1,
                        None => oldest_conn is None && oldest_conn_time == now,
                    },
                decreases self.conns@.len() - k,
            {
                proof {
                    assert(self.conns@.take(k + 1).drop_last() =~= self.conns@.take(k as int));
                    assert(self.conns@.take(k + 1).last() == self.conns@[k as int]);
                }
                if self.conns[k].1 < oldest_conn_time {
                    oldest_conn = Some(self.conns[k].0);
                    oldest_conn_time = self.conns[k].1;
                }
                k += 1;
            }
            assert(self.conns@.take(k as int) =~= self.conns@);
            oldest_conn
        } else {
            None
        }
    }

    /// Takes note that a session ended. Returns whether the hub is to stop:
    /// it stops with its last session.
    pub fn remove_session(&mut self, conn: SessionId) -> (stop: bool)
        ensures
            final(self).user_id == old(self).user_id,
            final(self).conns@ == old(self).conns@.filter(|c: (SessionId, u64)| c.0 != conn),
            stop == (final(self).conns@.len() == 0),
            distinct_sessions(old(self).conns@) ==> distinct_sessions(final(self).conns@),
    {
        proof {
            if distinct_sessions(self.conns@) {
                lemma_sessions_stay_distinct(self.conns@, conn, 0);
            }
        }
        let ghost before = self.conns@;
        let ghost keep = |c: (SessionId, u64)| c.0 != conn;
        let mut kept: Vec<(SessionId, u64)> = Vec::new();
        let mut i: usize = 0;
        proof {
            broadcast use vstd::seq_lib::group_filter_ensures;

            assert(before.take(0).filter(keep) =~= Seq::<(SessionId, u64)>::empty());
        }
        while i < self.conns.len()
            invariant
                i <= self.conns@.len(),
                self.conns@ == before,
                self.user_id == old(self).user_id,
                keep == (|c: (SessionId, u64)| c.0 != conn),
                kept@ == before.take(i as int).filter(keep),
            decreases self.conns@.len() - i,
        {
            proof {
                assert(before.take(i + 1) =~= before.take(i as int).push(before[i as int]));
                Seq::lemma_filter_push(before.take(i as int), before[i as int], keep);
            }
            if self.conns[i].0 != conn {
                kept.push(self.conns[i]);
            }
            i += 1;
        }
        assert(before.take(i as int) =~= before);
        self.conns = kept;
        self.conns.len() == 0
    }

    /// Handles a message about a session at the time `now`. Returns the
    /// session that is to be told to stop, if any, and whether the hub is to
    /// stop.
    pub fn handle_session_msg(&mut self, msg: SessionMsg, now: u64) -> (res: (
        Option<SessionId>,
        bool,
    ))
        ensures
            final(self).user_id == old(self).user_id,
            match msg {
                SessionMsg::Add(conn) => final(self).conns@ == with_session(
                    old(self).conns@,
                    conn,
                    now,
                ) && res.0 == kicked_session(final(self).conns@, now) && !res.1,
                SessionMsg::Remove(conn) => final(self).conns@ == old(self).conns@.filter(
                    |c: (SessionId, u64)| c.0 != conn,
                ) && res.0 is None && res.1 == (final(self).conns@.len() == 0),
            },
            distinct_sessions(old(self).conns@) ==> distinct_sessions(final(self).conns@),
    {
        match msg {
            SessionMsg::Add(conn) => {
                let kicked = self.add_session(conn, now);
                (kicked, false)
            },
            SessionMsg::Remove(conn) => {
                let stop = self.remove_session(conn);
                (None, stop)
            },
        }
    }

    /// Handles a message about a session at the time `now`: a session that
    /// begins is added, and where the user has more than five sessions then,
    /// the oldest is told to stop; a session that ends is removed. Returns
    /// what is to be told, and whether the hub is to stop, which it does
    /// with its last session. No session occurs twice afterwards where none
    /// did before.
    pub fn handle(&mut self, msg: SessionMsg, now: u64) -> (res: (Vec<Action>, bool))
        ensures
            final(self).user_id == old(self).user_id,
            match msg {
                SessionMsg::Add(conn) => final(self).conns@ == with_session(
                    old(self).conns@,
                    conn,
                    now,
                ) && stops_session(res.0@, kicked_session(final(self).conns@, now)) && !res.1,
                SessionMsg::Remove(conn) => final(self).conns@ == old(self).conns@.filter(
                    |c: (SessionId, u64)| c.0 != conn,
                ) && res.0@.len() == 0 && res.1 == (final(self).conns@.len() == 0),
            },
            distinct_sessions(old(self).conns@) ==> distinct_sessions(final(self).conns@),
    {
        let (kicked, stop) = self.handle_session_msg(msg, now);
        let mut actions: Vec<Action> = Vec::new();
        match kicked {
            Some(oldest) => {
                // kick the oldest connection
                actions.push(Action::Conn(oldest, UserConnMsg::ForceStop));
            },
            None => {},
        }
        (actions, stop)
    }

    /// The sessions that an event goes to: every session except `exclude`.
    pub fn dispatch_event(&self, exclude: Option<SessionId>) -> (targets: Vec<SessionId>)
        ensures
            targets@ == event_targets(self.conns@, exclude),
    {
        let ghost pick = |c: (SessionId, u64)|
            if exclude == Some(c.0) {
                None
            } else {
                Some(c.0)
            };
        let mut targets: Vec<SessionId> = Vec::new();
        let mut i: usize = 0;
        assert(self.conns@.take(0) =~= Seq::<(SessionId, u64)>::empty());
        while i < self.conns.len()
            invariant
                i <= self.conns@.len(),
                pick == (|c: (SessionId, u64)|
                    if exclude == Some(c.0) {
                        None
                    } else {
                        Some(c.0)
                    }),
                targets@ == picked(self.conns@.take(i as int), pick),
            decreases self.conns@.len() - i,
        {
            proof {
                assert(self.conns@.take(i + 1).drop_last() =~= self.conns@.take(i as int));
                assert(self.conns@.take(i + 1).last() == self.conns@[i as int]);
            }
            let conn = self.conns[i].0;
            let excluded = match exclude {
                Some(e) => e == conn,
                None => false,
            };
            if !excluded {
                targets.push(conn);
            }
            i += 1;
        }
        assert(self.conns@.take(i as int) =~= self.conns@);
        targets
    }
}

/// Manages user actors: the hubs of the users that have a live session.
pub struct UserManager {
    pub users: Vec<User>,
}

/// The sessions of the first hub of the user `user` among `hubs`, or nothing
/// where the user has no hub.
pub open spec fn sessions_of(hubs: Seq<User>, user: UserId) -> Option<Seq<(SessionId, u64)>> {
    match crate::data::table::first_index(hubs, |h: User| h.user_id == user) {
        Some(i) => Some(hubs[i].conns@),
        None => None,
    }
}

/// The sessions that an event for the user `user` goes to: those of the
/// user's hub except the excluded one, and none where the user has no hub.
pub open spec fn deliveries(hubs: Seq<User>, user: UserId, exclude: Option<SessionId>) -> Seq<
    SessionId,
> {
    match sessions_of(hubs, user) {
        Some(conns) => event_targets(conns, exclude),
        None => Seq::empty(),
    }
}

/// Whether no user has two hubs. The manager keeps its hubs so: an event
/// for a user goes to the sessions of one hub.
pub open spec fn distinct_users(hubs: Seq<User>) -> bool {
    unique_by(hubs, |h: User| h.user_id)
}

/// Hubs of which no user has two stay so when the hub of a user without one
/// is added, and when the hubs of a user are taken away.
pub proof fn lemma_hubs_stay_distinct(hubs: Seq<User>, hub: User)
    requires
        distinct_users(hubs),
    ensures
        sessions_of(hubs, hub.user_id) is None ==> distinct_users(hubs.push(hub)),
        distinct_users(hubs.filter(|h: User| h.user_id != hub.user_id)),
{
    let key = |h: User| h.user_id;
    if sessions_of(hubs, hub.user_id) is None {
        crate::data::table::lemma_first_index(hubs, |h: User| h.user_id == hub.user_id);
        assert forall|i: int| 0 <= i < hubs.len() implies key(#[trigger] hubs[i]) != key(hub) by {
            assert(!(|h: User| h.user_id == hub.user_id)(hubs[i]));
        }
        lemma_unique_push(hubs, key, hub);
    }
    lemma_unique_filter(hubs, key, |h: User| h.user_id != hub.user_id);
}

impl UserManager {
    pub fn new() -> (manager: UserManager)
        ensures
            manager.users@.len() == 0,
            distinct_users(manager.users@),
    {
        UserManager { users: Vec::new() }
    }

    /// Finds the hub of a user.
    fn find_user(&self, user_id: UserId) -> (place: Option<usize>)
        ensures
            match place {
                Some(i) => i < self.users@.len() && self.users@[i as int].user_id == user_id
                    && sessions_of(self.users@, user_id) == Some(self.users@[i as int].conns@),
                None => sessions_of(self.users@, user_id) is None,
            },
    {
        let mut i: usize = 0;
        while i < self.users.len()
            invariant
                i <= self.users@.len(),
                forall|j: int| 0 <= j < i ==> (#[trigger] self.users@[j]).user_id != user_id,
            decreases self.users@.len() - i,
        {
            if self.users[i].user_id == user_id {
                proof {
                    crate::data::table::lemma_first_index_is(
                        self.users@,
                        |h: User| h.user_id == user_id,
                        i as int,
                    );
                }
                return Some(i);
            }
            i += 1;
        }
        proof {
            crate::data::table::lemma_first_index_none(
                self.users@,
                |h: User| h.user_id == user_id,
            );
        }
        None
    }

    /// Gets a User actor, creating one if needed. Returns its place among
    /// the hubs.
    pub fn get_user(&mut self, user_id: UserId) -> (place: usize)
        ensures
            place < final(self).users@.len(),
            final(self).users@[place as int].user_id == user_id,
            match sessions_of(old(self).users@, user_id) {
                Some(conns) => final(self).users@ == old(self).users@
                    && final(self).users@[place as int].conns@ == conns,
                None => final(self).users@.len() == old(self).users@.len() + 1
                    && final(self).users@.take(old(self).users@.len() as int) == old(self).users@
                    && final(self).users@[place as int].conns@.len() == 0,
            },
            distinct_users(old(self).users@) ==> distinct_users(final(self).users@),
    {
        match self.find_user(user_id) {
            Some(i) => i,
            None => {
                let ghost before = self.users@;
                let hub = User::new(user_id);
                proof {
                    if distinct_users(before) {
                        lemma_hubs_stay_distinct(before, hub);
                    }
                }
                self.users.push(hub);
                assert(self.users@.take(before.len() as int) =~= before);
                self.users.len() - 1
            },
        }
    }

    /// Forgets the hubs of a user that stopped. The user has no sessions
    /// then.
    pub fn stopped(&mut self, user_id: UserId)
        ensures
            final(self).users@ == old(self).users@.filter(|h: User| h.user_id != user_id),
            sessions_of(final(self).users@, user_id) is None,
            distinct_users(old(self).users@) ==> distinct_users(final(self).users@),
    {
        proof {
            if distinct_users(self.users@) {
                lemma_unique_filter(
                    self.users@,
                    |h: User| h.user_id,
                    |h: User| h.user_id != user_id,
                );
            }
        }
        let mut rest: Vec<User> = Vec::new();
        core::mem::swap(&mut self.users, &mut rest);
        let ghost before = rest@;
        let ghost keep = |h: User| h.user_id != user_id;
        let mut rev = crate::data::table::reversed(rest);
        let ghost n = before.len();
        proof {
            broadcast use vstd::seq_lib::group_filter_ensures;

            assert(before.take(0).filter(keep) =~= Seq::<User>::empty());
        }
        while rev.len() > 0
            invariant
                rev@.len() <= n,
                n == before.len(),
                keep == (|h: User| h.user_id != user_id),
                forall|i: int| 0 <= i < rev@.len() ==> rev@[i] == before[n - 1 - i],
                self.users@ == before.take(n - rev@.len()).filter(keep),
                forall|i: int|
                    0 <= i < self.users@.len() ==> (#[trigger] self.users@[i]).user_id != user_id,
            decreases rev@.len(),
        {
            let ghost k = n - rev@.len();
            let hub = rev.pop().unwrap();
            assert(hub == before[k]);
            proof {
                assert(before.take(k + 1) =~= before.take(k).push(before[k]));
                Seq::lemma_filter_push(before.take(k), before[k], keep);
            }
            if hub.user_id != user_id {
                self.users.push(hub);
            }
        }
        proof {
            assert(before.take(n as int) =~= before);
            crate::data::table::lemma_first_index_none(
                self.users@,
                |h: User| h.user_id == user_id,
            );
        }
    }

    /// The sessions that an event for a user goes to: those of the user's
    /// hub, except the one that the event excludes. An event for a user
    /// without a hub goes to nobody.
    pub fn dispatch(&self, event: &UserMgrDispatchEvent) -> (targets: Vec<SessionId>)
        ensures
            targets@ == deliveries(self.users@, event.0, event.1.exclude),
    {
        match self.find_user(event.0) {
            Some(i) => self.users[i].dispatch_event(event.1.exclude),
            None => Vec::new(),
        }
    }
}

/// An event for one user reaches sessions of that user's hub only, and all
/// of them but the excluded one: a session of the hub of another user gets
/// it just when it is also a session of this user's hub.
pub proof fn lemma_event_delivery(
    hubs: Seq<User>,
    user: UserId,
    exclude: Option<SessionId>,
    session: SessionId,
)
    ensures
        deliveries(hubs, user, exclude).contains(session) <==> (sessions_of(
            hubs,
            user,
        ) matches Some(conns) && exclude != Some(session) && exists|i: int|
            0 <= i < conns.len() && (#[trigger] conns[i]).0 == session),
{
    match sessions_of(hubs, user) {
        Some(conns) => {
            let pick = |c: (SessionId, u64)|
                if exclude == Some(c.0) {
                    None
                } else {
                    Some(c.0)
                };
            lemma_picked_contains(conns, pick, session);
            if deliveries(hubs, user, exclude).contains(session) {
                let i = choose|i: int|
                    0 <= i < conns.len() && pick(#[trigger] conns[i]) == Some(session);
                assert(conns[i].0 == session);
            }
            if exclude != Some(session) && exists|i: int|
                0 <= i < conns.len() && (#[trigger] conns[i]).0 == session {
                let i = choose|i: int| 0 <= i < conns.len() && (#[trigger] conns[i]).0 == session;
                assert(pick(conns[i]) == Some(session));
            }
        },
        None => {},
    }
}

} // verus!
