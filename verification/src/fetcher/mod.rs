//! Fetching: running a domain's script for a source or an item, storing what
//! it returns and telling the users.

pub mod script;

pub use script::{FetchMsg, FetchMsgView, FetchTime};

use vstd::prelude::*;
use vstd::string::StringExecFns;

use crate::clock::{current_time, format_rfc3339, rfc3339_text};
use crate::console::{text_message, ConsoleMessage, MessageType};
use crate::data::models::views;
use crate::data::sources::{
    item_uri_of, CreateFailure, CreateVersionError, SourceItemData, SourceMetaItem,
    SourceMetaItemView, SourceMetadata,
};
use crate::data::table::{first_where, lemma_first_index_is, lemma_first_index_none};
use crate::data::users::UserId;
use crate::data::{Data, DataError, DataView};
use crate::hash::DIGEST_LEN;
use crate::session::protocol::{
    log_item_of, log_of, log_of_messages, Event, EventView, FetchLogItem, UpdateType,
};
use crate::session::users::{dispatch_to, DispatchView, UserMgrDispatchEvent};
use crate::text::{copy_bytes, copy_str, opt_text, str_eq};
use crate::uri::{canonical_uri, canonicalize_uri, join_scheme_and_path};

use script::{
    script_error_text, InlineItemData, InlineItemDataView, ScriptError, SourceFetchData,
    SourceFetchDataView, SourceItemFetchData, SourceItemFetchDataView,
};

verus! {

/// A request to fetch a source or an item, for one user or, without a user,
/// for every subscriber.
#[derive(Debug, Clone)]
pub enum FetchRequest {
    Source(Option<UserId>, String),
    SourceItem(Option<UserId>, String),
}

/// Why a fetch did not take place.
#[derive(Debug)]
pub enum FetchError {
    InvalidUri,
    /// No domain has the scheme of the URI as its identifier.
    DomainNotFound(String),
    Create(CreateVersionError),
    Data(DataError),
}

/// What is told after a step of a fetch.
#[derive(Debug)]
pub enum FetchAction {
    /// An event for each of the users.
    Broadcast(Vec<UserId>, Event),
    /// An event for one user.
    Dispatch(UserMgrDispatchEvent),
}

/// What a `FetchAction` holds.
pub enum FetchActionView {
    Broadcast(Seq<UserId>, EventView),
    Dispatch(DispatchView),
}

impl View for FetchAction {
    type V = FetchActionView;

    open spec fn view(&self) -> FetchActionView {
        match self {
            FetchAction::Broadcast(users, event) => FetchActionView::Broadcast(users@, event@),
            FetchAction::Dispatch(event) => FetchActionView::Dispatch(event@),
        }
    }
}

/// What it takes to run a fetch: the canonical URI, the domain with its
/// script, the path that the script is asked for, and the users that are
/// told of the fetch.
#[derive(Debug, Clone)]
pub struct FetchPlan {
    pub uri: String,
    pub domain: String,
    pub script: String,
    pub path: String,
    pub users: Vec<UserId>,
}

/// What a `FetchPlan` holds.
pub struct FetchPlanView {
    pub uri: Seq<char>,
    pub domain: Seq<char>,
    pub script: Seq<char>,
    pub path: Seq<char>,
    pub users: Seq<UserId>,
}

impl View for FetchPlan {
    type V = FetchPlanView;

    open spec fn view(&self) -> FetchPlanView {
        FetchPlanView {
            uri: self.uri@,
            domain: self.domain@,
            script: self.script@,
            path: self.path@,
            users: self.users@,
        }
    }
}

/// Why a fetch cannot be planned.
pub enum PlanFailure {
    InvalidUri,
    DomainNotFound(Seq<char>),
}

/// The users that are told of a fetch: the user that asked for it, or every
/// subscriber where nobody did.
pub open spec fn fetch_targets(user: Option<UserId>, subscribers: Seq<UserId>) -> Seq<UserId> {
    match user {
        Some(u) => seq![u],
        None => subscribers,
    }
}

impl DataView {
    /// The plan of a fetch of the source at `uri`: the URI is canonicalized,
    /// and its scheme names the domain whose script is run.
    pub open spec fn source_fetch_plan(self, user: Option<UserId>, uri: Seq<char>) -> Result<
        FetchPlanView,
        PlanFailure,
    > {
        match canonical_uri(uri) {
            None => Err(PlanFailure::InvalidUri),
            Some(u) => match self.domain_by_domain_id(u.scheme) {
                None => Err(PlanFailure::DomainNotFound(u.scheme)),
                Some(domain) => Ok(
                    FetchPlanView {
                        uri: u.text,
                        domain: u.scheme,
                        script: domain.script,
                        path: u.path,
                        users: fetch_targets(user, self.subscribers_of_source(u.text)),
                    },
                ),
            },
        }
    }

    /// The plan of a fetch of the item at `uri`.
    pub open spec fn item_fetch_plan(self, user: Option<UserId>, uri: Seq<char>) -> Result<
        FetchPlanView,
        PlanFailure,
    > {
        match canonical_uri(uri) {
            None => Err(PlanFailure::InvalidUri),
            Some(u) => match self.domain_by_domain_id(u.scheme) {
                None => Err(PlanFailure::DomainNotFound(u.scheme)),
                Some(domain) => Ok(
                    FetchPlanView {
                        uri: u.text,
                        domain: u.scheme,
                        script: domain.script,
                        path: u.path,
                        users: fetch_targets(user, self.subscribers_of_item(u.text)),
                    },
                ),
            },
        }
    }

    /// The store in which each of `users` points at the version `hash` of
    /// the source at `uri`, fetched at `date`.
    pub open spec fn with_sources_updated(
        self,
        users: Seq<UserId>,
        uri: Seq<char>,
        date: Seq<char>,
        hash: Seq<char>,
    ) -> DataView
        decreases users.len(),
    {
        if users.len() == 0 {
            self
        } else {
            self.with_sources_updated(users.drop_last(), uri, date, hash).user_update_source(
                users.last(),
                uri,
                date,
                hash,
            )
        }
    }

    /// The store in which each of `users` points at the version `hash` of
    /// the item at `uri`, fetched at `date`.
    pub open spec fn with_items_updated(
        self,
        users: Seq<UserId>,
        uri: Seq<char>,
        date: Seq<char>,
        hash: Seq<char>,
    ) -> DataView
        decreases users.len(),
    {
        if users.len() == 0 {
            self
        } else {
            self.with_items_updated(users.drop_last(), uri, date, hash).user_update_source_item(
                users.last(),
                uri,
                date,
                hash,
            )
        }
    }
}

/// The events that tell each of `users` that the version of the source at
/// `uri` changed.
pub open spec fn source_updates(users: Seq<UserId>, uri: Seq<char>) -> Seq<FetchActionView> {
    Seq::new(
        users.len(),
        |i: int|
            FetchActionView::Dispatch(
                dispatch_to(
                    users[i],
                    EventView::SubscribedSourceDidUpdate {
                        source: uri,
                        update_type: UpdateType::Update,
                    },
                ),
            ),
    )
}

/// The events that tell each of `users` that the version of the item at
/// `uri` changed.
pub open spec fn item_updates(users: Seq<UserId>, uri: Seq<char>) -> Seq<FetchActionView> {
    Seq::new(
        users.len(),
        |i: int|
            FetchActionView::Dispatch(
                dispatch_to(
                    users[i],
                    EventView::SubscribedSourceItemDidUpdate {
                        source_item: uri,
                        update_type: UpdateType::Update,
                    },
                ),
            ),
    )
}

/// The message that ends the log of a failed fetch: the text of the error.
pub open spec fn error_message(text: Seq<char>) -> crate::fetcher::FetchMsgView {
    crate::fetcher::FetchMsgView { time: None, msg: text_message(MessageType::Error, text) }
}

/// A copy of a list of users.
fn copy_users(users: &Vec<UserId>) -> (copy: Vec<UserId>)
    ensures
        copy@ == users@,
{
    let mut copy: Vec<UserId> = Vec::new();
    let mut i: usize = 0;
    while i < users.len()
        invariant
            i <= users@.len(),
            copy@ == users@.take(i as int),
        decreases users@.len() - i,
    {
        copy.push(users[i]);
        assert(copy@ =~= users@.take(i + 1));
        i += 1;
    }
    assert(users@.take(i as int) =~= users@);
    copy
}

/// Runs fetches on behalf of users and of the automatic fetcher.
pub struct Fetcher;

impl Fetcher {
    pub fn new() -> Fetcher {
        Fetcher
    }

    /// Plans the fetch of a source.
    ///
    /// `user_id` is the id of the user that initiated the fetch request.
    /// If this is `Some`, then *only* that user will know about the fetch.
    /// If this is `None`, the request is assumed to have been initiated by the global fetcher,
    /// so all subscribed users will be notified.
    ///
    /// Returns the plan with the event that tells the users that the fetch
    /// began.
    pub fn prepare_source(data: &Data, user_id: Option<UserId>, uri: &str) -> (res: Result<
        (FetchPlan, FetchAction),
        FetchError,
    >)
        ensures
            match data@.source_fetch_plan(user_id, uri@) {
                Ok(plan) => res matches Ok((p, begin)) && p@ == plan && begin@
                    == FetchActionView::Broadcast(
                    plan.users,
                    EventView::SourceFetchDidBegin { source: plan.uri },
                ),
                Err(PlanFailure::InvalidUri) => res matches Err(FetchError::InvalidUri),
                Err(PlanFailure::DomainNotFound(name)) => res matches Err(
                    FetchError::DomainNotFound(n),
                ) && n@ == name,
            },
    {
        let url = match canonicalize_uri(uri) {
            Ok(u) => u,
            Err(_) => {
                return Err(FetchError::InvalidUri);
            },
        };
        let domain = match data.domain_by_domain_id(url.scheme.as_str()) {
            Ok(Some(domain)) => domain,
            Ok(None) => {
                return Err(FetchError::DomainNotFound(url.scheme));
            },
            Err(e) => {
                return Err(FetchError::Data(e));
            },
        };
        let users = match user_id {
            Some(user) => {
                let mut users: Vec<UserId> = Vec::new();
                users.push(user);
                assert(users@ =~= seq![user]);
                users
            },
            None => match data.source_get_subscribed_users(url.text.as_str()) {
                Ok(users) => users,
                Err(e) => {
                    return Err(FetchError::Data(e));
                },
            },
        };
        let begin = FetchAction::Broadcast(
            copy_users(&users),
            Event::SourceFetchDidBegin { source: copy_str(url.text.as_str()) },
        );
        let plan = FetchPlan {
            uri: url.text,
            domain: url.scheme,
            script: copy_str(domain.script()),
            path: url.path,
            users,
        };
        Ok((plan, begin))
    }

    /// Plans the fetch of an item.
    pub fn prepare_source_item(data: &Data, user_id: Option<UserId>, uri: &str) -> (res: Result<
        (FetchPlan, FetchAction),
        FetchError,
    >)
        ensures
            match data@.item_fetch_plan(user_id, uri@) {
                Ok(plan) => res matches Ok((p, begin)) && p@ == plan && begin@
                    == FetchActionView::Broadcast(
                    plan.users,
                    EventView::SourceItemFetchDidBegin { source_item: plan.uri },
                ),
                Err(PlanFailure::InvalidUri) => res matches Err(FetchError::InvalidUri),
                Err(PlanFailure::DomainNotFound(name)) => res matches Err(
                    FetchError::DomainNotFound(n),
                ) && n@ == name,
            },
    {
        let url = match canonicalize_uri(uri) {
            Ok(u) => u,
            Err(_) => {
                return Err(FetchError::InvalidUri);
            },
        };
        let domain = match data.domain_by_domain_id(url.scheme.as_str()) {
            Ok(Some(domain)) => domain,
            Ok(None) => {
                return Err(FetchError::DomainNotFound(url.scheme));
            },
            Err(e) => {
                return Err(FetchError::Data(e));
            },
        };
        let users = match user_id {
            Some(user) => {
                let mut users: Vec<UserId> = Vec::new();
                users.push(user);
                assert(users@ =~= seq![user]);
                users
            },
            None => match data.source_item_get_subscribed_users(url.text.as_str()) {
                Ok(users) => users,
                Err(e) => {
                    return Err(FetchError::Data(e));
                },
            },
        };
        let begin = FetchAction::Broadcast(
            copy_users(&users),
            Event::SourceItemFetchDidBegin { source_item: copy_str(url.text.as_str()) },
        );
        let plan = FetchPlan {
            uri: url.text,
            domain: url.scheme,
            script: copy_str(domain.script()),
            path: url.path,
            users,
        };
        Ok((plan, begin))
    }

    /// Makes each of `users` point at the version `hash` of the source at
    /// `uri`, and adds the events that tell them to `actions`.
    fn update_sources(
        data: &mut Data,
        users: &Vec<UserId>,
        uri: &str,
        date: &str,
        hash: &str,
        actions: &mut Vec<FetchAction>,
    )
        ensures
            old(data)@.well_formed() ==> final(data)@.well_formed(),
            final(data)@ == old(data)@.with_sources_updated(users@, uri@, date@, hash@),
            views(final(actions)@) == views(old(actions)@) + source_updates(users@, uri@),
    {
        let ghost d0 = data@;
        let ghost a0 = views(actions@);
        let mut i: usize = 0;
        assert(users@.take(0) =~= Seq::<UserId>::empty());
        assert(a0 + source_updates(users@.take(0), uri@) =~= a0);
        while i < users.len()
            invariant
                i <= users@.len(),
                d0.well_formed() ==> data@.well_formed(),
                data@ == d0.with_sources_updated(users@.take(i as int), uri@, date@, hash@),
                views(actions@) == a0 + source_updates(users@.take(i as int), uri@),
            decreases users@.len() - i,
        {
            proof {
                assert(users@.take(i + 1).drop_last() =~= users@.take(i as int));
                assert(users@.take(i + 1).last() == users@[i as int]);
            }
            let ghost before = actions@;
            match data.user_update_source(users[i], uri, date, hash) {
                Ok(event) => {
                    actions.push(FetchAction::Dispatch(event));
                    proof {
                        assert(views(actions@) =~= views(before).push(
                            FetchActionView::Dispatch(event@),
                        ));
                        assert(source_updates(users@.take(i + 1), uri@) =~= source_updates(
                            users@.take(i as int),
                            uri@,
                        ).push(FetchActionView::Dispatch(event@)));
                        assert(views(actions@) =~= a0 + source_updates(users@.take(i + 1), uri@));
                    }
                },
                Err(_) => {},
            }
            i += 1;
        }
        assert(users@.take(i as int) =~= users@);
    }

    /// Makes each of `users` point at the version `hash` of the item at
    /// `uri`, and adds the events that tell them to `actions`.
    fn update_items(
        data: &mut Data,
        users: &Vec<UserId>,
        uri: &str,
        date: &str,
        hash: &str,
        actions: &mut Vec<FetchAction>,
    )
        ensures
            old(data)@.well_formed() ==> final(data)@.well_formed(),
            final(data)@ == old(data)@.with_items_updated(users@, uri@, date@, hash@),
            views(final(actions)@) == views(old(actions)@) + item_updates(users@, uri@),
    {
        let ghost d0 = data@;
        let ghost a0 = views(actions@);
        let mut i: usize = 0;
        assert(users@.take(0) =~= Seq::<UserId>::empty());
        assert(a0 + item_updates(users@.take(0), uri@) =~= a0);
        while i < users.len()
            invariant
                i <= users@.len(),
                d0.well_formed() ==> data@.well_formed(),
                data@ == d0.with_items_updated(users@.take(i as int), uri@, date@, hash@),
                views(actions@) == a0 + item_updates(users@.take(i as int), uri@),
            decreases users@.len() - i,
        {
            proof {
                assert(users@.take(i + 1).drop_last() =~= users@.take(i as int));
                assert(users@.take(i + 1).last() == users@[i as int]);
            }
            let ghost before = actions@;
            match data.user_update_source_item(users[i], uri, date, hash) {
                Ok(event) => {
                    actions.push(FetchAction::Dispatch(event));
                    proof {
                        assert(views(actions@) =~= views(before).push(
                            FetchActionView::Dispatch(event@),
                        ));
                        assert(item_updates(users@.take(i + 1), uri@) =~= item_updates(
                            users@.take(i as int),
                            uri@,
                        ).push(FetchActionView::Dispatch(event@)));
                        assert(views(actions@) =~= a0 + item_updates(users@.take(i + 1), uri@));
                    }
                },
                Err(_) => {},
            }
            i += 1;
        }
        assert(users@.take(i as int) =~= users@);
    }
}


/// The inline data of the item at the place `k` of a list: the first entry
/// of the inline data under the item's path, unless an earlier item of the
/// list has the same path and took it.
pub open spec fn inline_data_for(
    items: Seq<SourceMetaItemView>,
    item_data: Seq<InlineItemDataView>,
    k: int,
) -> Option<SourceItemFetchDataView> {
    if exists|j: int| 0 <= j < k && (#[trigger] items[j]).path == items[k].path {
        None
    } else {
        match first_where(item_data, |e: InlineItemDataView| e.path == items[k].path) {
            Some(e) => Some(e.data),
            None => None,
        }
    }
}

/// What the item at the place `k` of a list brings along: its URI in the
/// domain and its inline data, where it has both.
pub open spec fn inline_item(
    domain: Seq<char>,
    items: Seq<SourceMetaItemView>,
    item_data: Seq<InlineItemDataView>,
    k: int,
) -> Option<(Seq<char>, SourceItemFetchDataView)> {
    match (inline_data_for(items, item_data, k), item_uri_of(domain, items[k].path)) {
        (Some(data), Some(uri)) => Some((uri, data)),
        _ => None,
    }
}

/// Whether no item of a list brings inline data along: storing the inline
/// data of such a list does nothing and cannot fail.
pub open spec fn without_inline_data(
    domain: Seq<char>,
    items: Seq<SourceMetaItemView>,
    item_data: Seq<InlineItemDataView>,
) -> bool {
    forall|k: int|
        0 <= k < items.len() ==> #[trigger] inline_item(domain, items, item_data, k) is None
}

/// The store after the inline data of the first `n` items of a list were
/// stored, each as a version of its item at which each of `users` points.
/// Nothing where the data of one of them cannot be stored.
pub open spec fn with_inline_items(
    d: DataView,
    domain: Seq<char>,
    items: Seq<SourceMetaItemView>,
    item_data: Seq<InlineItemDataView>,
    users: Seq<UserId>,
    date: Seq<char>,
    n: nat,
) -> Option<DataView>
    decreases n,
{
    if n == 0 {
        Some(d)
    } else {
        match with_inline_items(d, domain, items, item_data, users, date, (n - 1) as nat) {
            None => None,
            Some(before) => match inline_item(domain, items, item_data, n - 1) {
                None => Some(before),
                Some((uri, data)) => match before.create_item_version_result(
                    uri,
                    data.tags,
                    data.last_updated,
                ) {
                    Ok((store, hash)) => Some(store.with_items_updated(users, uri, date, hash)),
                    Err(_) => None,
                },
            },
        }
    }
}

/// The events that tell the users of the versions of the first `n` items of
/// a list that were stored from inline data.
pub open spec fn inline_item_actions(
    domain: Seq<char>,
    items: Seq<SourceMetaItemView>,
    item_data: Seq<InlineItemDataView>,
    users: Seq<UserId>,
    n: nat,
) -> Seq<FetchActionView>
    decreases n,
{
    if n == 0 {
        Seq::empty()
    } else {
        let before = inline_item_actions(domain, items, item_data, users, (n - 1) as nat);
        match inline_item(domain, items, item_data, n - 1) {
            Some((uri, _)) => before + item_updates(users, uri),
            None => before,
        }
    }
}

/// Whether the error `e` is what storing the inline data of an item in the
/// store `d` comes to where `made` is what creating the version comes to: a
/// version that cannot be created fails with its reason, and one that can
/// be created fails only where it is new to the store and its data cannot
/// be compressed.
pub open spec fn is_inline_failure(
    e: CreateVersionError,
    d: DataView,
    made: Result<(DataView, Seq<char>), CreateFailure>,
) -> bool {
    match made {
        Ok((_, hash)) => e is IoError && !d.has_item_version_hash(hash),
        Err(CreateFailure::InvalidUri) => e is InvalidUri,
        Err(CreateFailure::Encode) => e is Encode,
    }
}

/// Whether storing inline data stopped at the item at the place `n` with the
/// error `e`, and `after` and `told` are what it left: the item brings
/// inline data along that could not be stored, the data of the items before
/// it are stored, and their users are told.
pub open spec fn stopped_at(
    d: DataView,
    domain: Seq<char>,
    items: Seq<SourceMetaItemView>,
    item_data: Seq<InlineItemDataView>,
    users: Seq<UserId>,
    date: Seq<char>,
    n: nat,
    e: CreateVersionError,
    after: DataView,
    told: Seq<FetchActionView>,
) -> bool {
    n < items.len() && with_inline_items(d, domain, items, item_data, users, date, n) == Some(
        after,
    ) && told == inline_item_actions(domain, items, item_data, users, n) && match inline_item(
        domain,
        items,
        item_data,
        n as int,
    ) {
        Some((uri, data)) => is_inline_failure(
            e,
            after,
            after.create_item_version_result(uri, data.tags, data.last_updated),
        ),
        None => false,
    }
}

/// What storing a fetched source comes to: the store with the new version,
/// in which each of the plan's users points at it, and the hash of the
/// version; or the reason why the version cannot be created.
pub open spec fn source_stored(
    d: DataView,
    plan: FetchPlanView,
    source: SourceFetchDataView,
    date: Seq<char>,
) -> Result<(DataView, Seq<char>), CreateFailure> {
    match d.create_source_version_result(
        plan.uri,
        source.tags,
        source.items,
        source.last_updated,
    ) {
        Ok((store, hash)) => Ok(
            (store.with_sources_updated(plan.users, plan.uri, date, hash), hash),
        ),
        Err(f) => Err(f),
    }
}

/// Whether the error `e` is the failure `f` to create a version.
pub open spec fn is_create_failure(e: FetchError, f: CreateFailure) -> bool {
    match f {
        CreateFailure::InvalidUri => e matches FetchError::Create(CreateVersionError::InvalidUri),
        CreateFailure::Encode => e matches FetchError::Create(CreateVersionError::Encode),
    }
}

/// What a fetch comes to: the messages of the run, the hash of the version
/// that was stored, if one was, and what is told to whom.
#[derive(Debug)]
pub struct FetchOutcome {
    pub messages: Vec<crate::fetcher::FetchMsg>,
    pub hash: Option<String>,
    pub actions: Vec<FetchAction>,
}

/// A fetch that failed in the store: the error, and what was told to whom
/// before it failed.
#[derive(Debug)]
pub struct FetchFailure {
    pub error: FetchError,
    pub actions: Vec<FetchAction>,
}

/// What the users of a fetched source are told once its version is stored:
/// each that it points at the version, and all that the fetch ended with
/// success.
pub open spec fn source_told(
    users: Seq<UserId>,
    uri: Seq<char>,
    log: Seq<crate::session::protocol::FetchLogItemView>,
) -> Seq<FetchActionView> {
    source_updates(users, uri) + seq![
        FetchActionView::Broadcast(
            users,
            EventView::SourceFetchDidEnd { source: uri, success: true, log },
        ),
    ]
}

/// The text of an error of the store.
pub open spec fn data_error_text(e: DataError) -> Seq<char> {
    match e {
        DataError::Database => "database error"@,
        DataError::Decode => "data decode error"@,
        DataError::Io => "io error"@,
    }
}

/// The text of a failure to create a version.
pub open spec fn create_error_text(e: CreateVersionError) -> Seq<char> {
    match e {
        CreateVersionError::InvalidUri => "invalid uri"@,
        CreateVersionError::Encode => "encode error"@,
        CreateVersionError::IoError => "io error"@,
        CreateVersionError::Data(d) => data_error_text(d),
    }
}

/// The text of an error of a fetch.
pub open spec fn fetch_error_text(e: FetchError) -> Seq<char> {
    match e {
        FetchError::InvalidUri => "invalid uri"@,
        FetchError::DomainNotFound(_) => "no such domain"@,
        FetchError::Create(c) => "failed to create source version: "@ + create_error_text(c),
        FetchError::Data(d) => data_error_text(d),
    }
}

/// The text of an error of the store.
pub fn data_error_message(e: DataError) -> (text: &'static str)
    ensures
        text@ == data_error_text(e),
{
    match e {
        DataError::Database => "database error",
        DataError::Decode => "data decode error",
        DataError::Io => "io error",
    }
}

impl FetchError {
    /// The text of this error.
    pub fn message(&self) -> (text: String)
        ensures
            text@ == fetch_error_text(*self),
    {
        match self {
            FetchError::InvalidUri => String::from_str("invalid uri"),
            FetchError::DomainNotFound(_) => String::from_str("no such domain"),
            FetchError::Create(c) => {
                let mut text = String::from_str("failed to create source version: ");
                let cause = match c {
                    CreateVersionError::InvalidUri => "invalid uri",
                    CreateVersionError::Encode => "encode error",
                    CreateVersionError::IoError => "io error",
                    CreateVersionError::Data(d) => data_error_message(*d),
                };
                text.append(cause);
                text
            },
            FetchError::Data(d) => String::from_str(data_error_message(*d)),
        }
    }
}

/// The message that ends the log of a failed fetch.
fn error_msg(text: String) -> (msg: crate::fetcher::FetchMsg)
    ensures
        msg@ == error_message(text@),
{
    crate::fetcher::FetchMsg { time: None, msg: ConsoleMessage::text(MessageType::Error, text) }
}

/// The events of a fetch that failed before it began, for the user that
/// asked for it: that the fetch began, and that it ended without success,
/// with the text of the error as its log. Nobody is told of a failed fetch
/// that no user asked for.
pub open spec fn failure_events(user: Option<UserId>, uri: Seq<char>, text: Seq<char>, item: bool) ->
    Seq<FetchActionView> {
    match user {
        Some(u) => seq![
            FetchActionView::Broadcast(
                seq![u],
                if item {
                    EventView::SourceItemFetchDidBegin { source_item: uri }
                } else {
                    EventView::SourceFetchDidBegin { source: uri }
                },
            ),
            FetchActionView::Broadcast(
                seq![u],
                if item {
                    EventView::SourceItemFetchDidEnd {
                        source_item: uri,
                        success: false,
                        log: seq![log_item_of(error_message(text))],
                    }
                } else {
                    EventView::SourceFetchDidEnd {
                        source: uri,
                        success: false,
                        log: seq![log_item_of(error_message(text))],
                    }
                },
            ),
        ],
        None => Seq::empty(),
    }
}

/// The list that holds one user.
fn one_user(user: UserId) -> (users: Vec<UserId>)
    ensures
        users@ == seq![user],
{
    let mut users: Vec<UserId> = Vec::new();
    users.push(user);
    assert(users@ =~= seq![user]);
    users
}

/// The log that holds the text of an error and nothing else.
fn error_log(text: String) -> (log: Vec<FetchLogItem>)
    ensures
        crate::session::protocol::log_views(log@) == seq![log_item_of(error_message(text@))],
{
    let mut log: Vec<FetchLogItem> = Vec::new();
    log.push(FetchLogItem::from(error_msg(text)));
    assert(crate::session::protocol::log_views(log@) =~= seq![
        log_item_of(error_message(text@)),
    ]);
    log
}

impl Fetcher {
    /// Handles the failure of a fetch that did not begin: the user that asked
    /// for the fetch is still told that it began and that it ended, so that
    /// the attempt is seen.
    pub fn handle(request: &FetchRequest, error: &FetchError) -> (actions: Vec<FetchAction>)
        ensures
            views(actions@) == match request {
                FetchRequest::Source(user, uri) => failure_events(
                    *user,
                    uri@,
                    fetch_error_text(*error),
                    false,
                ),
                FetchRequest::SourceItem(user, uri) => failure_events(
                    *user,
                    uri@,
                    fetch_error_text(*error),
                    true,
                ),
            },
    {
        let mut actions: Vec<FetchAction> = Vec::new();
        match request {
            FetchRequest::Source(Some(u), s) => {
                actions.push(
                    FetchAction::Broadcast(
                        one_user(*u),
                        Event::SourceFetchDidBegin { source: copy_str(s.as_str()) },
                    ),
                );
                actions.push(
                    FetchAction::Broadcast(
                        one_user(*u),
                        Event::SourceFetchDidEnd {
                            source: copy_str(s.as_str()),
                            success: false,
                            log: error_log(error.message()),
                        },
                    ),
                );
                assert(views(actions@) =~= failure_events(
                    Some(*u),
                    s@,
                    fetch_error_text(*error),
                    false,
                ));
            },
            FetchRequest::SourceItem(Some(u), s) => {
                actions.push(
                    FetchAction::Broadcast(
                        one_user(*u),
                        Event::SourceItemFetchDidBegin { source_item: copy_str(s.as_str()) },
                    ),
                );
                actions.push(
                    FetchAction::Broadcast(
                        one_user(*u),
                        Event::SourceItemFetchDidEnd {
                            source_item: copy_str(s.as_str()),
                            success: false,
                            log: error_log(error.message()),
                        },
                    ),
                );
                assert(views(actions@) =~= failure_events(
                    Some(*u),
                    s@,
                    fetch_error_text(*error),
                    true,
                ));
            },
            _ => {
                assert(views(actions@) =~= Seq::<FetchActionView>::empty());
            },
        }
        actions
    }

    /// Finds the inline data of the item at the place `k`.
    fn find_inline_data<'a>(
        items: &Vec<SourceMetaItem>,
        item_data: &'a Vec<InlineItemData>,
        k: usize,
    ) -> (found: Option<&'a SourceItemFetchData>)
        requires
            k < items@.len(),
        ensures
            match found {
                Some(d) => inline_data_for(views(items@), views(item_data@), k as int) == Some(d@),
                None => inline_data_for(views(items@), views(item_data@), k as int) is None,
            },
    {
        let path = items[k].path.as_str();
        let mut j: usize = 0;
        while j < k
            invariant
                j <= k < items@.len(),
                path@ == items@[k as int].path@,
                forall|m: int| 0 <= m < j ==> (#[trigger] views(items@)[m]).path != path@,
            decreases k - j,
        {
            if str_eq(items[j].path.as_str(), path) {
                assert(views(items@)[j as int].path == views(items@)[k as int].path);
                return None;
            }
            j += 1;
        }
        let ghost pred = |e: InlineItemDataView| e.path == views(items@)[k as int].path;
        let mut i: usize = 0;
        while i < item_data.len()
            invariant
                i <= item_data@.len(),
                k < items@.len(),
                path@ == items@[k as int].path@,
                pred == (|e: InlineItemDataView| e.path == views(items@)[k as int].path),
                forall|m: int| 0 <= m < k ==> (#[trigger] views(items@)[m]).path != path@,
                forall|m: int| 0 <= m < i ==> !pred(#[trigger] views(item_data@)[m]),
            decreases item_data@.len() - i,
        {
            if str_eq(item_data[i].path.as_str(), path) {
                proof {
                    lemma_first_index_is(views(item_data@), pred, i as int);
                }
                return Some(&item_data[i].data);
            }
            i += 1;
        }
        proof {
            lemma_first_index_none(views(item_data@), pred);
        }
        None
    }

    /// Stores the inline data that a script returned for items of a source:
    /// each as a version of its item, at which each of `users` points. Adds
    /// the events that tell the users to `actions`. Stops at the first item
    /// whose data cannot be stored; what was stored before stays.
    pub fn store_inline_items(
        data: &mut Data,
        domain: &str,
        items: &Vec<SourceMetaItem>,
        item_data: &Vec<InlineItemData>,
        users: &Vec<UserId>,
        date: &str,
        actions: &mut Vec<FetchAction>,
    ) -> (res: Result<(), CreateVersionError>)
        ensures
            old(data)@.well_formed() ==> final(data)@.well_formed(),
            res is Ok ==> with_inline_items(
                old(data)@,
                domain@,
                views(items@),
                views(item_data@),
                users@,
                date@,
                items@.len() as nat,
            ) == Some(final(data)@) && views(final(actions)@) == views(old(actions)@)
                + inline_item_actions(
                domain@,
                views(items@),
                views(item_data@),
                users@,
                items@.len() as nat,
            ),
            without_inline_data(domain@, views(items@), views(item_data@)) ==> res is Ok,
            res matches Err(e) ==> exists|n: nat, told: Seq<FetchActionView>| #[trigger]
                stopped_at(
                    old(data)@,
                    domain@,
                    views(items@),
                    views(item_data@),
                    users@,
                    date@,
                    n,
                    e,
                    final(data)@,
                    told,
                ) && views(final(actions)@) == views(old(actions)@) + told,
    {
        let ghost d0 = data@;
        let ghost a0 = views(actions@);
        let ghost all = views(items@);
        let ghost inline = views(item_data@);
        let mut k: usize = 0;
        assert(a0 + inline_item_actions(domain@, all, inline, users@, 0) =~= a0);
        while k < items.len()
            invariant
                k <= items@.len(),
                d0 == old(data)@,
                d0.well_formed() ==> data@.well_formed(),
                a0 == views(old(actions)@),
                all == views(items@),
                inline == views(item_data@),
                with_inline_items(d0, domain@, all, inline, users@, date@, k as nat) == Some(
                    data@,
                ),
                views(actions@) == a0 + inline_item_actions(
                    domain@,
                    all,
                    inline,
                    users@,
                    k as nat,
                ),
            decreases items@.len() - k,
        {
            let ghost before_actions = views(actions@);
            if let Some(source_item) = Fetcher::find_inline_data(items, item_data, k) {
                let joined = join_scheme_and_path(domain, items[k].path.as_str());
                match canonicalize_uri(joined.as_str()) {
                    Ok(item_uri) => {
                        let last_updated = match &source_item.last_updated {
                            Some(s) => Some(s.as_str()),
                            None => None,
                        };
                        let hash = match data.create_source_item_version(
                            item_uri.text.as_str(),
                            SourceItemData { tags: copy_bytes(source_item.tags.as_slice()) },
                            last_updated,
                        ) {
                            Ok(h) => h,
                            Err(e) => {
                                proof {
                                    let told = inline_item_actions(
                                        domain@,
                                        all,
                                        inline,
                                        users@,
                                        k as nat,
                                    );
                                    assert(stopped_at(
                                        d0,
                                        domain@,
                                        all,
                                        inline,
                                        users@,
                                        date@,
                                        k as nat,
                                        e,
                                        data@,
                                        told,
                                    ));
                                }
                                return Err(e);
                            },
                        };
                        Fetcher::update_items(
                            data,
                            users,
                            item_uri.text.as_str(),
                            date,
                            hash.as_str(),
                            actions,
                        );
                        proof {
                            assert(views(actions@) =~= a0 + inline_item_actions(
                                domain@,
                                all,
                                inline,
                                users@,
                                (k + 1) as nat,
                            ));
                        }
                    },
                    Err(_) => {},
                }
            }
            k += 1;
        }
        Ok(())
    }

    /// Fetches a source: stores what the run of the script came to and tells
    /// the plan's users. `msg` are the messages of the run, `res` is its
    /// result, and `date` is the date of the fetch as RFC 3339.
    ///
    /// A failed run changes nothing: the error ends the log, and the users
    /// are told that the fetch ended without success. After a run with a
    /// result the version is created, each user points at it and is told so,
    /// the users are told that the fetch ended with success, and the inline
    /// data of items are stored.
    ///
    /// Where the version cannot be created nothing changes and nobody is
    /// told. Where the inline data of an item cannot be stored, the fetch
    /// fails at that item: what was stored and told before stays, and the
    /// failure brings along what was told.
    pub fn fetch_source(
        data: &mut Data,
        plan: &FetchPlan,
        msg: Vec<crate::fetcher::FetchMsg>,
        res: Result<SourceFetchData, ScriptError>,
        date: &str,
    ) -> (out: Result<FetchOutcome, FetchFailure>)
        ensures
            old(data)@.well_formed() ==> final(data)@.well_formed(),
            res matches Ok(source) ==> (source_stored(old(data)@, plan@, source@, date@) is Ok
                && without_inline_data(plan.domain@, source@.items, source@.item_data)
                ==> out is Ok),
            match res {
                Err(e) => out matches Ok(o) && final(data)@ == old(data)@ && o.hash is None
                    && views(o.messages@) == views(msg@).push(
                    error_message(script_error_text(e@)),
                ) && views(o.actions@) == seq![
                    FetchActionView::Broadcast(
                        plan.users@,
                        EventView::SourceFetchDidEnd {
                            source: plan.uri@,
                            success: false,
                            log: log_of(views(o.messages@)),
                        },
                    ),
                ],
                Ok(source) => match source_stored(old(data)@, plan@, source@, date@) {
                    Err(f) => (out matches Err(failure) && is_create_failure(failure.error, f)
                        && failure.actions@.len() == 0) && final(data)@ == old(data)@,
                    Ok((mid, hash)) => match out {
                        Ok(o) => with_inline_items(
                            mid,
                            plan.domain@,
                            source@.items,
                            source@.item_data,
                            plan.users@,
                            date@,
                            source@.items.len(),
                        ) == Some(final(data)@) && opt_text(o.hash) == Some(hash) && hash.len()
                            == 2 * DIGEST_LEN && views(o.messages@) == views(msg@) && views(
                            o.actions@,
                        ) == source_told(plan.users@, plan.uri@, log_of(views(msg@)))
                            + inline_item_actions(
                            plan.domain@,
                            source@.items,
                            source@.item_data,
                            plan.users@,
                            source@.items.len(),
                        ),
                        Err(failure) => (failure.error matches FetchError::Create(e)
                            && exists|n: nat, told: Seq<FetchActionView>| #[trigger]
                            stopped_at(
                                mid,
                                plan.domain@,
                                source@.items,
                                source@.item_data,
                                plan.users@,
                                date@,
                                n,
                                e,
                                final(data)@,
                                told,
                            ) && views(failure.actions@) == source_told(
                                plan.users@,
                                plan.uri@,
                                log_of(views(msg@)),
                            ) + told),
                    },
                },
            },
    {
        let mut actions: Vec<FetchAction> = Vec::new();
        match res {
            Ok(source) => {
                let last_updated = match &source.last_updated {
                    Some(s) => Some(s.as_str()),
                    None => None,
                };
                let metadata = SourceMetadata { tags: copy_bytes(source.tags.as_slice()) };
                let hash = match data.create_source_version(
                    plan.uri.as_str(),
                    &metadata,
                    &source.items,
                    last_updated,
                ) {
                    Ok(h) => h,
                    Err(e) => {
                        return Err(FetchFailure { error: FetchError::Create(e), actions });
                    },
                };
                Fetcher::update_sources(
                    data,
                    &plan.users,
                    plan.uri.as_str(),
                    date,
                    hash.as_str(),
                    &mut actions,
                );
                let ghost before_end = views(actions@);
                actions.push(
                    FetchAction::Broadcast(
                        copy_users(&plan.users),
                        Event::SourceFetchDidEnd {
                            source: copy_str(plan.uri.as_str()),
                            success: true,
                            log: log_of_messages(&msg),
                        },
                    ),
                );
                proof {
                    assert(views(actions@) =~= source_told(
                        plan.users@,
                        plan.uri@,
                        log_of(views(msg@)),
                    ));
                }
                match Fetcher::store_inline_items(
                    data,
                    plan.domain.as_str(),
                    &source.items,
                    &source.item_data,
                    &plan.users,
                    date,
                    &mut actions,
                ) {
                    Ok(()) => {},
                    Err(e) => {
                        return Err(FetchFailure { error: FetchError::Create(e), actions });
                    },
                }
                Ok(FetchOutcome { messages: msg, hash: Some(hash), actions })
            },
            Err(err) => {
                let mut msg = msg;
                let ghost before = msg@;
                msg.push(error_msg(err.message()));
                assert(views(msg@) =~= views(before).push(
                    error_message(script_error_text(err@)),
                ));
                actions.push(
                    FetchAction::Broadcast(
                        copy_users(&plan.users),
                        Event::SourceFetchDidEnd {
                            source: copy_str(plan.uri.as_str()),
                            success: false,
                            log: log_of_messages(&msg),
                        },
                    ),
                );
                assert(views(actions@) =~= seq![
                    FetchActionView::Broadcast(
                        plan.users@,
                        EventView::SourceFetchDidEnd {
                            source: plan.uri@,
                            success: false,
                            log: log_of(views(msg@)),
                        },
                    ),
                ]);
                Ok(FetchOutcome { messages: msg, hash: None, actions })
            },
        }
    }

    /// Fetches a source item: stores what the run of the script came to and
    /// tells the users. After a run with a result the version is created,
    /// and the user that asked for the fetch, or every subscriber where
    /// nobody asked, points at it and is told so.
    pub fn fetch_source_item(
        data: &mut Data,
        plan: &FetchPlan,
        user_id: Option<UserId>,
        msg: Vec<crate::fetcher::FetchMsg>,
        res: Result<SourceItemFetchData, ScriptError>,
        date: &str,
    ) -> (out: Result<FetchOutcome, FetchError>)
        ensures
            old(data)@.well_formed() ==> final(data)@.well_formed(),
            match res {
                Err(e) => out matches Ok(o) && final(data)@ == old(data)@ && o.hash is None
                    && views(o.messages@) == views(msg@).push(
                    error_message(script_error_text(e@)),
                ) && views(o.actions@) == seq![
                    FetchActionView::Broadcast(
                        plan.users@,
                        EventView::SourceItemFetchDidEnd {
                            source_item: plan.uri@,
                            success: false,
                            log: log_of(views(o.messages@)),
                        },
                    ),
                ],
                Ok(item) => match old(data)@.create_item_version_result(
                    plan.uri@,
                    item@.tags,
                    item@.last_updated,
                ) {
                    Err(f) => (out matches Err(e) && is_create_failure(e, f)) && final(data)@
                        == old(data)@,
                    Ok((store, hash)) => match out {
                        Ok(o) => final(data)@ == store.with_items_updated(
                            fetch_targets(user_id, store.subscribers_of_item(plan.uri@)),
                            plan.uri@,
                            date@,
                            hash,
                        ) && opt_text(o.hash) == Some(hash) && hash.len() == 2 * DIGEST_LEN
                            && views(o.messages@) == views(msg@)
                            && views(o.actions@) == item_updates(
                            fetch_targets(user_id, store.subscribers_of_item(plan.uri@)),
                            plan.uri@,
                        ) + seq![
                            FetchActionView::Broadcast(
                                fetch_targets(user_id, store.subscribers_of_item(plan.uri@)),
                                EventView::SourceItemFetchDidEnd {
                                    source_item: plan.uri@,
                                    success: true,
                                    log: log_of(views(msg@)),
                                },
                            ),
                        ],
                        Err(e) => (e matches FetchError::Create(CreateVersionError::IoError))
                            && !old(data)@.has_item_version_hash(hash) && final(data)@ == old(
                            data,
                        )@,
                    },
                },
            },
    {
        let mut actions: Vec<FetchAction> = Vec::new();
        match res {
            Ok(source_item) => {
                let last_updated = match &source_item.last_updated {
                    Some(s) => Some(s.as_str()),
                    None => None,
                };
                let hash = match data.create_source_item_version(
                    plan.uri.as_str(),
                    SourceItemData { tags: copy_bytes(source_item.tags.as_slice()) },
                    last_updated,
                ) {
                    Ok(h) => h,
                    Err(e) => {
                        return Err(FetchError::Create(e));
                    },
                };
                let users = match user_id {
                    Some(user) => one_user(user),
                    None => match data.source_item_get_subscribed_users(plan.uri.as_str()) {
                        Ok(users) => users,
                        Err(e) => {
                            return Err(FetchError::Data(e));
                        },
                    },
                };
                Fetcher::update_items(
                    data,
                    &users,
                    plan.uri.as_str(),
                    date,
                    hash.as_str(),
                    &mut actions,
                );
                actions.push(
                    FetchAction::Broadcast(
                        copy_users(&users),
                        Event::SourceItemFetchDidEnd {
                            source_item: copy_str(plan.uri.as_str()),
                            success: true,
                            log: log_of_messages(&msg),
                        },
                    ),
                );
                proof {
                    assert(views(actions@) =~= item_updates(users@, plan.uri@) + seq![
                        FetchActionView::Broadcast(
                            users@,
                            EventView::SourceItemFetchDidEnd {
                                source_item: plan.uri@,
                                success: true,
                                log: log_of(views(msg@)),
                            },
                        ),
                    ]);
                }
                Ok(FetchOutcome { messages: msg, hash: Some(hash), actions })
            },
            Err(err) => {
                let mut msg = msg;
                let ghost before = msg@;
                msg.push(error_msg(err.message()));
                assert(views(msg@) =~= views(before).push(
                    error_message(script_error_text(err@)),
                ));
                actions.push(
                    FetchAction::Broadcast(
                        copy_users(&plan.users),
                        Event::SourceItemFetchDidEnd {
                            source_item: copy_str(plan.uri.as_str()),
                            success: false,
                            log: log_of_messages(&msg),
                        },
                    ),
                );
                assert(views(actions@) =~= seq![
                    FetchActionView::Broadcast(
                        plan.users@,
                        EventView::SourceItemFetchDidEnd {
                            source_item: plan.uri@,
                            success: false,
                            log: log_of(views(msg@)),
                        },
                    ),
                ]);
                Ok(FetchOutcome { messages: msg, hash: None, actions })
            },
        }
    }

    /// The date of a fetch that ends now: the time that the clock gives, as
    /// RFC 3339 text, or nothing where it is out of the range of dates.
    pub fn fetch_date() -> (date: Option<String>)
        ensures
            exists|secs: i64, nanos: u32| opt_text(date) == #[trigger] rfc3339_text(secs, nanos),
    {
        let now = current_time();
        let date = format_rfc3339(now);
        assert(opt_text(date) == rfc3339_text(now.secs, now.nanos));
        date
    }
}

} // verus!
